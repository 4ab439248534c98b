//! The prize wheel: wedge values, the standard 24-wedge layout, and the
//! spacing-preserving shuffle.
use vstd::prelude::*;
use vstd::multiset::Multiset;
use crate::random::{random_usize, shuffle_in_place};

verus! {

/// Value on a wheel wedge.
#[derive(Debug, Clone, PartialEq)]
pub enum WedgeValue {
    Cash(i32),
    Bankrupt,
    LoseTurn,
    FreePlay,
    Prize { wedge_type: String, name: String },
}

/// Number of wedges on the wheel.
pub const WHEEL_SIZE: usize = 24;

/// A wedge is special when it is anything but plain cash.
pub open spec fn spec_is_special(w: WedgeValue) -> bool {
    !(w is Cash)
}

/// The wedge at position `i` of the standard wheel, for positions holding no prize.
pub open spec fn standard_cash_or_special(i: int) -> WedgeValue {
    if i == 0 { WedgeValue::Cash(5000) }
    else if i == 1 { WedgeValue::Cash(300) }
    else if i == 2 { WedgeValue::Cash(900) }
    else if i == 3 { WedgeValue::Cash(400) }
    else if i == 4 { WedgeValue::Cash(650) }
    else if i == 5 { WedgeValue::Bankrupt }
    else if i == 6 { WedgeValue::Cash(450) }
    else if i == 7 { WedgeValue::Cash(800) }
    else if i == 8 { WedgeValue::Cash(350) }
    else if i == 9 { WedgeValue::Cash(550) }
    else if i == 11 { WedgeValue::Cash(700) }
    else if i == 12 { WedgeValue::Cash(500) }
    else if i == 13 { WedgeValue::Cash(1000) }
    else if i == 14 { WedgeValue::LoseTurn }
    else if i == 15 { WedgeValue::Cash(600) }
    else if i == 16 { WedgeValue::Cash(2500) }
    else if i == 17 { WedgeValue::Cash(750) }
    else if i == 18 { WedgeValue::Cash(850) }
    else if i == 19 { WedgeValue::FreePlay }
    else if i == 20 { WedgeValue::Cash(950) }
    else if i == 21 { WedgeValue::Cash(1500) }
    else if i == 22 { WedgeValue::Cash(3500) }
    else { WedgeValue::Bankrupt }
}

/// A prize wedge of the given kind and name.
pub open spec fn is_prize_named(w: WedgeValue, kind: Seq<char>, name: Seq<char>) -> bool {
    w matches WedgeValue::Prize { wedge_type, name: n } && wedge_type@ == kind && n@ == name
}

/// `w` is the wedge at position `i` of the standard wheel: position 10 holds the
/// "GIFT CARD" prize, every other position the fixed value above.
pub open spec fn is_standard_wedge(i: int, w: WedgeValue) -> bool {
    if i == 10 {
        is_prize_named(w, "PRIZE"@, "GIFT CARD"@)
    } else {
        w == standard_cash_or_special(i)
    }
}

impl WedgeValue {
    pub fn is_bankrupt(&self) -> (r: bool)
        ensures
            r == (*self is Bankrupt),
    {
        matches!(self, WedgeValue::Bankrupt)
    }

    pub fn is_lose_turn(&self) -> (r: bool)
        ensures
            r == (*self is LoseTurn),
    {
        matches!(self, WedgeValue::LoseTurn)
    }

    pub fn is_special(&self) -> (r: bool)
        ensures
            r == spec_is_special(*self),
    {
        match self {
            WedgeValue::Cash(_) => false,
            _ => true,
        }
    }

    /// Create a prize wedge.
    pub fn prize(name: &str) -> (r: Self)
        ensures
            is_prize_named(r, "PRIZE"@, name@),
    {
        WedgeValue::Prize { wedge_type: "PRIZE".to_owned(), name: name.to_owned() }
    }

    /// The text that stands for a special wedge in messages to clients:
    /// `BANKRUPT`, `LOSE A TURN` or `FREE PLAY`; none for cash and prizes.
    pub fn special_label(&self) -> (r: Option<&'static str>)
        ensures
            match *self {
                WedgeValue::Bankrupt => r matches Some(l) && l@ == "BANKRUPT"@,
                WedgeValue::LoseTurn => r matches Some(l) && l@ == "LOSE A TURN"@,
                WedgeValue::FreePlay => r matches Some(l) && l@ == "FREE PLAY"@,
                _ => r is None,
            },
    {
        match self {
            WedgeValue::Bankrupt => Some("BANKRUPT"),
            WedgeValue::LoseTurn => Some("LOSE A TURN"),
            WedgeValue::FreePlay => Some("FREE PLAY"),
            _ => None,
        }
    }

    /// The special wedge that `label` stands for, if any.
    pub fn from_label(label: &str) -> (r: Option<Self>)
        ensures
            r == (if label@ == "BANKRUPT"@ {
                Some(WedgeValue::Bankrupt)
            } else if label@ == "LOSE A TURN"@ {
                Some(WedgeValue::LoseTurn)
            } else if label@ == "FREE PLAY"@ {
                Some(WedgeValue::FreePlay)
            } else {
                None
            }),
    {
        let l = label.to_owned();
        if l == "BANKRUPT".to_owned() {
            Some(WedgeValue::Bankrupt)
        } else if l == "LOSE A TURN".to_owned() {
            Some(WedgeValue::LoseTurn)
        } else if l == "FREE PLAY".to_owned() {
            Some(WedgeValue::FreePlay)
        } else {
            None
        }
    }

    /// The cash wedge for a number read from a client; the number is taken
    /// modulo 2^32, as a 32-bit value.
    pub fn from_number(value: i64) -> (r: Self)
        ensures
            r == WedgeValue::Cash(value as i32),
    {
        WedgeValue::Cash(value as i32)
    }

    /// The prize wedge read from a client: the kind defaults to `PRIZE`.
    pub fn from_prize_fields(wedge_type: Option<String>, name: String) -> (r: Self)
        ensures
            r matches WedgeValue::Prize { wedge_type: t, name: n } && n@ == name@ && t@ == match wedge_type {
                Some(k) => k@,
                None => "PRIZE"@,
            },
    {
        let kind = match wedge_type {
            Some(k) => k,
            None => "PRIZE".to_owned(),
        };
        WedgeValue::Prize { wedge_type: kind, name }
    }

    /// An equal copy of this wedge.
    pub fn copy_value(&self) -> (r: Self)
        ensures
            r == *self,
    {
        match self {
            WedgeValue::Cash(v) => WedgeValue::Cash(*v),
            WedgeValue::Bankrupt => WedgeValue::Bankrupt,
            WedgeValue::LoseTurn => WedgeValue::LoseTurn,
            WedgeValue::FreePlay => WedgeValue::FreePlay,
            WedgeValue::Prize { wedge_type, name } => WedgeValue::Prize {
                wedge_type: wedge_type.clone(),
                name: name.clone(),
            },
        }
    }
}

/// How many wedges of `s` satisfy `p`.
pub open spec fn count_wedges(s: Seq<WedgeValue>, p: spec_fn(WedgeValue) -> bool) -> nat
    decreases s.len(),
{
    if s.len() == 0 {
        0
    } else {
        count_wedges(s.drop_last(), p) + if p(s.last()) { 1nat } else { 0nat }
    }
}

/// The wheel `w` is made as the standard wheel is: 24 wedges, of which two are
/// BANKRUPT, one LOSE A TURN, one FREE PLAY, one a prize and nineteen cash, the
/// cash values all different and between $300 and $5000.
pub open spec fn standard_wheel_shape(w: Seq<WedgeValue>) -> bool {
    &&& w.len() == 24
    &&& count_wedges(w, |x: WedgeValue| x is Bankrupt) == 2
    &&& count_wedges(w, |x: WedgeValue| x is LoseTurn) == 1
    &&& count_wedges(w, |x: WedgeValue| x is FreePlay) == 1
    &&& count_wedges(w, |x: WedgeValue| x is Prize) == 1
    &&& count_wedges(w, |x: WedgeValue| x is Cash) == 19
    &&& forall|i: int| 0 <= i < w.len() && (#[trigger] w[i] is Cash) ==> 300 <= w[i]->Cash_0 <= 5000
    &&& forall|i: int, j: int| 0 <= i < j < w.len() && (#[trigger] w[i] is Cash) && (#[trigger] w[j] is Cash)
        ==> w[i]->Cash_0 != w[j]->Cash_0
}

/// Create the standard wheel: exactly 24 wedges, all cash values distinct.
pub fn create_standard_wheel() -> (r: Vec<WedgeValue>)
    ensures
        r@.len() == WHEEL_SIZE,
        forall|i: int| 0 <= i < r@.len() ==> #[trigger] is_standard_wedge(i, r@[i]),
        standard_wheel_shape(r@),
{
    let mut v: Vec<WedgeValue> = Vec::new();
    v.push(WedgeValue::Cash(5000));
    v.push(WedgeValue::Cash(300));
    v.push(WedgeValue::Cash(900));
    v.push(WedgeValue::Cash(400));
    v.push(WedgeValue::Cash(650));
    v.push(WedgeValue::Bankrupt);
    v.push(WedgeValue::Cash(450));
    v.push(WedgeValue::Cash(800));
    v.push(WedgeValue::Cash(350));
    v.push(WedgeValue::Cash(550));
    v.push(WedgeValue::prize("GIFT CARD"));
    v.push(WedgeValue::Cash(700));
    v.push(WedgeValue::Cash(500));
    v.push(WedgeValue::Cash(1000));
    v.push(WedgeValue::LoseTurn);
    v.push(WedgeValue::Cash(600));
    v.push(WedgeValue::Cash(2500));
    v.push(WedgeValue::Cash(750));
    v.push(WedgeValue::Cash(850));
    v.push(WedgeValue::FreePlay);
    v.push(WedgeValue::Cash(950));
    v.push(WedgeValue::Cash(1500));
    v.push(WedgeValue::Cash(3500));
    v.push(WedgeValue::Bankrupt);
    assert forall|i: int| 0 <= i < v@.len() implies #[trigger] is_standard_wedge(i, v@[i]) by {
        reveal_strlit("PRIZE");
        reveal_strlit("GIFT CARD");
    }
    proof {
        lemma_standard_shape(v@);
    }
    v
}

pub proof fn lemma_standard_shape(w: Seq<WedgeValue>)
    requires
        w.len() == 24,
        forall|i: int| 0 <= i < w.len() ==> #[trigger] is_standard_wedge(i, w[i]),
    ensures
        standard_wheel_shape(w),
{
    let prize = w[10];
    assert(is_standard_wedge(10, w[10]));
    assert forall|i: int| 0 <= i < 24 && i != 10 implies w[i] == standard_cash_or_special(i) by {
        assert(is_standard_wedge(i, w[i]));
    }
    let lit = seq![
        WedgeValue::Cash(5000), WedgeValue::Cash(300), WedgeValue::Cash(900), WedgeValue::Cash(400),
        WedgeValue::Cash(650), WedgeValue::Bankrupt, WedgeValue::Cash(450), WedgeValue::Cash(800),
        WedgeValue::Cash(350), WedgeValue::Cash(550), prize, WedgeValue::Cash(700),
        WedgeValue::Cash(500), WedgeValue::Cash(1000), WedgeValue::LoseTurn, WedgeValue::Cash(600),
        WedgeValue::Cash(2500), WedgeValue::Cash(750), WedgeValue::Cash(850), WedgeValue::FreePlay,
        WedgeValue::Cash(950), WedgeValue::Cash(1500), WedgeValue::Cash(3500), WedgeValue::Bankrupt
    ];
    assert forall|i: int| 0 <= i < 24 implies w[i] == lit[i] by {
        assert(is_standard_wedge(i, w[i]));
        if i == 10 {
        } else if i < 5 {
        } else if i < 10 {
        } else if i < 15 {
        } else if i < 20 {
        } else {
        }
    }
    assert(w =~= lit);
    assert(prize is Prize);
    reveal_with_fuel(count_wedges, 25);
    assert(count_wedges(lit, |x: WedgeValue| x is Bankrupt) == 2);
    assert(count_wedges(lit, |x: WedgeValue| x is LoseTurn) == 1);
    assert(count_wedges(lit, |x: WedgeValue| x is FreePlay) == 1);
    assert(count_wedges(lit, |x: WedgeValue| x is Prize) == 1);
    assert(count_wedges(lit, |x: WedgeValue| x is Cash) == 19);
}


/// Number of special wedges in `s`.
pub open spec fn count_special(s: Seq<WedgeValue>) -> nat
    decreases s.len(),
{
    if s.len() == 0 {
        0
    } else {
        count_special(s.drop_last()) + if spec_is_special(s.last()) { 1nat } else { 0nat }
    }
}

/// The values held by the filled slots of `s`, with multiplicity.
pub open spec fn filled_values(s: Seq<Option<WedgeValue>>) -> Multiset<WedgeValue>
    decreases s.len(),
{
    if s.len() == 0 {
        Multiset::empty()
    } else {
        match s.last() {
            Some(w) => filled_values(s.drop_last()).insert(w),
            None => filled_values(s.drop_last()),
        }
    }
}

/// Number of empty slots of `s`.
pub open spec fn empty_count(s: Seq<Option<WedgeValue>>) -> nat
    decreases s.len(),
{
    if s.len() == 0 {
        0
    } else {
        empty_count(s.drop_last()) + if s.last() is None { 1nat } else { 0nat }
    }
}

proof fn lemma_slots_count(s: Seq<Option<WedgeValue>>)
    ensures
        filled_values(s).len() + empty_count(s) == s.len(),
        empty_count(s) == 0 ==> forall|j: int| 0 <= j < s.len() ==> s[j] is Some,
        (forall|j: int| 0 <= j < s.len() ==> s[j] is None) ==> empty_count(s) == s.len(),
    decreases s.len(),
{
    if s.len() > 0 {
        lemma_slots_count(s.drop_last());
        if empty_count(s) == 0 {
            assert forall|j: int| 0 <= j < s.len() implies s[j] is Some by {
                if j < s.len() - 1 {
                    assert(s.drop_last()[j] == s[j]);
                }
            }
        }
        if forall|j: int| 0 <= j < s.len() ==> s[j] is None {
            assert forall|j: int| 0 <= j < s.drop_last().len() implies s.drop_last()[j] is None by {
                assert(s.drop_last()[j] == s[j]);
            }
        }
    }
}

proof fn lemma_fill_slot(s: Seq<Option<WedgeValue>>, pos: int, w: WedgeValue)
    requires
        0 <= pos < s.len(),
        s[pos] is None,
    ensures
        filled_values(s.update(pos, Some(w))) == filled_values(s).insert(w),
        empty_count(s.update(pos, Some(w))) + 1 == empty_count(s),
    decreases s.len(),
{
    let t = s.update(pos, Some(w));
    if pos == s.len() - 1 {
        assert(t.drop_last() =~= s.drop_last());
    } else {
        assert(t.drop_last() =~= s.drop_last().update(pos, Some(w)));
        lemma_fill_slot(s.drop_last(), pos, w);
    }
}

proof fn lemma_filled_contains(s: Seq<Option<WedgeValue>>, w: WedgeValue)
    requires
        filled_values(s).count(w) > 0,
    ensures
        exists|j: int| 0 <= j < s.len() && s[j] == Some(w),
    decreases s.len(),
{
    if s.len() > 0 {
        if s.last() == Some(w) {
            assert(s[s.len() - 1] == Some(w));
        } else {
            lemma_filled_contains(s.drop_last(), w);
            let j = choose|j: int| 0 <= j < s.drop_last().len() && s.drop_last()[j] == Some(w);
            assert(s[j] == Some(w));
        }
    }
}

/// Special wedge `t` of `n` is placed in its window of the wheel: between
/// `t * sp` and `t * sp + sp - 2`.
pub open spec fn in_window(pos: int, t: int, sp: int) -> bool {
    t * sp <= pos <= t * sp + sp - 2
}

proof fn lemma_windows_ordered(t1: int, t2: int, sp: int)
    by (nonlinear_arith)
    requires
        0 <= t1 < t2,
        sp >= 0,
    ensures
        t1 * sp + sp <= t2 * sp,
{
}

proof fn lemma_spacing(n: int, sp: int)
    requires
        1 <= n <= 12,
        sp == 24int / n,
    ensures
        sp >= 2,
        n * sp <= 24,
{
    vstd::arithmetic::div_mod::lemma_fundamental_div_mod(24, n);
    assert(n * sp <= 24) by (nonlinear_arith)
        requires
            24 == n * (24int / n) + 24int % n,
            24int % n >= 0,
            sp == 24int / n,
    ;
    assert(sp >= 2) by (nonlinear_arith)
        requires
            24 == n * (24int / n) + 24int % n,
            24int % n < n,
            1 <= n <= 12,
            sp == 24int / n,
    ;
}

/// Special wedges placed in their windows are never neighbours on a 24-wedge
/// wheel, the last and first positions included.
proof fn lemma_windows_apart(placed: Seq<int>, n: int, sp: int, t1: int, t2: int)
    requires
        placed.len() == n,
        sp >= 2,
        n * sp <= 24,
        forall|t: int| 0 <= t < n ==> #[trigger] in_window(placed[t], t, sp),
        0 <= t1 < n,
        0 <= t2 < n,
    ensures
        placed[t2] != (placed[t1] + 1) % 24,
{
    assert(in_window(placed[t1], t1, sp));
    assert(in_window(placed[t2], t2, sp));
    lemma_windows_ordered(t1, n, sp);
    assert(0 <= placed[t1] + 1 < 24);
    if t1 < t2 {
        lemma_windows_ordered(t1, t2, sp);
    } else if t2 < t1 {
        lemma_windows_ordered(t2, t1, sp);
        assert(0 <= t2 * sp) by (nonlinear_arith)
            requires
                t2 >= 0,
                sp >= 0,
        ;
    }
}

/// Shuffle wheel slots while keeping special wedges evenly distributed.
///
/// The special wedges are shuffled among themselves and placed near evenly spaced
/// positions of a 24-slot wheel; the remaining slots take the shuffled cash
/// wedges in turn (cycling when there are fewer cash wedges than slots).
pub fn shuffle_wheel_with_spacing(slots: Vec<WedgeValue>) -> (r: Vec<WedgeValue>)
    requires
        count_special(slots@) <= WHEEL_SIZE,
        count_special(slots@) == 0 || count_special(slots@) == WHEEL_SIZE
            || count_special(slots@) < slots@.len(),
    ensures
        count_special(slots@) > 0 ==> r@.len() == WHEEL_SIZE,
        count_special(slots@) == 0 ==> r@.len() == if slots@.len() < WHEEL_SIZE {
            slots@.len()
        } else {
            WHEEL_SIZE as nat
        },
        forall|i: int| 0 <= i < r@.len() ==> slots@.contains(#[trigger] r@[i]),
        slots@.len() == WHEEL_SIZE ==> r@.to_multiset() == slots@.to_multiset(),
        1 <= count_special(slots@) <= 12 ==> forall|i: int| 0 <= i < WHEEL_SIZE
            ==> !(spec_is_special(#[trigger] r@[i]) && spec_is_special(r@[(i + 1) % (WHEEL_SIZE as int)])),
{
    broadcast use vstd::seq_lib::group_to_multiset_ensures;

    let mut special: Vec<WedgeValue> = Vec::new();
    let mut cash: Vec<WedgeValue> = Vec::new();
    let mut i: usize = 0;
    while i < slots.len()
        invariant
            i <= slots@.len(),
            special@.to_multiset().add(cash@.to_multiset()) == slots@.subrange(0, i as int).to_multiset(),
            special@.len() == count_special(slots@.subrange(0, i as int)),
            special@.len() + cash@.len() == i,
            forall|j: int| 0 <= j < special@.len() ==> spec_is_special(#[trigger] special@[j]),
            forall|j: int| 0 <= j < special@.len() ==> slots@.contains(#[trigger] special@[j]),
            forall|j: int| 0 <= j < cash@.len() ==> slots@.contains(#[trigger] cash@[j]),
            forall|j: int| 0 <= j < cash@.len() ==> !spec_is_special(#[trigger] cash@[j]),
        decreases slots@.len() - i,
    {
        let ghost prefix = slots@.subrange(0, i as int);
        assert(slots@.subrange(0, i + 1) =~= prefix.push(slots@[i as int]));
        assert(slots@.subrange(0, i + 1).drop_last() =~= prefix);
        let w = slots[i].copy_value();
        proof {
            vstd::seq_lib::to_multiset_build(prefix, w);
        }
        if w.is_special() {
            proof {
                vstd::seq_lib::to_multiset_build(special@, w);
                assert(special@.to_multiset().insert(w).add(cash@.to_multiset())
                    =~= special@.to_multiset().add(cash@.to_multiset()).insert(w));
            }
            special.push(w);
        } else {
            proof {
                vstd::seq_lib::to_multiset_build(cash@, w);
                assert(special@.to_multiset().add(cash@.to_multiset().insert(w))
                    =~= special@.to_multiset().add(cash@.to_multiset()).insert(w));
            }
            cash.push(w);
        }
        i += 1;
    }
    assert(slots@.subrange(0, slots@.len() as int) =~= slots@);

    let ghost cash_before = cash@;
    shuffle_in_place(&mut special);
    shuffle_in_place(&mut cash);
    proof {
        assert forall|j: int| 0 <= j < cash@.len() implies !spec_is_special(#[trigger] cash@[j]) by {
            assert(cash@.to_multiset().count(cash@[j]) > 0);
            assert(cash_before.contains(cash@[j]));
            let k = choose|k: int| 0 <= k < cash_before.len() && cash_before[k] == cash@[j];
        }
        assert forall|j: int| 0 <= j < special@.len() implies spec_is_special(#[trigger] special@[j])
            && slots@.contains(special@[j]) by {
            assert(special@.to_multiset().count(special@[j]) > 0);
        }
        assert forall|j: int| 0 <= j < cash@.len() implies slots@.contains(#[trigger] cash@[j]) by {
            assert(cash@.to_multiset().count(cash@[j]) > 0);
        }
    }

    let total = WHEEL_SIZE;
    let n_special = special.len();

    if n_special == 0 {
        proof {
            assert(special@.to_multiset() =~= Multiset::empty());
            assert(cash@.to_multiset() =~= slots@.to_multiset());
        }
        let ghost before = cash@;
        cash.truncate(total);
        proof {
            if slots@.len() == WHEEL_SIZE {
                assert(cash@ =~= before);
            }
        }
        return cash;
    }

    let spacing = total / n_special;
    let mut result: Vec<Option<WedgeValue>> = Vec::new();
    let mut k: usize = 0;
    while k < total
        invariant
            k <= total,
            total == WHEEL_SIZE,
            result@.len() == k,
            forall|j: int| 0 <= j < k ==> result@[j] is None,
        decreases total - k,
    {
        result.push(None);
        k += 1;
    }
    proof {
        lemma_slots_count(result@);
        assert(filled_values(result@).len() == 0);
        assert(filled_values(result@) =~= Multiset::empty());
    }

    let ghost spaced = n_special <= 12;
    proof {
        if spaced {
            lemma_spacing(n_special as int, spacing as int);
        }
    }
    let ghost mut placed: Seq<int> = Seq::empty();
    let mut si: usize = 0;
    while si < n_special
        invariant
            si <= n_special,
            spaced == (n_special <= 12),
            spaced ==> spacing >= 2 && n_special * spacing <= 24,
            placed.len() == si,
            spaced ==> forall|t: int| 0 <= t < si ==> #[trigger] in_window(placed[t], t, spacing as int),
            forall|j: int| 0 <= j < total ==> (#[trigger] result@[j] matches Some(w) ==> spec_is_special(w)),
            spaced ==> forall|j: int| 0 <= j < total && #[trigger] result@[j] is Some
                ==> exists|t: int| 0 <= t < si && placed[t] == j,
            forall|j: int| 0 <= j < special@.len() ==> spec_is_special(#[trigger] special@[j]),
            n_special == special@.len(),
            0 < n_special <= WHEEL_SIZE,
            total == WHEEL_SIZE,
            spacing == total / n_special,
            result@.len() == total,
            filled_values(result@) == special@.subrange(0, si as int).to_multiset(),
            empty_count(result@) + si == total,
            spacing <= WHEEL_SIZE,
            forall|j: int| 0 <= j < special@.len() ==> slots@.contains(#[trigger] special@[j]),
            forall|j: int| 0 <= j < total ==> (#[trigger] result@[j] matches Some(w) ==> slots@.contains(w)),
        decreases n_special - si,
    {
        assert(si * spacing <= 24 * 24) by (nonlinear_arith)
            requires
                si <= 24,
                spacing <= 24,
        ;
        let base_pos = si * spacing;
        let jitter = if spacing > 2 {
            random_usize() % (spacing - 1)
        } else {
            0
        };
        let mut pos = (base_pos + jitter) % total;
        let ghost start = pos as int;
        proof {
            if spaced {
                assert(jitter <= spacing - 2);
                lemma_windows_ordered(si as int, n_special as int, spacing as int);
                assert(si * spacing + spacing <= 24);
                vstd::arithmetic::div_mod::lemma_small_mod((base_pos + jitter) as nat, total as nat);
                assert(start == si * spacing + jitter);
                if result@[start] is Some {
                    let t = choose|t: int| 0 <= t < si && placed[t] == start;
                    assert(in_window(placed[t], t, spacing as int));
                    lemma_windows_ordered(t, si as int, spacing as int);
                }
            }
        }
        proof {
            lemma_slots_count(result@);
            assert(empty_count(result@) > 0);
            if forall|j: int| 0 <= j < result@.len() ==> result@[j] is Some {
                assert(forall|j: int| 0 <= j < result@.len() ==> !(result@[j] is None));
                lemma_no_empty(result@);
            }
        }
        let ghost target = choose|j: int| 0 <= j < result@.len() && result@[j] is None;
        while result[pos].is_some()
            invariant
                pos < total,
                total == WHEEL_SIZE,
                result@.len() == total,
                0 <= target < total,
                result@[target] is None,
                0 <= start < total,
                result@[start] is None ==> pos == start,
            decreases if target >= pos { target - pos } else { target + total - pos },
        {
            pos = (pos + 1) % total;
        }
        let w = special[si].copy_value();
        proof {
            lemma_fill_slot(result@, pos as int, w);
            assert(special@.subrange(0, si + 1) =~= special@.subrange(0, si as int).push(w));
            vstd::seq_lib::to_multiset_build(special@.subrange(0, si as int), w);
        }
        result.set(pos, Some(w));
        proof {
            if spaced {
                assert(pos == start);
                assert(in_window(pos as int, si as int, spacing as int));
            }
            let old_placed = placed;
            placed = placed.push(pos as int);
            if spaced {
                assert forall|t: int| 0 <= t < si + 1 implies #[trigger] in_window(placed[t], t, spacing as int) by {
                    if t < si {
                        assert(placed[t] == old_placed[t]);
                    }
                }
                assert forall|j: int| 0 <= j < total && #[trigger] result@[j] is Some
                    implies exists|t: int| 0 <= t < si + 1 && placed[t] == j by {
                    if j == pos {
                        assert(placed[si as int] == j);
                    } else {
                        let t = choose|t: int| 0 <= t < si && old_placed[t] == j;
                        assert(placed[t] == j);
                    }
                }
            }
        }
        si += 1;
    }
    assert(special@.subrange(0, n_special as int) =~= special@);

    let mut filled: usize = 0;
    let mut idx: usize = 0;
    while idx < total
        invariant
            idx <= total,
            total == WHEEL_SIZE,
            result@.len() == total,
            cash@.len() == slots@.len() - n_special,
            n_special == special@.len(),
            n_special == count_special(slots@),
            n_special == WHEEL_SIZE || n_special < slots@.len(),
            empty_count(result@) + filled + n_special == total,
            forall|j: int| 0 <= j < idx ==> result@[j] is Some,
            forall|j: int| 0 <= j < cash@.len() ==> slots@.contains(#[trigger] cash@[j]),
            forall|j: int| 0 <= j < total ==> (#[trigger] result@[j] matches Some(w) ==> slots@.contains(w)),
            slots@.len() == WHEEL_SIZE ==> filled_values(result@)
                == special@.to_multiset().add(cash@.subrange(0, filled as int).to_multiset()),
            special@.to_multiset().add(cash@.to_multiset()) == slots@.to_multiset(),
            forall|j: int| 0 <= j < cash@.len() ==> !spec_is_special(#[trigger] cash@[j]),
            spaced == (n_special <= 12),
            placed.len() == n_special,
            spaced ==> forall|j: int| 0 <= j < total && (#[trigger] result@[j] matches Some(w) && spec_is_special(w))
                ==> exists|t: int| 0 <= t < n_special && placed[t] == j,
        decreases total - idx,
    {
        if result[idx].is_none() {
            proof {
                lemma_slots_count(result@);
                assert(empty_count(result@) > 0);
            }
            let c = cash[filled % cash.len()].copy_value();
            proof {
                lemma_fill_slot(result@, idx as int, c);
                if slots@.len() == WHEEL_SIZE {
                    vstd::arithmetic::div_mod::lemma_small_mod(filled as nat, cash@.len());
                    assert(cash@.subrange(0, filled + 1) =~= cash@.subrange(0, filled as int).push(c));
                    vstd::seq_lib::to_multiset_build(cash@.subrange(0, filled as int), c);
                    assert(special@.to_multiset().add(cash@.subrange(0, filled as int).to_multiset()).insert(c)
                        =~= special@.to_multiset().add(cash@.subrange(0, filled + 1).to_multiset()));
                }
            }
            proof {
                assert(!spec_is_special(c));
            }
            result.set(idx, Some(c));
            filled += 1;
        }
        idx += 1;
    }
    proof {
        assert forall|m: int| 0 <= m < result@.len() implies !(result@[m] is None) by {
            assert(result@[m] is Some);
        }
        lemma_no_empty(result@);
        if slots@.len() == WHEEL_SIZE {
            assert(cash@.subrange(0, filled as int) =~= cash@);
        }
    }

    let mut out: Vec<WedgeValue> = Vec::new();
    let mut j: usize = 0;
    while j < total
        invariant
            j <= total,
            total == WHEEL_SIZE,
            result@.len() == total,
            out@.len() == j,
            forall|m: int| 0 <= m < total ==> result@[m] is Some,
            forall|m: int| 0 <= m < j ==> Some(#[trigger] out@[m]) == result@[m],
            out@.to_multiset() == filled_values(result@.subrange(0, j as int)),
        decreases total - j,
    {
        let w = match &result[j] {
            Some(w) => w.copy_value(),
            None => WedgeValue::Bankrupt,
        };
        proof {
            assert(result@.subrange(0, j + 1).drop_last() =~= result@.subrange(0, j as int));
            assert(result@.subrange(0, j + 1).last() == Some(w));
            vstd::seq_lib::to_multiset_build(out@, w);
        }
        out.push(w);
        j += 1;
    }
    proof {
        assert(result@.subrange(0, total as int) =~= result@);
        assert forall|m: int| 0 <= m < out@.len() implies slots@.contains(#[trigger] out@[m]) by {
            assert(Some(out@[m]) == result@[m]);
        }
        if 1 <= count_special(slots@) <= 12 {
            assert forall|i: int| 0 <= i < WHEEL_SIZE
                implies !(spec_is_special(#[trigger] out@[i]) && spec_is_special(out@[(i + 1) % (WHEEL_SIZE as int)])) by {
                let i2 = (i + 1) % (WHEEL_SIZE as int);
                if spec_is_special(out@[i]) && spec_is_special(out@[i2]) {
                    assert(Some(out@[i]) == result@[i]);
                    assert(Some(out@[i2]) == result@[i2]);
                    let t1 = choose|t: int| 0 <= t < n_special && placed[t] == i;
                    let t2 = choose|t: int| 0 <= t < n_special && placed[t] == i2;
                    lemma_windows_apart(placed, n_special as int, spacing as int, t1, t2);
                }
            }
        }
    }
    out
}

/// Number of special positions of the standard wheel below `k`.
pub open spec fn standard_specials_below(k: int) -> nat {
    (if k > 5 { 1nat } else { 0nat }) + (if k > 10 { 1nat } else { 0nat }) + (if k > 14 { 1nat } else { 0nat })
        + (if k > 19 { 1nat } else { 0nat }) + (if k > 23 { 1nat } else { 0nat })
}

/// `s` holds the wedges of the standard wheel, in some order.
pub open spec fn is_standard_layout(s: Seq<WedgeValue>) -> bool {
    exists|w: Seq<WedgeValue>| #![trigger w.to_multiset()]
        w.len() == WHEEL_SIZE && (forall|i: int| 0 <= i < w.len() ==> #[trigger] is_standard_wedge(i, w[i]))
            && s.to_multiset() == w.to_multiset()
}

proof fn lemma_standard_specials(s: Seq<WedgeValue>, k: int)
    requires
        s.len() == WHEEL_SIZE,
        forall|i: int| 0 <= i < s.len() ==> #[trigger] is_standard_wedge(i, s[i]),
        0 <= k <= s.len(),
    ensures
        count_special(s.subrange(0, k)) == standard_specials_below(k),
    decreases k,
{
    if k > 0 {
        lemma_standard_specials(s, k - 1);
        assert(s.subrange(0, k).drop_last() =~= s.subrange(0, k - 1));
        assert(is_standard_wedge(k - 1, s[k - 1]));
    }
}

/// A freshly shuffled standard wheel.
pub fn shuffled_standard_wheel() -> (r: Vec<WedgeValue>)
    ensures
        r@.len() == WHEEL_SIZE,
        is_standard_layout(r@),
{
    let w = create_standard_wheel();
    proof {
        lemma_standard_specials(w@, 24);
        assert(w@.subrange(0, 24) =~= w@);
    }
    let r = shuffle_wheel_with_spacing(w);
    assert(is_standard_layout(r@)) by {
        assert(r@.to_multiset() == w@.to_multiset());
    }
    r
}

proof fn lemma_no_empty(s: Seq<Option<WedgeValue>>)
    requires
        forall|j: int| 0 <= j < s.len() ==> !(s[j] is None),
    ensures
        empty_count(s) == 0,
    decreases s.len(),
{
    if s.len() > 0 {
        assert forall|j: int| 0 <= j < s.drop_last().len() implies !(s.drop_last()[j] is None) by {
            assert(s.drop_last()[j] == s[j]);
        }
        lemma_no_empty(s.drop_last());
        assert(!(s[s.len() - 1] is None));
    }
}

} // verus!
