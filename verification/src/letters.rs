//! Small set types used by the game state: a set of letters and a set of
//! socket ids. Both keep their members in insertion order without duplicates.
use vstd::prelude::*;
use crate::text::str_equal;

verus! {

/// A set of characters.
#[derive(Debug)]
pub struct LetterSet {
    items: Vec<char>,
}

impl View for LetterSet {
    type V = Set<char>;

    closed spec fn view(&self) -> Set<char> {
        self.items@.to_set()
    }
}

impl LetterSet {
    #[verifier::type_invariant]
    closed spec fn no_duplicates(self) -> bool {
        self.items@.no_duplicates()
    }

    /// An empty set.
    pub fn new() -> (r: Self)
        ensures
            r@ == Set::<char>::empty(),
    {
        let r = LetterSet { items: Vec::new() };
        assert(r.items@.to_set() =~= Set::<char>::empty());
        r
    }

    /// An equal copy of this set.
    pub fn copy_set(&self) -> (r: Self)
        ensures
            r@ == self@,
    {
        proof {
            use_type_invariant(&self);
        }
        LetterSet { items: self.items.clone() }
    }

    /// Whether `c` is a member.
    pub fn contains(&self, c: &char) -> (r: bool)
        ensures
            r == self@.contains(*c),
    {
        let mut i: usize = 0;
        while i < self.items.len()
            invariant
                i <= self.items@.len(),
                forall|j: int| 0 <= j < i ==> self.items@[j] != *c,
            decreases self.items@.len() - i,
        {
            if self.items[i] == *c {
                assert(self.items@.contains(*c));
                return true;
            }
            i += 1;
        }
        assert(!self.items@.contains(*c));
        false
    }

    /// Adds `c`; returns whether it was new.
    pub fn insert(&mut self, c: char) -> (r: bool)
        ensures
            final(self)@ == old(self)@.insert(c),
            r == !old(self)@.contains(c),
            final(self)@.finite(),
            final(self)@.len() == old(self)@.len() + if r { 1nat } else { 0nat },
    {
        proof {
            use_type_invariant(&*self);
            self.items@.unique_seq_to_set();
        }
        if self.contains(&c) {
            false
        } else {
            proof {
                use_type_invariant(&*self);
                assert(!self.items@.contains(c));
            }
            let ghost before = self.items@;
            let mut items = self.items.clone();
            items.push(c);
            self.items = items;
            proof {
                assert(self.items@ =~= before.push(c));
                assert(self.items@.to_set() =~= before.to_set().insert(c)) by {
                    assert forall|x: char| self.items@.contains(x) <==> before.contains(x) || x == c by {
                        if self.items@.contains(x) && x != c {
                            let j = choose|j: int| 0 <= j < self.items@.len() && self.items@[j] == x;
                            assert(before[j] == x);
                        }
                        if before.contains(x) {
                            let j = choose|j: int| 0 <= j < before.len() && before[j] == x;
                            assert(self.items@[j] == x);
                        }
                        if x == c {
                            assert(self.items@[before.len() as int] == c);
                        }
                    }
                }
            }
            proof {
                assert(self.items@.no_duplicates()) by {
                    assert forall|x: int, y: int| 0 <= x < self.items@.len() && 0 <= y < self.items@.len() && x != y
                        implies self.items@[x] != self.items@[y] by {
                        if x < before.len() && y < before.len() {
                            assert(before[x] == self.items@[x] && before[y] == self.items@[y]);
                        } else if x == before.len() {
                            assert(before[y] == self.items@[y]);
                        } else {
                            assert(before[x] == self.items@[x]);
                        }
                    }
                }
                self.items@.unique_seq_to_set();
            }
            true
        }
    }

    /// Removes every member.
    pub fn clear(&mut self)
        ensures
            final(self)@ == Set::<char>::empty(),
    {
        self.items = Vec::new();
        assert(self.items@.to_set() =~= Set::<char>::empty());
    }

    /// Whether the set has no members.
    pub fn is_empty(&self) -> (r: bool)
        ensures
            r == (self@ == Set::<char>::empty()),
    {
        if self.items.len() == 0 {
            assert(self.items@.to_set() =~= Set::<char>::empty());
            true
        } else {
            assert(self.items@.to_set().contains(self.items@[0]));
            false
        }
    }

    /// Number of members.
    pub fn len(&self) -> (r: usize)
        ensures
            r == self@.len(),
            self@.finite(),
    {
        proof {
            use_type_invariant(&self);
            self.items@.unique_seq_to_set();
        }
        self.items.len()
    }

    /// The members, each once, in insertion order.
    pub fn to_vec(&self) -> (r: Vec<char>)
        ensures
            r@.no_duplicates(),
            r@.to_set() == self@,
    {
        proof {
            use_type_invariant(&self);
        }
        self.items.clone()
    }
}

/// A set of socket ids, compared by their characters.
#[derive(Debug)]
pub struct SidSet {
    items: Vec<String>,
}

/// Some string of `items` holds exactly the characters `s`.
pub open spec fn sid_in(items: Seq<String>, s: Seq<char>) -> bool {
    exists|j: int| 0 <= j < items.len() && #[trigger] items[j]@ == s
}

impl View for SidSet {
    type V = Set<Seq<char>>;

    closed spec fn view(&self) -> Set<Seq<char>> {
        Set::new(|s: Seq<char>| sid_in(self.items@, s))
    }
}

impl SidSet {
    /// An empty set.
    pub fn new() -> (r: Self)
        ensures
            r@ == Set::<Seq<char>>::empty(),
    {
        let r = SidSet { items: Vec::new() };
        assert(r@ =~= Set::<Seq<char>>::empty());
        r
    }

    /// An equal copy of this set.
    pub fn copy_set(&self) -> (r: Self)
        ensures
            r@ == self@,
    {
        let mut items: Vec<String> = Vec::new();
        let mut i: usize = 0;
        while i < self.items.len()
            invariant
                i <= self.items@.len(),
                items@.len() == i,
                forall|j: int| 0 <= j < i ==> #[trigger] items@[j] == self.items@[j],
            decreases self.items@.len() - i,
        {
            items.push(self.items[i].clone());
            i += 1;
        }
        let r = SidSet { items };
        assert(r.items@ =~= self.items@);
        assert(r@ =~= self@);
        r
    }

    /// Whether a socket id with the characters of `sid` is a member.
    pub fn contains(&self, sid: &str) -> (r: bool)
        ensures
            r == self@.contains(sid@),
    {
        let mut i: usize = 0;
        while i < self.items.len()
            invariant
                i <= self.items@.len(),
                forall|j: int| 0 <= j < i ==> self.items@[j]@ != sid@,
            decreases self.items@.len() - i,
        {
            if str_equal(self.items[i].as_str(), sid) {
                return true;
            }
            i += 1;
        }
        false
    }

    /// Adds `sid`.
    pub fn insert(&mut self, sid: String)
        ensures
            final(self)@ == old(self)@.insert(sid@),
    {
        if !self.contains(sid.as_str()) {
            let ghost before = self.items@;
            self.items.push(sid);
            assert forall|s: Seq<char>| self@.contains(s) <==> old(self)@.insert(sid@).contains(s) by {
                if self@.contains(s) {
                    let j = choose|j: int| 0 <= j < self.items@.len() && #[trigger] self.items@[j]@ == s;
                    if j < before.len() {
                        assert(before[j]@ == s);
                    }
                }
                if old(self)@.contains(s) {
                    let j = choose|j: int| 0 <= j < before.len() && #[trigger] before[j]@ == s;
                    assert(self.items@[j]@ == s);
                }
                if s == sid@ {
                    assert(self.items@[before.len() as int]@ == s);
                }
            }
            assert(self@ =~= old(self)@.insert(sid@));
        } else {
            assert(self@ =~= old(self)@.insert(sid@));
        }
    }

    /// Removes every member with the characters of `sid`.
    pub fn remove(&mut self, sid: &str)
        ensures
            final(self)@ == old(self)@.remove(sid@),
    {
        let mut kept: Vec<String> = Vec::new();
        let mut i: usize = 0;
        while i < self.items.len()
            invariant
                i <= self.items@.len(),
                forall|s: Seq<char>| #[trigger] sid_in(kept@, s)
                    <==> (s != sid@ && sid_in(self.items@.subrange(0, i as int), s)),
            decreases self.items@.len() - i,
        {
            let ghost prev = kept@;
            if !str_equal(self.items[i].as_str(), sid) {
                kept.push(self.items[i].clone());
            }
            proof {
                let cur = self.items@.subrange(0, i as int);
                let next = self.items@.subrange(0, i + 1);
                assert forall|s: Seq<char>| #[trigger] sid_in(kept@, s)
                    <==> (s != sid@ && sid_in(next, s)) by {
                    if sid_in(kept@, s) {
                        let j = choose|j: int| 0 <= j < kept@.len() && #[trigger] kept@[j]@ == s;
                        if j < prev.len() {
                            assert(sid_in(prev, s));
                            let k = choose|k: int| 0 <= k < cur.len() && #[trigger] cur[k]@ == s;
                            assert(next[k]@ == s);
                        } else {
                            assert(next[i as int]@ == s);
                        }
                    }
                    if s != sid@ && sid_in(next, s) {
                        let j = choose|j: int| 0 <= j < next.len() && #[trigger] next[j]@ == s;
                        if j < i {
                            assert(cur[j]@ == s);
                            assert(sid_in(prev, s));
                            let k = choose|k: int| 0 <= k < prev.len() && #[trigger] prev[k]@ == s;
                            assert(kept@[k]@ == s);
                        } else {
                            assert(kept@[prev.len() as int]@ == s);
                        }
                    }
                }
            }
            i += 1;
        }
        assert(self.items@.subrange(0, self.items@.len() as int) =~= self.items@);
        self.items = kept;
        assert(self@ =~= old(self)@.remove(sid@));
    }
}

} // verus!
