//! Stored records (users, passkeys, OAuth links, challenges, packs, puzzles,
//! rooms) and the reading and writing of a room's stored configuration.
use vstd::prelude::*;
use crate::config::{views, digits_value, all_digits, lemma_digits_value_grows, read_digits};
use crate::state::{RoomConfig, DEFAULT_VOWEL_COST, DEFAULT_BONUS_SECONDS, DEFAULT_BONUS_JACKPOT, default_prize_replacements};
use crate::text::{trim_seq, split_seq, str_chars, split_chars, trim_chars, string_from_chars, i64_to_decimal, signed_decimal};

verus! {

// ========== RECORDS ==========

/// A user account.
#[derive(Debug, Clone)]
pub struct User {
    pub id: i64,
    pub email: String,
    /// None for accounts made through OAuth only.
    pub password_hash: Option<String>,
    pub display_name: String,
    pub verified: bool,
    pub verification_token: Option<String>,
    pub verification_token_expires: Option<i64>,
    pub reset_token: Option<String>,
    pub reset_token_expires: Option<i64>,
    pub created_at: i64,
    pub last_login_at: Option<i64>,
    pub remember_token: Option<String>,
    pub is_admin: bool,
    pub avatar_id: i64,
}

/// An account to create.
#[derive(Debug, Clone)]
pub struct NewUser {
    pub email: String,
    pub password_hash: String,
    pub display_name: String,
    pub verification_token: String,
    pub verification_token_expires: i64,
    pub avatar_id: i64,
}

/// A registered passkey.
#[derive(Debug, Clone)]
pub struct PasskeyCredential {
    /// Credential ID (base64url).
    pub id: String,
    pub user_id: i64,
    /// COSE public key.
    pub public_key: Vec<u8>,
    /// Signature counter.
    pub counter: i64,
    /// JSON array of transports.
    pub transports: Option<String>,
    pub created_at: i64,
    pub last_used_at: Option<i64>,
    pub device_name: Option<String>,
}

/// A link between an account and an OAuth provider identity.
#[derive(Debug, Clone)]
pub struct OAuthAccount {
    pub id: i64,
    pub user_id: i64,
    /// `google` or `apple`.
    pub provider: String,
    /// The `sub` claim of the ID token.
    pub provider_user_id: String,
    pub email: Option<String>,
    pub created_at: i64,
}

/// A pending WebAuthn challenge.
#[derive(Debug, Clone)]
pub struct WebAuthnChallenge {
    pub challenge: String,
    pub user_id: Option<i64>,
    pub email: Option<String>,
    /// `registration` or `authentication`.
    pub challenge_type: String,
    pub created_at: i64,
    pub expires_at: i64,
}

/// A puzzle pack.
#[derive(Debug, Clone)]
pub struct Pack {
    pub id: i64,
    pub name: String,
}

/// A stored puzzle.
#[derive(Debug, Clone)]
pub struct DbPuzzle {
    pub id: i64,
    pub category: String,
    pub answer: String,
    pub pack_id: i64,
    pub enabled: bool,
}

/// A room known to the database.
#[derive(Debug, Clone)]
pub struct Room {
    pub name: String,
    pub created_by: Option<i64>,
    pub created_at: i64,
    pub last_activity_at: i64,
    pub is_public: bool,
}

/// A puzzle is drawn from every pack when no pack, or pack 0, is chosen.
pub fn uses_all_packs(pack_id: Option<i64>) -> (r: bool)
    ensures
        r == (pack_id is None || pack_id == Some(0i64)),
{
    match pack_id {
        None => true,
        Some(id) => id == 0,
    }
}

// ========== ROOM CONFIGURATION ==========

/// A room's stored configuration, column by column; a column may be empty.
#[derive(Debug, Clone)]
pub struct RoomConfigRow {
    pub active_pack_id: Option<i64>,
    pub vowel_cost: Option<i32>,
    pub final_seconds: Option<i32>,
    pub final_jackpot: Option<i32>,
    pub prize_replace_csv: Option<String>,
    pub puzzle_display_seconds: Option<i32>,
    pub prize_wedge_names: Option<String>,
    pub disconnect_timeout_secs: Option<i64>,
}

/// What `str::parse::<i32>` reads from `t`: an optional sign and then one or more
/// ASCII digits whose value fits in 32 bits.
pub open spec fn i32_text_value(t: Seq<char>) -> Option<int> {
    let neg = t.len() > 0 && t[0] == '-';
    let d = if t.len() > 0 && (t[0] == '+' || t[0] == '-') { t.drop_first() } else { t };
    let v = if neg { -digits_value(d) } else { digits_value(d) };
    if d.len() > 0 && all_digits(d) && i32::MIN <= v <= i32::MAX {
        Some(v)
    } else {
        None
    }
}

/// Reads `s` as `str::parse::<i32>` does: an optional sign, then one or more
/// ASCII digits of a value that fits in 32 bits.
fn parse_i32(s: &str) -> (r: Option<i32>)
    ensures
        match r {
            Some(n) => i32_text_value(s@) == Some(n as int),
            None => i32_text_value(s@) is None,
        },
{
    let cs = str_chars(s);
    let neg = cs.len() > 0 && cs[0] == '-';
    let start: usize = if cs.len() > 0 && (cs[0] == '+' || cs[0] == '-') { 1 } else { 0 };
    let max: u64 = if neg { 2147483648 } else { 2147483647 };
    let ghost t = s@;
    let ghost d = if t.len() > 0 && (t[0] == '+' || t[0] == '-') { t.drop_first() } else { t };
    assert(cs@.subrange(start as int, cs@.len() as int) =~= d);
    let r = read_digits(&cs, start, max);
    proof {
        if d.len() > 0 && all_digits(d) {
            lemma_digits_value_grows(d, 0);
            assert(d.subrange(0, 0) =~= Seq::<char>::empty());
        }
    }
    match r {
        Some(v) => if neg {
            Some((0i64 - v as i64) as i32)
        } else {
            Some(v as i32)
        },
        None => None,
    }
}

/// The numbers among the trimmed pieces `pieces`, in order; the others are skipped.
pub open spec fn csv_numbers(pieces: Seq<Seq<char>>) -> Seq<i32>
    decreases pieces.len(),
{
    if pieces.len() == 0 {
        Seq::empty()
    } else {
        let prev = csv_numbers(pieces.drop_last());
        match i32_text_value(trim_seq(pieces.last())) {
            Some(v) => prev.push(v as i32),
            None => prev,
        }
    }
}

/// The trimmed, non-empty pieces of `pieces`, in order.
pub open spec fn csv_names(pieces: Seq<Seq<char>>) -> Seq<Seq<char>>
    decreases pieces.len(),
{
    if pieces.len() == 0 {
        Seq::empty()
    } else {
        let prev = csv_names(pieces.drop_last());
        let t = trim_seq(pieces.last());
        if t.len() > 0 {
            prev.push(t)
        } else {
            prev
        }
    }
}

fn parse_number_list(csv: &str) -> (r: Vec<i32>)
    ensures
        r@ == csv_numbers(split_seq(csv@, ',')),
{
    let cs = str_chars(csv);
    let pieces = split_chars(&cs, ',');
    let ghost sp = split_seq(csv@, ',');
    let mut out: Vec<i32> = Vec::new();
    let mut k: usize = 0;
    while k < pieces.len()
        invariant
            cs@ == csv@,
            pieces@.len() == sp.len(),
            forall|j: int| 0 <= j < pieces@.len() ==> (#[trigger] pieces@[j])@ == sp[j],
            k <= pieces@.len(),
            out@ == csv_numbers(sp.take(k as int)),
        decreases pieces@.len() - k,
    {
        let t = string_from_chars(&trim_chars(&pieces[k]));
        proof {
            assert(sp.take(k + 1).drop_last() =~= sp.take(k as int));
            assert(sp.take(k + 1).last() == sp[k as int]);
        }
        match parse_i32(t.as_str()) {
            Some(v) => out.push(v),
            None => {},
        }
        k += 1;
    }
    assert(sp.take(sp.len() as int) =~= sp);
    out
}

fn parse_name_list(csv: &str) -> (r: Vec<String>)
    ensures
        views(r@) == csv_names(split_seq(csv@, ',')),
{
    let cs = str_chars(csv);
    let pieces = split_chars(&cs, ',');
    let ghost sp = split_seq(csv@, ',');
    let mut out: Vec<String> = Vec::new();
    let mut k: usize = 0;
    while k < pieces.len()
        invariant
            cs@ == csv@,
            pieces@.len() == sp.len(),
            forall|j: int| 0 <= j < pieces@.len() ==> (#[trigger] pieces@[j])@ == sp[j],
            k <= pieces@.len(),
            views(out@) == csv_names(sp.take(k as int)),
        decreases pieces@.len() - k,
    {
        let t = trim_chars(&pieces[k]);
        proof {
            assert(sp.take(k + 1).drop_last() =~= sp.take(k as int));
            assert(sp.take(k + 1).last() == sp[k as int]);
        }
        if t.len() > 0 {
            out.push(string_from_chars(&t));
            assert(views(out@) =~= csv_names(sp.take(k as int)).push(t@));
        }
        k += 1;
    }
    assert(sp.take(sp.len() as int) =~= sp);
    out
}

/// The configuration that the stored row describes (the default configuration when
/// the room has no row): empty columns take their defaults, the prize values are
/// the numbers of a comma-separated list and the prize wedge names its non-empty
/// trimmed pieces; the timers that are not stored keep their defaults.
pub open spec fn config_of_row(row: RoomConfigRow, c: RoomConfig) -> bool {
    &&& c.vowel_cost == (match row.vowel_cost { Some(v) => v, None => 250 })
    &&& c.bonus_seconds == (match row.final_seconds { Some(v) => v, None => 30 })
    &&& c.bonus_jackpot == (match row.final_jackpot { Some(v) => v, None => 10000 })
    &&& c.prize_replace_cash_values@ == (match row.prize_replace_csv {
        Some(csv) => csv_numbers(split_seq(csv@, ',')),
        None => default_prize_replacements(),
    })
    &&& c.puzzle_display_seconds == (match row.puzzle_display_seconds { Some(v) => v, None => 30 })
    &&& views(c.prize_wedge_names@) == (match row.prize_wedge_names {
        Some(csv) => csv_names(split_seq(csv@, ',')),
        None => seq!["GIFT CARD"@],
    })
    &&& c.pack_id == row.active_pack_id
    &&& c.disconnect_timeout_secs == (match row.disconnect_timeout_secs { Some(v) => v, None => 300 })
    &&& c.turn_timer_seconds == 10
    &&& c.buzz_timer_seconds == 5
}

/// The configuration of a room from its stored row, if it has one.
pub fn room_config_from_row(row: Option<&RoomConfigRow>) -> (r: RoomConfig)
    ensures
        match row {
            Some(row) => config_of_row(*row, r),
            None => r.vowel_cost == DEFAULT_VOWEL_COST && r.bonus_seconds == DEFAULT_BONUS_SECONDS
                && r.bonus_jackpot == DEFAULT_BONUS_JACKPOT
                && r.prize_replace_cash_values@ == default_prize_replacements()
                && r.puzzle_display_seconds == 30 && views(r.prize_wedge_names@) == seq!["GIFT CARD"@]
                && r.pack_id is None && r.disconnect_timeout_secs == 300 && r.turn_timer_seconds == 10
                && r.buzz_timer_seconds == 5,
        },
{
    match row {
        None => {
            let c = RoomConfig::default();
            assert(views(c.prize_wedge_names@) =~= seq!["GIFT CARD"@]);
            c
        },
        Some(row) => {
            let prize_replace_cash_values = match &row.prize_replace_csv {
                Some(csv) => parse_number_list(csv.as_str()),
                None => vec![500, 1000, 1500, 2000, 2500, 3000, 3500],
            };
            let prize_wedge_names = match &row.prize_wedge_names {
                Some(csv) => parse_name_list(csv.as_str()),
                None => {
                    let mut v: Vec<String> = Vec::new();
                    v.push("GIFT CARD".to_owned());
                    assert(views(v@) =~= seq!["GIFT CARD"@]);
                    v
                },
            };
            assert(row.prize_replace_csv is None ==> prize_replace_cash_values@ =~= default_prize_replacements());
            RoomConfig {
                vowel_cost: match row.vowel_cost { Some(v) => v, None => 250 },
                bonus_seconds: match row.final_seconds { Some(v) => v, None => 30 },
                bonus_jackpot: match row.final_jackpot { Some(v) => v, None => 10000 },
                prize_replace_cash_values,
                puzzle_display_seconds: match row.puzzle_display_seconds { Some(v) => v, None => 30 },
                prize_wedge_names,
                pack_id: row.active_pack_id,
                disconnect_timeout_secs: match row.disconnect_timeout_secs { Some(v) => v, None => 300 },
                turn_timer_seconds: 10,
                buzz_timer_seconds: 5,
            }
        },
    }
}

/// The pieces joined with `,` between them.
pub open spec fn join_commas(parts: Seq<Seq<char>>) -> Seq<char>
    decreases parts.len(),
{
    if parts.len() == 0 {
        Seq::empty()
    } else if parts.len() == 1 {
        parts[0]
    } else {
        join_commas(parts.drop_last()) + seq![','] + parts.last()
    }
}

fn join_with_commas(parts: &Vec<String>) -> (r: String)
    ensures
        r@ == join_commas(views(parts@)),
{
    let ghost ps = views(parts@);
    let mut out = String::new();
    let mut k: usize = 0;
    while k < parts.len()
        invariant
            ps == views(parts@),
            k <= parts@.len(),
            out@ == join_commas(ps.take(k as int)),
        decreases parts@.len() - k,
    {
        proof {
            assert(ps.take(k + 1).drop_last() =~= ps.take(k as int));
            assert(ps.take(k + 1).last() == parts@[k as int]@);
            reveal_strlit(",");
            assert(","@ =~= seq![',']);
        }
        if k > 0 {
            out.append(",");
        }
        out.append(parts[k].as_str());
        proof {
            if k == 0 {
                assert(out@ =~= join_commas(ps.take(1)));
            } else {
                assert(out@ =~= join_commas(ps.take(k + 1)));
            }
        }
        k += 1;
    }
    assert(ps.take(ps.len() as int) =~= ps);
    out
}

/// The stored text of the prize values: each in decimal, separated by commas.
pub open spec fn prize_csv(values: Seq<i32>) -> Seq<char> {
    join_commas(Seq::new(values.len(), |i: int| signed_decimal(values[i] as int)))
}

/// The stored text of the prize values and of the prize wedge names of `config`.
pub fn room_config_csv(config: &RoomConfig) -> (r: (String, String))
    ensures
        r.0@ == prize_csv(config.prize_replace_cash_values@),
        r.1@ == join_commas(views(config.prize_wedge_names@)),
{
    let values = &config.prize_replace_cash_values;
    let mut texts: Vec<String> = Vec::new();
    let mut i: usize = 0;
    while i < values.len()
        invariant
            i <= values@.len(),
            views(texts@) == Seq::new(i as nat, |j: int| signed_decimal(values@[j] as int)),
        decreases values@.len() - i,
    {
        let ghost before = texts@;
        let t = i64_to_decimal(values[i] as i64);
        texts.push(t);
        assert(views(texts@) =~= views(before).push(t@));
        i += 1;
        assert(views(texts@) =~= Seq::new(i as nat, |j: int| signed_decimal(values@[j] as int)));
    }
    (join_with_commas(&texts), join_with_commas(&config.prize_wedge_names))
}

} // verus!
