//! Properties of the library that span several operations or inputs.
use vstd::prelude::*;
use crate::state::{Game, GamePhase, GuessResult, TOSSUP_AWARD, buzz_outcome, answer_letters, ascii_answer_letters};
use crate::text::{all_ascii, upper, is_ascii_letter};
use crate::handlers::holds_tossup;
use crate::wheel::{count_wedges, is_standard_wedge, lemma_standard_shape, WedgeValue};
use crate::state::{ascii_key, lemma_rstlne_set, spec_is_vowel};
use crate::manager::game_after_drop;
use crate::oauth::{oauth_answers, DbAnswer, OAuthNext, OAuthStage};
use crate::auth::{bearer_of, cookie_in, cookie_of, is_token};
use crate::text::{is_digit, is_white_space, split_seq, trim_end_seq, trim_seq};
use crate::session::{free_for, seated, without_socket, Seat};
use crate::state::has_socket;
use crate::account::{planned, replied, RegisterPlan};
use crate::auth::RegisterResponse;
use crate::db::NewUser;
use crate::config::{cors_outcome, host_code_outcome, kept_origins, Config, EmailConfig};
use crate::text::spec_to_lowercase;
use crate::text::{count_char, lemma_split_nonempty};
use crate::metrics::{is_id_segment, join_slash, normalized_path, normalized_segment};
use vstd::utf8::encode_utf8;
use crate::idtoken::{google_issuers, token_answer, token_key, IdClaims, Jwk};
use crate::json::{json_text_at, jwt_signed, token_payload};
use crate::ceremony::{passkey_read_error, registration_done, RegistrationFinished};
use crate::passkey::{base64_url, before_at};
use crate::passkey_records::{passkey_account_for, signs_in, stores_passkey, NewPasskey, PasskeyAccount, PasskeySessionResponse};

verus! {

/// A correct solve completes the puzzle: afterwards every letter of an ASCII
/// answer is revealed.
pub proof fn law_correct_solve_completes_puzzle(o: Game, f: Game, attempt: Seq<char>)
    requires
        Game::attempt_solved(o, f, attempt, true),
        all_ascii(o.puzzle.answer@),
    ensures
        f.ascii_solved(),
        f.puzzle == o.puzzle,
{
    let ans = o.puzzle.answer@;
    assert(f.puzzle == o.puzzle);
    assert forall|i: int| 0 <= i < f.puzzle.answer@.len() && is_ascii_letter(f.puzzle.answer@[i])
        implies f.revealed@.contains(#[trigger] upper(f.puzzle.answer@[i])) by {
        assert(ascii_answer_letters(ans).contains(upper(ans[i])));
        assert(answer_letters(ans).contains(upper(ans[i])));
    }
}

/// A consonant that was guessed cannot be guessed again: the second guess is
/// refused as already used and changes nothing.
pub proof fn law_repeated_guess_is_refused(
    g: Game,
    f: Game,
    f2: Game,
    letter: char,
    first: GuessResult,
    second: GuessResult,
)
    requires
        Game::consonant_guessed(g, f, letter, first),
        first is Correct || first is Incorrect,
        Game::consonant_guessed(f, f2, letter, second),
    ensures
        second == GuessResult::AlreadyUsed,
        f2 == f,
{
    assert(f.used_letters@.contains(upper(letter)));
}

/// A player who answers a toss-up wrongly is locked out: buzzing again is refused
/// and changes nothing.
pub proof fn law_wrong_tossup_answer_locks_out(
    o: Game,
    f: Game,
    f2: Game,
    sid: Seq<char>,
    r: Result<usize, &'static str>,
    now_ms: i64,
)
    requires
        o.phase == GamePhase::Tossup,
        holds_tossup(o, sid),
        Game::tossup_missed(o, f),
        buzz_outcome(f, f2, sid, r, now_ms),
    ensures
        r matches Err(e) && e@ == "You are locked out for this toss-up"@,
        f2 == f,
{
    assert(f.tossup.locked_sids@.contains(sid));
}

/// Only one player holds a toss-up: once a player has buzzed in, any other buzz is
/// refused and changes nothing.
pub proof fn law_one_buzz_at_a_time(
    o: Game,
    f: Game,
    f2: Game,
    first: Seq<char>,
    second: Seq<char>,
    i: usize,
    r: Result<usize, &'static str>,
    t1: i64,
    t2: i64,
)
    requires
        buzz_outcome(o, f, first, Ok(i), t1),
        buzz_outcome(f, f2, second, r, t2),
    ensures
        r is Err,
        f2 == f,
{
}

/// Winning a toss-up pays the winner $1000 and starts normal play.
pub proof fn law_tossup_win_pays(o: Game, f: Game)
    requires
        Game::tossup_won(o, f),
        o.has_active(),
        o.players@[o.active_idx as int].total + 1000 <= i32::MAX,
    ensures
        f.players@[o.active_idx as int].total == o.players@[o.active_idx as int].total + 1000,
        f.phase == GamePhase::Normal,
        f.active_idx == o.active_idx,
{
    assert(TOSSUP_AWARD == 1000);
    assert(f.players@[o.active_idx as int].total == (o.players@[o.active_idx as int].total + TOSSUP_AWARD) as i32);
}

/// Landing on BANKRUPT empties the active player's round bank and round prizes and
/// passes the turn.
pub proof fn law_bankrupt_empties_round(o: Game, f: Game, raw: usize)
    requires
        Game::spun(o, f, raw, Some(WedgeValue::Bankrupt)),
        o.has_active(),
    ensures
        f.players@[o.active_idx as int].round_bank == 0,
        f.players@[o.active_idx as int].round_prizes@.len() == 0,
        f.players@[o.active_idx as int].total == o.players@[o.active_idx as int].total,
        f.active_idx == o.next_active(),
        f.current_wedge is None,
{
}

/// The game after the turn has passed `k` times.
pub open spec fn turns_passed(g: Game, k: nat) -> Game
    decreases k,
{
    if k == 0 {
        g
    } else {
        turns_passed(g, (k - 1) as nat).turn_advanced()
    }
}

proof fn lemma_turns_passed(g: Game, k: nat)
    requires
        g.players@.len() > 0,
        g.active_idx < g.players@.len(),
    ensures
        turns_passed(g, k).active_idx == (g.active_idx + k) % (g.players@.len() as int),
        turns_passed(g, k).players == g.players,
    decreases k,
{
    let n = g.players@.len() as int;
    if k > 0 {
        lemma_turns_passed(g, (k - 1) as nat);
        let prev = turns_passed(g, (k - 1) as nat);
        let a = g.active_idx + k - 1;
        vstd::arithmetic::div_mod::lemma_add_mod_noop(a, 1, n);
        vstd::arithmetic::div_mod::lemma_mod_pos_bound(a, n);
        assert(prev.active_idx == a % n);
        assert(prev.players@.len() == n);
        assert(prev.players@.len() == prev.players.len());
        vstd::arithmetic::div_mod::lemma_mod_pos_bound(a % n + 1, n);
        if n == 1 {
            vstd::arithmetic::div_mod::lemma_mod_self_0(1);
            vstd::arithmetic::div_mod::lemma_mod_pos_bound(a + 1, n);
            assert((a + 1) % n == 0);
            assert(prev.next_active() == 0);
        } else {
            vstd::arithmetic::div_mod::lemma_small_mod(1, n as nat);
            assert(prev.next_active() == ((a % n) + 1) % n);
        }
        assert(turns_passed(g, k) == prev.turn_advanced());
    } else {
        vstd::arithmetic::div_mod::lemma_small_mod(g.active_idx as nat, n as nat);
    }
}

/// Turns go round: after as many turns as there are players, the turn is back
/// with the same player.
pub proof fn law_turns_go_round(g: Game)
    requires
        g.players@.len() > 0,
        g.active_idx < g.players@.len(),
    ensures
        turns_passed(g, g.players@.len()).active_idx == g.active_idx,
{
    let n = g.players@.len();
    lemma_turns_passed(g, n);
    vstd::arithmetic::div_mod::lemma_mod_add_multiples_vanish(g.active_idx as int, n as int);
    vstd::arithmetic::div_mod::lemma_small_mod(g.active_idx as nat, n as nat);
}

/// A dropped connection keeps every seat and every score: each room still
/// open has the same players, in order, with their names, totals, banks and
/// prizes; only their connection changes.
pub proof fn law_disconnect_keeps_seats_and_scores(g: Game, f: Game, sid: Seq<char>, now_secs: i64)
    requires
        game_after_drop(g, f, sid, now_secs),
    ensures
        f.players@.len() == g.players@.len(),
        forall|j: int| 0 <= j < g.players@.len() ==> {
            &&& (#[trigger] f.players@[j]).name == g.players@[j].name
            &&& f.players@[j].total == g.players@[j].total
            &&& f.players@[j].round_bank == g.players@[j].round_bank
            &&& f.players@[j].prizes == g.players@[j].prizes
            &&& f.players@[j].round_prizes == g.players@[j].round_prizes
        },
        f.puzzle == g.puzzle,
        f.active_idx == g.active_idx,
{
    if g.involves_socket(sid) {
        assert forall|j: int| 0 <= j < g.players@.len() implies {
            &&& (#[trigger] f.players@[j]).name == g.players@[j].name
            &&& f.players@[j].total == g.players@[j].total
            &&& f.players@[j].round_bank == g.players@[j].round_bank
            &&& f.players@[j].prizes == g.players@[j].prizes
            &&& f.players@[j].round_prizes == g.players@[j].round_prizes
        } by {
            assert(f.players@[j] == Game::player_after_drop(g.players@[j], sid, now_secs));
        }
    }
}

/// A sign-in reports a new user only for an account it created: a stage that
/// does not yet count the user as new leads to one that does only by creating
/// the user.
pub proof fn law_new_user_only_when_created(stage: OAuthStage, a: DbAnswer, web: bool, r: OAuthNext)
    requires
        oauth_answers(stage, a, web, r),
        !stage_new_user(stage),
    ensures
        next_new_user(r) ==> stage == OAuthStage::CreateUser,
{
}

/// The stage counts the user as new.
pub open spec fn stage_new_user(s: OAuthStage) -> bool {
    match s {
        OAuthStage::Link { user_id: _, is_new_user } => is_new_user,
        OAuthStage::FetchUser { user_id: _, is_new_user } => is_new_user,
        OAuthStage::StoreToken { user_id: _, is_new_user } => is_new_user,
        _ => false,
    }
}

/// What follows counts the user as new.
pub open spec fn next_new_user(r: OAuthNext) -> bool {
    match r {
        OAuthNext::Go(s) => stage_new_user(s),
        OAuthNext::SignedIn { user_id: _, is_new_user } => is_new_user,
        OAuthNext::Refuse(_) => false,
    }
}

proof fn lemma_split_without(s: Seq<char>, sep: char)
    requires
        forall|i: int| 0 <= i < s.len() ==> s[i] != sep,
    ensures
        split_seq(s, sep) == seq![s],
    decreases s.len(),
{
    if s.len() == 0 {
        assert(s =~= Seq::<char>::empty());
    } else {
        lemma_split_without(s.drop_last(), sep);
        let rest = split_seq(s.drop_last(), sep);
        assert(rest == seq![s.drop_last()]);
        assert(s[s.len() - 1] != sep);
        assert(s.drop_last().push(s.last()) =~= s);
        assert(rest.update(rest.len() - 1, rest.last().push(s.last())) =~= seq![s]);
    }
}

/// A session token is read back from the cookie that carries it, and from the
/// `Authorization: Bearer` header that carries it.
pub proof fn law_session_token_reads_back(t: Seq<char>)
    requires
        is_token(t),
    ensures
        cookie_of(Some("auth_token="@ + t)) == Some(t),
        bearer_of(Some("Bearer "@ + t)) == Some(t),
{
    reveal_strlit("auth_token=");
    reveal_strlit("Bearer ");
    let v = "auth_token="@ + t;
    assert forall|i: int| 0 <= i < v.len() implies v[i] != ';' by {
        if i >= 11 {
            assert(v[i] == t[i - 11]);
            assert(is_ascii_letter(t[i - 11]) || is_digit(t[i - 11]));
        }
    }
    lemma_split_without(v, ';');
    assert(!is_white_space(v[0]));
    assert(v.drop_first() =~= v.subrange(1, v.len() as int));
    assert(trim_seq(v) == trim_end_seq(v));
    assert(v.last() == t[31]);
    assert(is_ascii_letter(t[31]) || is_digit(t[31]));
    assert(!is_white_space(v.last()));
    assert(trim_seq(v) == v);
    assert(v.subrange(0, 11) =~= "auth_token="@);
    assert(v.skip(11) =~= t);
    assert(cookie_in(seq![v]) == Some(v.skip(11)));
    let b = "Bearer "@ + t;
    assert(b.subrange(0, 7) =~= "Bearer "@);
    assert(b.skip(7) =~= t);
}

/// A player whose connection dropped and who joins again under the same name
/// through a new socket takes back the same seat, with its score, bank and
/// prizes, provided no earlier free seat has that name or belongs to the
/// same user.
pub proof fn law_rejoin_takes_seat_back(
    g: Game,
    g1: Game,
    f: Game,
    old_sid: Seq<char>,
    new_sid: Seq<char>,
    now_secs: i64,
    i: int,
    user_id: Option<i64>,
    avatar_id: Option<i64>,
    r: (usize, Seat, String),
)
    requires
        0 <= i < g.players@.len(),
        has_socket(g.players@[i], old_sid),
        game_after_drop(g, g1, old_sid, now_secs),
        forall|j: int| 0 <= j < g1.players@.len() ==> !has_socket(#[trigger] g1.players@[j], new_sid),
        forall|j: int| 0 <= j < i ==> !free_for(#[trigger] g1.players@[j], g.players@[i].name@, user_id),
        seated(g1, f, new_sid, Some(g.players@[i].name), user_id, avatar_id, r),
    ensures
        r.0 == i,
        r.1 == Seat::TakenBack,
        r.2 == g.players@[i].name,
        has_socket(f.players@[i], new_sid),
        f.players@[i].total == g.players@[i].total,
        f.players@[i].round_bank == g.players@[i].round_bank,
        f.players@[i].prizes == g.players@[i].prizes,
        f.players@[i].round_prizes == g.players@[i].round_prizes,
{
    assert(g.involves_socket(old_sid)) by {
        assert(has_socket(g.players@[i], old_sid));
    }
    assert(g1.players@[i] == Game::player_after_drop(g.players@[i], old_sid, now_secs));
    assert(free_for(g1.players@[i], g.players@[i].name@, user_id));
    let n = g1.players@.len();
    assert(!(exists|j: int| 0 <= j < n && has_socket(#[trigger] g1.players@[j], new_sid)));
    let ri = r.0 as int;
    if ri < i {
        assert(!free_for(g1.players@[ri], g.players@[i].name@, user_id));
    }
    if ri > i {
        assert(!free_for(g1.players@[i], g.players@[i].name@, user_id));
    }
}

/// A socket that signed in as a user, and as no other before, speaks for that
/// user alone.
pub proof fn law_socket_speaks_for_its_user(links: Set<(i64, Seq<char>)>, user_id: i64, sid: Seq<char>)
    requires
        forall|u: i64| !links.contains((u, sid)),
    ensures
        links.insert((user_id, sid)).contains((user_id, sid)),
        forall|u: i64| #[trigger] links.insert((user_id, sid)).contains((u, sid)) ==> u == user_id,
{
}

/// Forgetting a socket leaves no user it speaks for, and undoes its sign-in:
/// for a socket that had signed in as no one before, the links are as they were.
pub proof fn law_forget_undoes_sign_in(links: Set<(i64, Seq<char>)>, user_id: i64, sid: Seq<char>)
    ensures
        forall|u: i64| !#[trigger] without_socket(links.insert((user_id, sid)), sid).contains((u, sid)),
        (forall|u: i64| !links.contains((u, sid))) ==> without_socket(links.insert((user_id, sid)), sid) == links,
{
    if forall|u: i64| !links.contains((u, sid)) {
        assert forall|p: (i64, Seq<char>)| #[trigger] links.contains(p) implies p.1 != sid by {
            assert(links.contains((p.0, p.1)));
        }
        assert(without_socket(links.insert((user_id, sid)), sid) =~= links);
    }
}

/// With email off, a registration that stored its session signs the user in to
/// a verified account: the account is marked verified, and the token set as the
/// cookie is the session token stored for that account.
pub proof fn law_registration_without_email_signs_in(
    plan: RegisterPlan,
    user_id: i64,
    account: NewUser,
    r: (u16, RegisterResponse, Option<String>),
)
    requires
        planned(plan, user_id, account, false),
        replied(r, plan, user_id, account, true),
    ensures
        plan.verify_account == Some(user_id),
        plan.session matches Some((id, t)) && id == user_id && is_token(t@) && r.2 == Some(t),
        r.1.user matches Some(info) && info.id == user_id && info.email@ == account.email@,
{
}

proof fn lemma_trim_end_empty(s: Seq<char>)
    requires
        trim_end_seq(s).len() == 0,
    ensures
        forall|i: int| 0 <= i < s.len() ==> is_white_space(#[trigger] s[i]),
    decreases s.len(),
{
    if s.len() > 0 {
        lemma_trim_end_empty(s.drop_last());
        assert forall|i: int| 0 <= i < s.len() implies is_white_space(#[trigger] s[i]) by {
            if i < s.len() - 1 {
                assert(s[i] == s.drop_last()[i]);
            }
        }
    }
}

proof fn lemma_trim_empty(s: Seq<char>)
    requires
        trim_seq(s).len() == 0,
    ensures
        forall|i: int| 0 <= i < s.len() ==> is_white_space(#[trigger] s[i]),
    decreases s.len(),
{
    if s.len() > 0 {
        if is_white_space(s[0]) {
            lemma_trim_empty(s.drop_first());
            assert forall|i: int| 0 <= i < s.len() implies is_white_space(#[trigger] s[i]) by {
                if i > 0 {
                    assert(s[i] == s.drop_first()[i - 1]);
                }
            }
        } else {
            lemma_trim_end_empty(s);
        }
    }
}

/// The CORS setting: unset, `*`, or a value with no origin left once its
/// comma-separated pieces are trimmed and the empty ones dropped, allows any
/// origin; otherwise exactly those origins are allowed, in their order.
pub proof fn law_cors_origins(v: Option<Seq<char>>)
    ensures
        v is None ==> cors_outcome(v) == (Seq::<Seq<char>>::empty(), true),
        v matches Some(value) ==> {
            let origins = kept_origins(split_seq(value, ','));
            if trim_seq(value) == seq!['*'] || origins.len() == 0 {
                cors_outcome(v) == (Seq::<Seq<char>>::empty(), true)
            } else {
                cors_outcome(v) == (origins, false)
            }
        },
{
    if let Some(value) = v {
        if trim_seq(value).len() == 0 {
            lemma_trim_empty(value);
            assert forall|i: int| 0 <= i < value.len() implies value[i] != ',' by {
                assert(is_white_space(value[i]));
            }
            lemma_split_without(value, ',');
            let pieces = split_seq(value, ',');
            assert(pieces.drop_last() =~= Seq::<Seq<char>>::empty());
            assert(pieces.last() == value);
            assert(kept_origins(pieces.drop_last()) =~= Seq::<Seq<char>>::empty());
            assert(kept_origins(split_seq(value, ',')).len() == 0);
        }
    }
}

/// The host code rule: a set host code is accepted, trimmed, exactly when its
/// trimmed text is not blank, does not lower-case to `holiday`, and is at least
/// 8 bytes long; an unset one is refused.
pub proof fn law_host_code_rule(v: Option<Seq<char>>)
    ensures
        host_code_outcome(v) is Ok <==> (v matches Some(code) && trim_seq(code).len() > 0
            && spec_to_lowercase(trim_seq(code)) != "holiday"@ && encode_utf8(trim_seq(code)).len() >= 8),
        host_code_outcome(v) matches Ok(c) ==> v matches Some(code) && c == trim_seq(code),
{
}


proof fn lemma_split_concat(a: Seq<char>, b: Seq<char>, sep: char)
    ensures
        split_seq(a + seq![sep] + b, sep) == split_seq(a, sep) + split_seq(b, sep),
    decreases b.len(),
{
    let s = a + seq![sep] + b;
    if b.len() == 0 {
        assert(s.drop_last() =~= a);
        assert(split_seq(b, sep) == seq![Seq::<char>::empty()]);
        assert(split_seq(a, sep).push(Seq::<char>::empty()) =~= split_seq(a, sep) + split_seq(b, sep));
    } else {
        assert(s.drop_last() =~= a + seq![sep] + b.drop_last());
        assert(s.last() == b.last());
        lemma_split_concat(a, b.drop_last(), sep);
        lemma_split_nonempty(b.drop_last(), sep);
        let left = split_seq(a, sep);
        let right = split_seq(b.drop_last(), sep);
        if b.last() == sep {
            assert((left + right).push(Seq::<char>::empty()) =~= left + right.push(Seq::<char>::empty()));
        } else {
            let rest = left + right;
            assert(rest.last() == right.last());
            assert(rest.update(rest.len() - 1, rest.last().push(s.last())) =~= left + right.update(
                right.len() - 1,
                right.last().push(b.last()),
            ));
        }
    }
}

proof fn lemma_split_pieces_lack_sep(s: Seq<char>, sep: char)
    ensures
        forall|k: int, i: int| 0 <= k < split_seq(s, sep).len() && 0 <= i < split_seq(s, sep)[k].len()
            ==> #[trigger] split_seq(s, sep)[k][i] != sep,
    decreases s.len(),
{
    if s.len() > 0 {
        lemma_split_pieces_lack_sep(s.drop_last(), sep);
        lemma_split_nonempty(s.drop_last(), sep);
        let rest = split_seq(s.drop_last(), sep);
        if s.last() != sep {
            let r = rest.update(rest.len() - 1, rest.last().push(s.last()));
            assert forall|k: int, i: int| 0 <= k < r.len() && 0 <= i < r[k].len() implies #[trigger] r[k][i] != sep by {
                if k == rest.len() - 1 && i == rest.last().len() {
                } else if k == rest.len() - 1 {
                    assert(r[k][i] == rest[k][i]);
                } else {
                    assert(r[k] == rest[k]);
                }
            }
        } else {
            let r = rest.push(Seq::<char>::empty());
            assert forall|k: int, i: int| 0 <= k < r.len() && 0 <= i < r[k].len() implies #[trigger] r[k][i] != sep by {
                assert(r[k] == rest[k]);
            }
        }
    }
}

proof fn lemma_split_join(segs: Seq<Seq<char>>)
    requires
        segs.len() >= 1,
        forall|k: int, i: int| 0 <= k < segs.len() && 0 <= i < segs[k].len() ==> #[trigger] segs[k][i] != '/',
    ensures
        split_seq(join_slash(segs), '/') == segs,
    decreases segs.len(),
{
    if segs.len() == 1 {
        assert forall|i: int| 0 <= i < segs[0].len() implies segs[0][i] != '/' by {
            assert(segs[0][i] != '/');
        }
        lemma_split_without(segs[0], '/');
        assert(seq![segs[0]] =~= segs);
    } else {
        let init = segs.drop_last();
        assert forall|k: int, i: int| 0 <= k < init.len() && 0 <= i < init[k].len() implies #[trigger] init[k][i] != '/' by {
            assert(init[k] == segs[k]);
        }
        lemma_split_join(init);
        assert forall|i: int| 0 <= i < segs.last().len() implies segs.last()[i] != '/' by {
            assert(segs[segs.len() - 1][i] != '/');
        }
        lemma_split_without(segs.last(), '/');
        lemma_split_concat(join_slash(init), segs.last(), '/');
        assert(init + seq![segs.last()] =~= segs);
    }
}

/// The segments of `normalized_path(path)`, one for each segment of `path`.
proof fn lemma_normalized_segments(path: Seq<char>)
    ensures
        split_seq(normalized_path(path), '/') == Seq::new(
            split_seq(path, '/').len(),
            |i: int| normalized_segment(split_seq(path, '/')[i]),
        ),
{
    let segs = split_seq(path, '/');
    let norm = Seq::new(segs.len(), |i: int| normalized_segment(segs[i]));
    lemma_split_nonempty(path, '/');
    lemma_split_pieces_lack_sep(path, '/');
    reveal_strlit(":id");
    assert forall|k: int, i: int| 0 <= k < norm.len() && 0 <= i < norm[k].len() implies #[trigger] norm[k][i] != '/' by {
        if is_id_segment(segs[k]) {
            assert(norm[k] == ":id"@);
        } else {
            assert(norm[k] == segs[k]);
            assert(segs[k][i] != '/');
        }
    }
    lemma_split_join(norm);
}

/// Normalising a path keeps its segments: the result has as many `/`-separated
/// segments as the path, and each is `:id` where the path's segment is an
/// identifier (a 36-byte text with four dashes, or a run of digits) and the
/// path's segment itself otherwise.
pub proof fn law_normalize_path_keeps_segments(path: Seq<char>)
    ensures
        split_seq(normalized_path(path), '/').len() == split_seq(path, '/').len(),
        forall|i: int| 0 <= i < split_seq(path, '/').len() ==> #[trigger] split_seq(normalized_path(path), '/')[i]
            == if is_id_segment(split_seq(path, '/')[i]) { ":id"@ } else { split_seq(path, '/')[i] },
{
    lemma_normalized_segments(path);
}

/// Normalising a normalised path changes nothing.
pub proof fn law_normalize_path_idempotent(path: Seq<char>)
    ensures
        normalized_path(normalized_path(path)) == normalized_path(path),
{
    let segs = split_seq(path, '/');
    let norm = Seq::new(segs.len(), |i: int| normalized_segment(segs[i]));
    lemma_normalized_segments(path);
    let again = split_seq(normalized_path(path), '/');
    assert(again == norm);
    reveal_strlit(":id");
    assert(count_char(":id"@, '-') == 0) by {
        reveal_with_fuel(count_char, 4);
    }
    assert(!is_id_segment(":id"@)) by {
        assert(!crate::text::is_digit(":id"@[0]));
    }
    let twice = Seq::new(again.len(), |i: int| normalized_segment(again[i]));
    assert forall|i: int| 0 <= i < norm.len() implies #[trigger] twice[i] == norm[i] by {
        if is_id_segment(segs[i]) {
            assert(norm[i] == ":id"@);
        }
    }
    assert(twice =~= norm);
}

/// The configuration's log never shows the SMTP password: two configurations
/// that differ only in it are logged with the same lines, so nothing of the
/// password reaches the log.
pub proof fn law_log_hides_smtp_password(c: Config, other_pass: String)
    ensures
        c.log_lines() == (Config { email: EmailConfig { smtp_pass: other_pass, ..c.email }, ..c }).log_lines(),
{
}

/// A finished passkey sign-up creates a verified account with the email
/// trimmed and lower-cased and named after the email before its `@`, stores one
/// passkey for it with counter 0, under the credential's key and in a form that
/// sign-in reads back, and answers 200 with the session token, which is also
/// the cookie set.
pub proof fn law_passkey_registration_signs_in(
    email: Seq<char>,
    account: PasskeyAccount,
    done: RegistrationFinished,
    user_id: i64,
    stored: NewPasskey,
    token: String,
    answer: (u16, PasskeySessionResponse, String),
)
    requires
        passkey_account_for(account, email),
        registration_done(done, false),
        stores_passkey(stored, done, user_id, None),
        signs_in(answer, user_id, account.email@, account.display_name@, token),
    ensures
        account.verified,
        account.email@ == spec_to_lowercase(trim_seq(email)),
        account.display_name@ == before_at(account.email@),
        stored.user_id == user_id,
        stored.counter == 0,
        stored.id@ == base64_url(done.id@),
        passkey_read_error(stored.public_key@) is None,
        answer.0 == 200,
        answer.1.ok,
        answer.1.token == Some(token),
        answer.2 == token,
        answer.1.user matches Some(u) && u.id == user_id && u.email@ == account.email@
            && u.display_name@ == account.display_name@,
{
}

/// A Google ID token is accepted only when it is signed (RS256) with the
/// published key that its header names, issued by Google, for one of the app's
/// client ids; the user it vouches for is the `sub` of its payload.
pub proof fn law_google_token_only_for_this_app(token: Seq<char>, keys: Seq<Jwk>, client_ids: Seq<Seq<char>>, c: IdClaims)
    requires
        token_answer(token, keys, google_issuers(), client_ids, Ok(c)),
    ensures
        token_key(token, keys) matches Some(k) && k.n matches Some(n) && k.e matches Some(e)
            && jwt_signed(token, "RS256"@, n@, e@),
        json_text_at(token_payload(token), "iss"@) matches Some(i)
            && (i == "accounts.google.com"@ || i == "https://accounts.google.com"@),
        json_text_at(token_payload(token), "aud"@) matches Some(a) && client_ids.contains(a),
        json_text_at(token_payload(token), "sub"@) == Some(c.sub@),
{
    let p = token_payload(token);
    let i = json_text_at(p, "iss"@)->Some_0;
    assert(google_issuers().contains(i));
    let k = choose|k: int| 0 <= k < google_issuers().len() && google_issuers()[k] == i;
    assert(k == 0 || k == 1);
}

/// An Apple ID token is accepted only when it is signed (RS256) with the
/// published key that its header names, issued by Apple, for the app's client
/// id; the user it vouches for is the `sub` of its payload.
pub proof fn law_apple_token_only_for_this_app(token: Seq<char>, keys: Seq<Jwk>, client_id: Seq<char>, c: IdClaims)
    requires
        token_answer(token, keys, seq!["https://appleid.apple.com"@], seq![client_id], Ok(c)),
    ensures
        token_key(token, keys) matches Some(k) && k.n matches Some(n) && k.e matches Some(e)
            && jwt_signed(token, "RS256"@, n@, e@),
        json_text_at(token_payload(token), "iss"@) == Some("https://appleid.apple.com"@),
        json_text_at(token_payload(token), "aud"@) == Some(client_id),
        json_text_at(token_payload(token), "sub"@) == Some(c.sub@),
{
    let p = token_payload(token);
    let i = json_text_at(p, "iss"@)->Some_0;
    let a = json_text_at(p, "aud"@)->Some_0;
    assert(seq!["https://appleid.apple.com"@].contains(i));
    assert(seq![client_id].contains(a));
    let k1 = choose|k: int| 0 <= k < 1 && seq!["https://appleid.apple.com"@][k] == i;
    let k2 = choose|k: int| 0 <= k < 1 && seq![client_id][k] == a;
}

/// Starting the bonus round reveals, and marks used, exactly R, S, T, L, N and E
/// besides what was revealed or used before: every other letter (every vowel
/// but E among them) stays as it was, so it can still be picked.
pub proof fn law_bonus_start_reveals_rstlne(o: Game, f: Game, c: char)
    requires
        Game::bonus_started(o, f),
    ensures
        f.revealed@.contains(c) <==> (o.revealed@.contains(c) || c == 'R' || c == 'S' || c == 'T' || c == 'L'
            || c == 'N' || c == 'E'),
        f.used_letters@.contains(c) <==> (o.used_letters@.contains(c) || c == 'R' || c == 'S' || c == 'T'
            || c == 'L' || c == 'N' || c == 'E'),
{
    lemma_rstlne_set();
}

proof fn lemma_ascii_key_concat(x: Seq<char>, y: Seq<char>)
    ensures
        ascii_key(x + y) == ascii_key(x) + ascii_key(y),
    decreases y.len(),
{
    if y.len() == 0 {
        assert(x + y =~= x);
        assert(ascii_key(x) + ascii_key(y) =~= ascii_key(x));
    } else {
        lemma_ascii_key_concat(x, y.drop_last());
        assert((x + y).drop_last() =~= x + y.drop_last());
        assert((x + y).last() == y.last());
        let c = y.last();
        if is_ascii_letter(c) || is_digit(c) {
            assert(ascii_key(x) + ascii_key(y.drop_last()).push(upper(c)) =~= (ascii_key(x) + ascii_key(
                y.drop_last(),
            )).push(upper(c)));
        }
    }
}

/// A solve compares the letters and digits of an ASCII answer and attempt, in
/// order, letters in either case: one more letter or digit adds itself
/// (upper-cased) to what is compared, and any other character (a space,
/// punctuation) adds nothing.
pub proof fn law_solve_compares_letters_and_digits(s: Seq<char>, c: char)
    ensures
        is_digit(c) ==> ascii_key(s.push(c)) == ascii_key(s).push(c),
        is_ascii_letter(c) ==> ascii_key(s.push(c)) == ascii_key(s).push(upper(c)),
        !is_digit(c) && !is_ascii_letter(c) ==> ascii_key(s.push(c)) == ascii_key(s),
{
    assert(s.push(c).drop_last() =~= s);
}

/// Two ASCII texts that differ only in one digit are never the same answer: an
/// attempt that gets a digit wrong does not solve.
pub proof fn law_wrong_digit_does_not_solve(a: Seq<char>, b: Seq<char>, d1: char, d2: char)
    requires
        is_digit(d1),
        is_digit(d2),
        d1 != d2,
    ensures
        ascii_key(a + seq![d1] + b) != ascii_key(a + seq![d2] + b),
{
    lemma_ascii_key_concat(a + seq![d1], b);
    lemma_ascii_key_concat(a + seq![d2], b);
    assert((a + seq![d1]) =~= a.push(d1));
    assert((a + seq![d2]) =~= a.push(d2));
    law_solve_compares_letters_and_digits(a, d1);
    law_solve_compares_letters_and_digits(a, d2);
    let k = ascii_key(a).len() as int;
    assert((ascii_key(a).push(d1) + ascii_key(b))[k] == d1);
    assert((ascii_key(a).push(d2) + ascii_key(b))[k] == d2);
}

/// The standard wheel holds two BANKRUPT wedges, one LOSE A TURN, one FREE
/// PLAY, one prize and nineteen cash wedges, whose values are all different
/// and between $300 and $5000.
pub proof fn law_standard_wheel_wedges(w: Seq<WedgeValue>)
    requires
        w.len() == 24,
        forall|i: int| 0 <= i < w.len() ==> #[trigger] is_standard_wedge(i, w[i]),
    ensures
        count_wedges(w, |x: WedgeValue| x is Bankrupt) == 2,
        count_wedges(w, |x: WedgeValue| x is LoseTurn) == 1,
        count_wedges(w, |x: WedgeValue| x is FreePlay) == 1,
        count_wedges(w, |x: WedgeValue| x is Prize) == 1,
        count_wedges(w, |x: WedgeValue| x is Cash) == 19,
        forall|i: int| 0 <= i < w.len() && (#[trigger] w[i] is Cash) ==> 300 <= w[i]->Cash_0 <= 5000,
        forall|i: int, j: int| 0 <= i < j < w.len() && (#[trigger] w[i] is Cash) && (#[trigger] w[j] is Cash)
            ==> w[i]->Cash_0 != w[j]->Cash_0,
{
    lemma_standard_shape(w);
}

/// The vowels are A, E, I, O and U, in either case; every other character (Y
/// among them) is not one.
pub proof fn law_vowels(c: char)
    ensures
        spec_is_vowel(c) <==> set!['A', 'E', 'I', 'O', 'U', 'a', 'e', 'i', 'o', 'u'].contains(c),
{
    if 'a' <= c && c <= 'z' {
        assert(upper(c) == ((c as u32) - 32) as char);
        assert(upper(c) == 'A' <==> c == 'a');
        assert(upper(c) == 'E' <==> c == 'e');
        assert(upper(c) == 'I' <==> c == 'i');
        assert(upper(c) == 'O' <==> c == 'o');
        assert(upper(c) == 'U' <==> c == 'u');
    }
}

} // verus!
