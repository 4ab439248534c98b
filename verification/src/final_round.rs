//! The requests of the final (bonus) round: the host starts and ends it; the
//! active player picks three consonants and a vowel, then starts the solve timer.
use vstd::prelude::*;
use crate::clock::MAX_TIMESTAMP_MS;
use crate::handlers::{accepted, host_action, may_act, refused, room_now};
use crate::manager::GameManager;
use crate::state::{BonusStage, Game, GamePhase};
use crate::text::{char_to_uppercase, char_upper_text, str_equal};

verus! {

// ========== HOST ==========

/// Starts the final round of room `room` (host only): the bonus round, with R, S,
/// T, L, N and E shown.
pub fn handle_start_final(manager: &mut GameManager, room: &str, socket_id: &str) -> (r: Option<Result<String, &'static str>>)
    requires
        old(manager).wf(),
    ensures
        host_action(*final(manager), *old(manager), room@, socket_id@, r, |g: Game, f: Game, r: Option<Result<String, &'static str>>|
            accepted(r, "Final round started! Pick 3 consonants and 1 vowel."@) && Game::bonus_started(g, f)),
{
    let game = match manager.get_room_mut(room) {
        Some(g) => g,
        None => return None,
    };
    if !game.is_host(socket_id) {
        return Some(Err("Host only."));
    }
    game.start_bonus();
    Some(Ok("Final round started! Pick 3 consonants and 1 vowel.".to_owned()))
}

/// Ends the final round of room `room` at `now_ms` (host only): the game is over.
pub fn handle_end_final_at(
    manager: &mut GameManager,
    room: &str,
    socket_id: &str,
    now_ms: i64,
) -> (r: Option<Result<String, &'static str>>)
    requires
        old(manager).wf(),
        0 <= now_ms <= MAX_TIMESTAMP_MS,
    ensures
        host_action(*final(manager), *old(manager), room@, socket_id@, r, |g: Game, f: Game, r: Option<Result<String, &'static str>>|
            accepted(r, "Final round ended."@) && Game::bonus_ended(g, f, now_ms)),
{
    let game = match manager.get_room_mut(room) {
        Some(g) => g,
        None => return None,
    };
    if !game.is_host(socket_id) {
        return Some(Err("Host only."));
    }
    game.end_bonus_at(now_ms);
    Some(Ok("Final round ended.".to_owned()))
}

// ========== PICKS ==========

/// The outcome of a final-round pick of kind `kind` (`consonant` or `vowel`).
pub open spec fn pick_outcome(g: Game, f: Game, kind: Seq<char>, letter: char, r: Result<(), &'static str>, now_ms: i64) -> bool {
    if kind == "consonant"@ {
        Game::pick_consonant_outcome(g, f, letter, r, now_ms)
    } else if kind == "vowel"@ {
        Game::pick_vowel_outcome(g, f, letter, r, now_ms)
    } else {
        (r matches Err(e) && e@ == "Invalid pick kind"@) && f == g
    }
}

/// The active player of room `room` picks `letter` as a final-round consonant
/// or vowel at `now_ms`. Returns the announcement and whether every pick is now
/// made (the solve timer then runs), or the refusal; nothing when there is no
/// such room, or no letter from the active player.
pub fn handle_final_pick_at(
    manager: &mut GameManager,
    room: &str,
    socket_id: &str,
    kind: &str,
    letter: Option<char>,
    now_ms: i64,
) -> (r: Option<Result<(String, bool), &'static str>>)
    requires
        old(manager).wf(),
        0 <= now_ms <= MAX_TIMESTAMP_MS,
    ensures
        final(manager).wf(),
        match old(manager).room(room@) {
            None => r is None && *final(manager) == *old(manager),
            Some(g) => if !may_act(g, socket_id@, false) {
                (r matches Some(Err(e)) && e@ == "Only the active player can pick."@) && room_now(*final(manager), *old(manager), room@, g)
            } else if letter is None {
                r is None && room_now(*final(manager), *old(manager), room@, g)
            } else {
                let letter = letter.unwrap();
                &&& final(manager).others_unchanged(*old(manager), room@)
                &&& final(manager).room(room@) matches Some(f)
                &&& exists|p: Result<(), &'static str>| #[trigger] pick_outcome(g, f, kind@, letter, p, now_ms) && match p {
                    Ok(_) => r matches Some(Ok((msg, done)))
                        && msg@ == "Picked "@ + kind@ + ": "@ + char_upper_text(letter)
                        && done == f.picks_complete(),
                    Err(e) => r == Some(Err::<(String, bool), &'static str>(e)),
                }
            },
        },
{
    let game = match manager.get_room_mut(room) {
        Some(g) => g,
        None => return None,
    };
    if !game.is_active_player(socket_id, false) {
        return Some(Err("Only the active player can pick."));
    }
    let letter = match letter {
        Some(l) => l,
        None => return None,
    };
    let ghost g = *game;
    let result = if str_equal(kind, "consonant") {
        game.bonus_pick_consonant_at(letter, now_ms)
    } else if str_equal(kind, "vowel") {
        game.bonus_pick_vowel_at(letter, now_ms)
    } else {
        Err("Invalid pick kind")
    };
    assert(pick_outcome(g, *game, kind@, letter, result, now_ms));
    match result {
        Ok(()) => {
            let mut msg = "Picked ".to_owned();
            msg.append(kind);
            msg.append(": ");
            msg.append(char_to_uppercase(letter).as_str());
            let done = game.bonus_all_picks_complete();
            Some(Ok((msg, done)))
        },
        Err(e) => Some(Err(e)),
    }
}

/// `f` is `g` after picking each of `letters` in turn as a final-round
/// consonant at `now_ms`, whatever each pick's outcome.
pub open spec fn consonants_picked(g: Game, f: Game, letters: Seq<char>, now_ms: i64) -> bool
    decreases letters.len(),
{
    if letters.len() == 0 {
        f == g
    } else {
        exists|m: Game, p: Result<(), &'static str>|
            consonants_picked(g, m, letters.drop_last(), now_ms)
                && #[trigger] Game::pick_consonant_outcome(m, f, letters.last(), p, now_ms)
    }
}

/// The active player of room `room` picks the final-round consonants `letters`
/// at `now_ms`, one after the other; a refused pick is passed over. Returns the
/// refusal when the sender is not the active player.
pub fn handle_final_pick_consonants_at(
    manager: &mut GameManager,
    room: &str,
    socket_id: &str,
    letters: &Vec<char>,
    now_ms: i64,
) -> (r: Option<Result<(), &'static str>>)
    requires
        old(manager).wf(),
        0 <= now_ms <= MAX_TIMESTAMP_MS,
    ensures
        final(manager).wf(),
        match old(manager).room(room@) {
            None => r is None && *final(manager) == *old(manager),
            Some(g) => if !may_act(g, socket_id@, false) {
                (r matches Some(Err(e)) && e@ == "Only the active player can pick."@) && room_now(*final(manager), *old(manager), room@, g)
            } else {
                &&& r == Some(Ok::<(), &'static str>(()))
                &&& final(manager).others_unchanged(*old(manager), room@)
                &&& final(manager).room(room@) matches Some(f) && consonants_picked(g, f, letters@, now_ms)
            },
        },
{
    let game = match manager.get_room_mut(room) {
        Some(g) => g,
        None => return None,
    };
    if !game.is_active_player(socket_id, false) {
        return Some(Err("Only the active player can pick."));
    }
    let ghost g = *game;
    let mut i: usize = 0;
    assert(letters@.subrange(0, 0).len() == 0);
    while i < letters.len()
        invariant
            i <= letters@.len(),
            0 <= now_ms <= MAX_TIMESTAMP_MS,
            consonants_picked(g, *game, letters@.subrange(0, i as int), now_ms),
        decreases letters@.len() - i,
    {
        let ghost m = *game;
        let p = game.bonus_pick_consonant_at(letters[i], now_ms);
        proof {
            let s = letters@.subrange(0, i + 1);
            assert(s.drop_last() =~= letters@.subrange(0, i as int));
            assert(s.last() == letters@[i as int]);
            assert(Game::pick_consonant_outcome(m, *game, s.last(), p, now_ms));
            assert(consonants_picked(g, *game, s, now_ms));
        }
        i += 1;
    }
    assert(letters@.subrange(0, letters@.len() as int) =~= letters@);
    Some(Ok(()))
}

/// The active player of room `room` picks `letter`, if any, as the final-round
/// vowel at `now_ms`; a refused pick is passed over. Returns the refusal when
/// the sender is not the active player.
pub fn handle_final_pick_vowel_at(
    manager: &mut GameManager,
    room: &str,
    socket_id: &str,
    letter: Option<char>,
    now_ms: i64,
) -> (r: Option<Result<(), &'static str>>)
    requires
        old(manager).wf(),
        0 <= now_ms <= MAX_TIMESTAMP_MS,
    ensures
        final(manager).wf(),
        match old(manager).room(room@) {
            None => r is None && *final(manager) == *old(manager),
            Some(g) => if !may_act(g, socket_id@, false) {
                (r matches Some(Err(e)) && e@ == "Only the active player can pick."@) && room_now(*final(manager), *old(manager), room@, g)
            } else {
                &&& r == Some(Ok::<(), &'static str>(()))
                &&& final(manager).others_unchanged(*old(manager), room@)
                &&& final(manager).room(room@) matches Some(f) && match letter {
                    Some(l) => exists|p: Result<(), &'static str>| #[trigger] Game::pick_vowel_outcome(g, f, l, p, now_ms),
                    None => f == g,
                }
            },
        },
{
    let game = match manager.get_room_mut(room) {
        Some(g) => g,
        None => return None,
    };
    if !game.is_active_player(socket_id, false) {
        return Some(Err("Only the active player can pick."));
    }
    if let Some(l) = letter {
        let _ = game.bonus_pick_vowel_at(l, now_ms);
    }
    Some(Ok(()))
}

// ========== SOLVE TIMER ==========

/// The active player of room `room` starts the final-round solve timer at
/// `now_ms`, once every pick is made: the picked letters are shown. Returns the
/// announcement, or the refusal.
pub fn handle_final_start_timer_at(
    manager: &mut GameManager,
    room: &str,
    socket_id: &str,
    now_ms: i64,
) -> (r: Option<Result<String, &'static str>>)
    requires
        old(manager).wf(),
        0 <= now_ms <= MAX_TIMESTAMP_MS,
    ensures
        final(manager).wf(),
        match old(manager).room(room@) {
            None => r is None && *final(manager) == *old(manager),
            Some(g) => if !may_act(g, socket_id@, false) {
                refused(r, "Only the active player can start the timer."@) && room_now(*final(manager), *old(manager), room@, g)
            } else if g.phase != GamePhase::Bonus {
                refused(r, "Not in final round."@) && room_now(*final(manager), *old(manager), room@, g)
            } else if !g.picks_complete() {
                refused(r, "Complete all picks first."@) && room_now(*final(manager), *old(manager), room@, g)
            } else {
                &&& accepted(r, "Time to solve!"@)
                &&& final(manager).others_unchanged(*old(manager), room@)
                &&& final(manager).room(room@) matches Some(f) && if g.bonus_state.stage == BonusStage::Pick {
                    f.bonus_running_from(g, now_ms)
                } else {
                    f == g
                }
            },
        },
{
    let game = match manager.get_room_mut(room) {
        Some(g) => g,
        None => return None,
    };
    if !game.is_active_player(socket_id, false) {
        return Some(Err("Only the active player can start the timer."));
    }
    if game.phase != GamePhase::Bonus {
        return Some(Err("Not in final round."));
    }
    if !game.bonus_all_picks_complete() {
        return Some(Err("Complete all picks first."));
    }
    game.bonus_start_solve_at(now_ms);
    Some(Ok("Time to solve!".to_owned()))
}

} // verus!
