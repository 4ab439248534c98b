//! What happens in a room when one of its timers fires: the turn timer that
//! starts once the wheel stops, the toss-up's letter reveals, the buzz timer and
//! the bonus solve timer. Each takes the time at which it fires.
use vstd::prelude::*;
use crate::clock::MAX_TIMESTAMP_MS;
use crate::handlers::room_now;
use crate::manager::GameManager;
use crate::state::{Game, GamePhase};

verus! {

/// The name under which the active player of `g` is announced: that player's,
/// or `Player` when there is no active player.
pub open spec fn active_name(g: Game) -> Seq<char> {
    if g.active_idx < g.players@.len() {
        g.players@[g.active_idx as int].name@
    } else {
        "Player"@
    }
}

fn active_name_text(game: &Game) -> (s: String)
    ensures
        s@ == active_name(*game),
{
    if game.active_idx < game.players.len() {
        game.players[game.active_idx].name.clone()
    } else {
        "Player".to_owned()
    }
}

// ========== TURN TIMER ==========

/// Whether the spin that just stopped in `g` starts the turn timer: in a normal
/// round, with a spin result to guess on, when the room has a turn timer.
pub open spec fn starts_turn_timer(g: Game) -> bool {
    g.phase == GamePhase::Normal && g.current_wedge is Some && g.config.turn_timer_seconds > 0
}

/// The wheel of room `room` stopped at `now_ms`: when the spin left something to
/// guess on in a normal round and the room has a turn timer, the timer starts.
/// Returns its length in seconds when it started.
pub fn handle_spin_complete_at(manager: &mut GameManager, room: &str, now_ms: i64) -> (r: Option<u64>)
    requires
        old(manager).wf(),
        0 <= now_ms <= MAX_TIMESTAMP_MS,
    ensures
        final(manager).wf(),
        match old(manager).room(room@) {
            None => r is None && *final(manager) == *old(manager),
            Some(g) => if starts_turn_timer(g) {
                &&& r == Some(g.config.turn_timer_seconds as u64)
                &&& room_now(*final(manager), *old(manager), room@, Game {
                    turn_timer_end_ms: Some((now_ms + g.config.turn_timer_seconds * 1000) as i64),
                    ..g
                })
            } else {
                r is None && *final(manager) == *old(manager)
            },
        },
{
    let starts = match manager.get_room(room) {
        Some(game) => game.phase == GamePhase::Normal && game.current_wedge.is_some()
            && game.config.turn_timer_seconds > 0,
        None => false,
    };
    if !starts {
        return None;
    }
    match manager.get_room_mut(room) {
        Some(game) => {
            game.start_turn_timer_at(now_ms);
            Some(game.config.turn_timer_seconds as u64)
        },
        None => None,
    }
}

/// Whether the turn timer of `g` has run out at `now_ms` with the spin result
/// still unused.
pub open spec fn turn_ran_out(g: Game, now_ms: i64) -> bool {
    &&& g.turn_timer_end_ms matches Some(end) && Game::seconds_left_floor(end, now_ms) <= 0
    &&& g.current_wedge is Some
}

/// The turn timer of room `room` fired at `now_ms`: when it has run out and the
/// spin result is still unused, the turn passes to the next player. Returns the
/// announcement when it did.
pub fn handle_turn_timeout_at(manager: &mut GameManager, room: &str, now_ms: i64) -> (r: Option<String>)
    requires
        old(manager).wf(),
        0 <= now_ms <= MAX_TIMESTAMP_MS,
    ensures
        final(manager).wf(),
        match old(manager).room(room@) {
            None => r is None && *final(manager) == *old(manager),
            Some(g) => if turn_ran_out(g, now_ms) {
                &&& r matches Some(msg) && msg@ == active_name(g) + " ran out of time!"@
                &&& room_now(*final(manager), *old(manager), room@, g.turn_cleared().turn_advanced())
            } else {
                r is None && *final(manager) == *old(manager)
            },
        },
{
    let ran_out = match manager.get_room(room) {
        Some(game) => game.turn_timer_expired_at(now_ms) && game.current_wedge.is_some(),
        None => false,
    };
    if !ran_out {
        return None;
    }
    match manager.get_room_mut(room) {
        Some(game) => {
            let mut msg = active_name_text(game);
            game.clear_turn_state();
            game.advance_turn();
            msg.append(" ran out of time!");
            Some(msg)
        },
        None => None,
    }
}

// ========== TOSS-UP ==========

/// A toss-up reveal tick in room `room`: while the room is in a toss-up, the next
/// letter of the reveal order is shown. Returns whether a letter was shown; the
/// reveals stop at the first tick that shows none.
pub fn tossup_reveal_tick(manager: &mut GameManager, room: &str) -> (r: bool)
    requires
        old(manager).wf(),
    ensures
        final(manager).wf(),
        match old(manager).room(room@) {
            None => !r && *final(manager) == *old(manager),
            Some(g) => if g.phase != GamePhase::Tossup {
                !r && *final(manager) == *old(manager)
            } else {
                let order = g.tossup.reveal_order@;
                let k: int = if order.len() > 0 { 1 } else { 0 };
                let taken = order.subrange(order.len() - k, order.len() as int);
                &&& final(manager).others_unchanged(*old(manager), room@)
                &&& final(manager).room(room@) matches Some(f)
                &&& f.tossup.reveal_order@ == order.subrange(0, order.len() - k)
                &&& f.revealed@ == g.revealed@.union(taken.to_set())
                &&& r == (f.revealed@.len() > g.revealed@.len())
                &&& f == (Game { tossup: f.tossup, revealed: f.revealed, ..g })
                &&& f.tossup == (crate::state::TossupState { reveal_order: f.tossup.reveal_order, ..g.tossup })
            },
        },
{
    let in_tossup = match manager.get_room(room) {
        Some(game) => game.phase == GamePhase::Tossup,
        None => false,
    };
    if !in_tossup {
        return false;
    }
    match manager.get_room_mut(room) {
        Some(game) => game.tossup_reveal_step(1) > 0,
        None => false,
    }
}

/// Whether the buzz timer of `g` has run out at `now_ms` while a player still
/// holds the toss-up.
pub open spec fn buzz_ran_out(g: Game, now_ms: i64) -> bool {
    &&& g.phase == GamePhase::Tossup
    &&& g.tossup.buzz_timer_end_ms matches Some(end) && now_ms >= end
    &&& g.tossup.controller_sid is Some
}

/// The buzz timer of room `room`, started when `buzzer` buzzed in, fired at
/// `now_ms`: when it has run out while a player still holds the toss-up, that
/// player is locked out. Returns the announcement when it happened.
pub fn handle_buzz_timeout_at(manager: &mut GameManager, room: &str, buzzer: &str, now_ms: i64) -> (r: Option<String>)
    requires
        old(manager).wf(),
    ensures
        final(manager).wf(),
        match old(manager).room(room@) {
            None => r is None && *final(manager) == *old(manager),
            Some(g) => if buzz_ran_out(g, now_ms) {
                &&& r matches Some(msg) && msg@ == buzzer@ + " ran out of time!"@
                &&& final(manager).others_unchanged(*old(manager), room@)
                &&& final(manager).room(room@) matches Some(f) && Game::tossup_missed(g, f)
            } else {
                r is None && *final(manager) == *old(manager)
            },
        },
{
    let ran_out = match manager.get_room(room) {
        Some(game) => game.phase == GamePhase::Tossup && game.buzz_timer_expired_at(now_ms)
            && game.tossup.controller_sid.is_some(),
        None => false,
    };
    if !ran_out {
        return None;
    }
    match manager.get_room_mut(room) {
        Some(game) => {
            game.tossup_buzz_timeout();
            let mut msg = buzzer.to_owned();
            msg.append(" ran out of time!");
            Some(msg)
        },
        None => None,
    }
}

// ========== BONUS ROUND ==========

/// Whether the bonus solve timer of `g` has run out at `now_ms` during the bonus
/// round.
pub open spec fn bonus_ran_out(g: Game, now_ms: i64) -> bool {
    &&& g.phase == GamePhase::Bonus
    &&& g.bonus_state.end_ms matches Some(end) && Game::seconds_left_floor(end, now_ms) <= 0
}

/// The bonus solve timer of room `room` fired at `now_ms`: when it has run out
/// during the bonus round, the round ends unsolved. Returns the announcement
/// when it did.
pub fn handle_bonus_timeout_at(manager: &mut GameManager, room: &str, now_ms: i64) -> (r: Option<String>)
    requires
        old(manager).wf(),
        0 <= now_ms <= MAX_TIMESTAMP_MS,
    ensures
        final(manager).wf(),
        match old(manager).room(room@) {
            None => r is None && *final(manager) == *old(manager),
            Some(g) => if bonus_ran_out(g, now_ms) {
                &&& r matches Some(msg) && msg@ == "Time's up! "@ + active_name(g) + " didn't solve in time."@
                &&& final(manager).others_unchanged(*old(manager), room@)
                &&& final(manager).room(room@) matches Some(f) && Game::bonus_ended(g, f, now_ms)
            } else {
                r is None && *final(manager) == *old(manager)
            },
        },
{
    let ran_out = match manager.get_room(room) {
        Some(game) => game.phase == GamePhase::Bonus && game.bonus_timer_expired_at(now_ms),
        None => false,
    };
    if !ran_out {
        return None;
    }
    match manager.get_room_mut(room) {
        Some(game) => {
            let name = active_name_text(game);
            game.end_bonus_at(now_ms);
            let mut msg = "Time's up! ".to_owned();
            msg.append(name.as_str());
            msg.append(" didn't solve in time.");
            Some(msg)
        },
        None => None,
    }
}

} // verus!
