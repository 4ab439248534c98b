//! What the game server decides for each player request: the request types and
//! the handlers that check a request against a room and apply it.
use vstd::prelude::*;
use crate::manager::{GameManager, game_after_drop};
use crate::clock::now_secs;
use vstd::utf8::*;
use crate::state::{Game, GamePhase, GameState, GuessResult, Player, Puzzle, has_socket};
use crate::text::{decimal, signed_decimal, char_upper_text, char_to_uppercase, u64_to_decimal, i64_to_decimal};
use crate::wheel::WedgeValue;

verus! {

// ========== REQUEST TYPES ==========

/// A request naming a room.
#[derive(Debug, Clone)]
pub struct RoomRequest {
    pub room: String,
}

/// Join a room's game as a player, optionally under a name.
#[derive(Debug, Clone)]
pub struct JoinGameRequest {
    pub room: String,
    pub name: Option<String>,
}

/// Claim the host role with a code.
#[derive(Debug, Clone)]
pub struct ClaimHostRequest {
    pub room: String,
    pub code: String,
}

/// Guess a letter.
#[derive(Debug, Clone)]
pub struct GuessRequest {
    pub room: String,
    pub letter: String,
}

/// Attempt to solve the puzzle.
#[derive(Debug, Clone)]
pub struct SolveRequest {
    pub room: String,
    pub attempt: String,
}

/// Make a player the active one.
#[derive(Debug, Clone)]
pub struct SetActivePlayerRequest {
    pub room: String,
    pub player_idx: usize,
}

/// Replace the players by the given names.
#[derive(Debug, Clone)]
pub struct SetPlayersRequest {
    pub room: String,
    pub names: Vec<String>,
}

/// Set the names of the prize wedges.
#[derive(Debug, Clone)]
pub struct SetPrizeNamesRequest {
    pub room: String,
    pub names: Vec<String>,
}

/// Change the room configuration.
#[derive(Debug, Clone)]
pub struct SetConfigRequest {
    pub room: String,
    pub config: ConfigUpdate,
}

/// The configuration values to change; `None` leaves a value as it is.
#[derive(Debug, Clone)]
pub struct ConfigUpdate {
    pub vowel_cost: Option<i32>,
    pub final_seconds: Option<i32>,
    pub final_jackpot: Option<i32>,
    pub prize_replace_cash_values: Option<Vec<i32>>,
}

/// A bonus-round pick of a consonant or vowel.
#[derive(Debug, Clone)]
pub struct FinalPickRequest {
    pub room: String,
    pub kind: String,
    pub letter: String,
}

/// The bonus-round consonant picks.
#[derive(Debug, Clone)]
pub struct FinalPickConsonantsRequest {
    pub room: String,
    pub letters: Vec<String>,
}

/// The bonus-round vowel pick.
#[derive(Debug, Clone)]
pub struct FinalPickVowelRequest {
    pub room: String,
    pub letter: String,
}

/// Choose the puzzle pack of a room.
#[derive(Debug, Clone)]
pub struct SetActivePack {
    pub room: String,
    pub pack_id: Option<i64>,
    pub pack_name: Option<String>,
}

/// A socket authentication request.
#[derive(Debug, Clone)]
pub struct AuthRequest {
    pub token: String,
}

/// The answer to a socket authentication request.
#[derive(Debug, Clone)]
pub struct AuthResponse {
    pub ok: bool,
    pub user_id: Option<i64>,
    pub display_name: Option<String>,
    pub error: Option<String>,
}

// ========== CHECKS ==========

/// The socket `sid` may act in `g`: it is the active player's, or, when the host
/// is allowed, the host's.
pub open spec fn may_act(g: Game, sid: Seq<char>, allow_host: bool) -> bool {
    ||| allow_host && (g.host_sid matches Some(h) && h@ == sid)
    ||| g.has_active() && has_socket(g.players@[g.active_idx as int], sid)
}

/// The socket `sid` buzzed in and holds the toss-up.
pub open spec fn holds_tossup(g: Game, sid: Seq<char>) -> bool {
    g.tossup.controller_sid matches Some(c) && c@ == sid
}

/// `r` is the error `msg`.
pub open spec fn fails_with<T>(r: Result<T, &'static str>, msg: Seq<char>) -> bool {
    r matches Err(e) && e@ == msg
}

/// The game of room `room` is `g` after the request, every other room unchanged.
pub open spec fn room_now(m: GameManager, old_m: GameManager, room: Seq<char>, g: Game) -> bool {
    &&& m.wf()
    &&& m.room(room) == Some(g)
    &&& m.others_unchanged(old_m, room)
}

// ========== JOIN ==========

/// The game state of room `room` for a client that joins it, if the room exists.
pub fn handle_join_room(manager: &GameManager, room: &str) -> (r: Option<GameState>)
    requires
        manager.wf(),
        manager.room(room@) matches Some(g) ==> g.prize_totals_fit(),
    ensures
        match manager.room(room@) {
            Some(g) => r matches Some(st) && exists|now_ms: i64| #[trigger] g.shows(st, now_ms),
            None => r is None,
        },
{
    match manager.get_room(room) {
        Some(game) => Some(game.get_state()),
        None => None,
    }
}

/// The name a joining player gets: the one asked for, else `Player n` for the
/// next position `n`.
pub open spec fn join_name(name: Option<String>, count: nat) -> Seq<char> {
    match name {
        Some(n) => n@,
        None => "Player "@ + decimal(count + 1),
    }
}

/// `p` is free to be taken over by a player called `name`: it has that name and
/// no socket.
pub open spec fn free_named(p: Player, name: Seq<char>) -> bool {
    p.name@ == name && p.socket_id is None
}

/// `f` is `g` after the socket `sid` joined as a player, with outcome `r`: a socket
/// that already plays keeps its slot; otherwise the first player slot with the
/// chosen name and no socket is taken over; otherwise a new player is added.
pub open spec fn joined(g: Game, f: Game, sid: Seq<char>, name: Option<String>, r: (usize, bool, String)) -> bool {
    if exists|j: int| 0 <= j < g.players@.len() && has_socket(#[trigger] g.players@[j], sid) {
        &&& r.0 < g.players@.len()
        &&& has_socket(g.players@[r.0 as int], sid)
        &&& forall|j: int| 0 <= j < r.0 ==> !has_socket(#[trigger] g.players@[j], sid)
        &&& r.1
        &&& r.2 == g.players@[r.0 as int].name
        &&& f == g
    } else {
        let nm = join_name(name, g.players@.len());
        if exists|j: int| 0 <= j < g.players@.len() && free_named(#[trigger] g.players@[j], nm) {
            let i = r.0 as int;
            &&& i < g.players@.len()
            &&& free_named(g.players@[i], nm)
            &&& forall|j: int| 0 <= j < i ==> !free_named(#[trigger] g.players@[j], nm)
            &&& r.1
            &&& r.2@ == nm
            &&& f.players@.len() == g.players@.len()
            &&& forall|j: int| 0 <= j < g.players@.len() && j != i ==> #[trigger] f.players@[j] == g.players@[j]
            &&& has_socket(f.players@[i], sid)
            &&& f.players@[i] == Player { socket_id: f.players@[i].socket_id, disconnected_at: None, ..g.players@[i] }
            &&& f == Game { players: f.players, ..g }
        } else {
            let n = g.players@.len();
            let p = f.players@[n as int];
            &&& r.0 == n
            &&& !r.1
            &&& r.2@ == nm
            &&& f.players@.len() == n + 1
            &&& forall|j: int| 0 <= j < n ==> #[trigger] f.players@[j] == g.players@[j]
            &&& p.id == n && p.name@ == nm && p.total == 0 && p.round_bank == 0
            &&& p.prizes@.len() == 0 && p.round_prizes@.len() == 0
            &&& has_socket(p, sid) && p.user_id is None && p.disconnected_at is None
            &&& p.avatar_id == 1
            &&& f == Game { players: f.players, ..g }
        }
    }
}

fn free_named_idx(game: &Game, name: &String) -> (r: Option<usize>)
    ensures
        r matches Some(i) ==> i < game.players@.len() && free_named(game.players@[i as int], name@)
            && forall|j: int| 0 <= j < i ==> !free_named(#[trigger] game.players@[j], name@),
        r is None ==> forall|j: int| 0 <= j < game.players@.len() ==> !free_named(#[trigger] game.players@[j], name@),
{
    let mut i: usize = 0;
    while i < game.players.len()
        invariant
            i <= game.players@.len(),
            forall|j: int| 0 <= j < i ==> !free_named(#[trigger] game.players@[j], name@),
        decreases game.players@.len() - i,
    {
        let p = &game.players[i];
        if p.socket_id.is_none() && p.name == *name {
            return Some(i);
        }
        i += 1;
    }
    None
}

/// A player joins room `room` through socket `socket_id`, creating the room when
/// needed. Returns the player's index, whether an existing slot was taken back,
/// and the player's name.
pub fn handle_join_game(
    manager: &mut GameManager,
    room: &str,
    socket_id: &str,
    name: Option<String>,
) -> (r: Result<(usize, bool, String), &'static str>)
    requires
        old(manager).wf(),
        old(manager).room(room@) matches Some(g) ==> g.players@.len() < usize::MAX,
    ensures
        final(manager).wf(),
        final(manager).others_unchanged(*old(manager), room@),
        r matches Ok(res) && final(manager).room(room@) matches Some(f) && match old(manager).room(room@) {
            Some(g) => joined(g, f, socket_id@, name, res),
            None => exists|g: Game| #[trigger] g.is_new_game(room@) && joined(g, f, socket_id@, name, res),
        },
{
    let game = manager.get_or_create_room(room);
    let ghost g = *game;
    assert(old(manager).room(room@) is None ==> g.is_new_game(room@));
    if let Some(idx) = game.player_idx_by_socket(socket_id) {
        let nm = game.players[idx].name.clone();
        return Ok((idx, true, nm));
    }
    let count = game.players.len();
    let name = match name {
        Some(n) => n,
        None => {
            let mut s = "Player ".to_owned();
            s.append(u64_to_decimal((count + 1) as u64).as_str());
            s
        },
    };
    match free_named_idx(game, &name) {
        Some(idx) => {
            game.players[idx].socket_id = Some(socket_id.to_owned());
            game.players[idx].disconnected_at = None;
            Ok((idx, true, name))
        },
        None => {
            let player_idx = game.add_player(name.clone(), Some(socket_id.to_owned()), None, None);
            Ok((player_idx, false, name))
        },
    }
}

/// `f` is `g` with the socket `sid` as its host.
pub open spec fn host_claimed(g: Game, f: Game, sid: Seq<char>) -> bool {
    &&& f.host_sid matches Some(h) && h@ == sid
    &&& f == Game { host_sid: f.host_sid, ..g }
}

/// Grants the host role of room `room` (created when needed) to socket
/// `socket_id` when `code` is the host code; otherwise nothing changes.
pub fn handle_claim_host(
    manager: &mut GameManager,
    room: &str,
    socket_id: &str,
    code: &str,
    host_code: &str,
) -> (r: bool)
    requires
        old(manager).wf(),
    ensures
        r == (code@ == host_code@),
        !r ==> *final(manager) == *old(manager),
        r ==> final(manager).wf(),
        r ==> final(manager).others_unchanged(*old(manager), room@),
        r ==> (final(manager).room(room@) matches Some(f) && match old(manager).room(room@) {
            Some(g) => host_claimed(g, f, socket_id@),
            None => host_claimed(Game { host_sid: None, ..f }, f, socket_id@)
                && (Game { host_sid: None, ..f }).is_new_game(room@),
        }),
{
    if code.to_owned() != host_code.to_owned() {
        return false;
    }
    let game = manager.get_or_create_room(room);
    game.host_sid = Some(socket_id.to_owned());
    true
}

// ========== SPIN ==========

/// The announcement of a spin that landed on `w`.
pub open spec fn spin_message(w: WedgeValue) -> Seq<char> {
    match w {
        WedgeValue::Bankrupt => "BANKRUPT! Lost all round earnings."@,
        WedgeValue::LoseTurn => "LOSE A TURN!"@,
        WedgeValue::FreePlay => "FREE PLAY! Guess a letter."@,
        WedgeValue::Cash(amount) => "$"@ + signed_decimal(amount as int) + "! Guess a consonant."@,
        WedgeValue::Prize { name, .. } => name@ + "! Guess a consonant to win it."@,
    }
}

fn spin_text(w: &WedgeValue) -> (r: String)
    ensures
        r@ == spin_message(*w),
{
    match w {
        WedgeValue::Bankrupt => "BANKRUPT! Lost all round earnings.".to_owned(),
        WedgeValue::LoseTurn => "LOSE A TURN!".to_owned(),
        WedgeValue::FreePlay => "FREE PLAY! Guess a letter.".to_owned(),
        WedgeValue::Cash(amount) => {
            let mut s = "$".to_owned();
            s.append(i64_to_decimal(*amount as i64).as_str());
            s.append("! Guess a consonant.");
            s
        },
        WedgeValue::Prize { name, .. } => {
            let mut s = name.clone();
            s.append("! Guess a consonant to win it.");
            s
        },
    }
}

/// Where a spin that physically came to rest at `landing` stops on `g`'s wheel.
pub open spec fn landing_slot(g: Game, landing: usize) -> usize {
    (landing % (g.wheel_slots@.len() as usize)) as usize
}

/// A spin of `g` that came to rest at `landing` can be carried out: a nudge, when
/// one happens, needs a wheel of at least six wedges.
pub open spec fn spin_defined(g: Game, landing: usize) -> bool {
    g.wheel_slots@.len() > 0 && g.nudge_possible(landing_slot(g, landing)) ==> g.wheel_slots@.len() >= 6
}

/// The active player (or the host) spins the wheel of room `room`; the physical
/// spin came to rest at `landing` (taken round the wheel). Returns the wedge and
/// its announcement.
pub fn handle_spin(
    manager: &mut GameManager,
    room: &str,
    socket_id: &str,
    landing: usize,
) -> (r: Result<(WedgeValue, String), &'static str>)
    requires
        old(manager).wf(),
        old(manager).room(room@) matches Some(g) ==> spin_defined(g, landing),
    ensures
        final(manager).wf(),
        match old(manager).room(room@) {
            None => fails_with(r, "Room not found"@) && *final(manager) == *old(manager),
            Some(g) => if g.phase != GamePhase::Normal {
                fails_with(r, "Spin is only allowed during normal rounds."@) && room_now(*final(manager), *old(manager), room@, g)
            } else if !may_act(g, socket_id@, true) {
                fails_with(r, "Only the active player (or host) can spin."@) && room_now(*final(manager), *old(manager), room@, g)
            } else if g.wheel_slots@.len() == 0 {
                fails_with(r, "Failed to spin wheel"@) && room_now(*final(manager), *old(manager), room@, g)
            } else {
                &&& final(manager).others_unchanged(*old(manager), room@)
                &&& final(manager).room(room@) matches Some(f)
                &&& r matches Ok((w, msg)) && msg@ == spin_message(w)
                    && Game::spun(g, f, landing_slot(g, landing), Some(w))
            },
        },
{
    let game = match manager.get_room_mut(room) {
        Some(g) => g,
        None => return Err("Room not found"),
    };
    if game.phase != GamePhase::Normal {
        return Err("Spin is only allowed during normal rounds.");
    }
    if !game.is_active_player(socket_id, true) {
        return Err("Only the active player (or host) can spin.");
    }
    if game.wheel_slots.len() == 0 {
        return Err("Failed to spin wheel");
    }
    let raw = landing % game.wheel_slots.len();
    match game.spin(raw) {
        Some(wedge) => {
            let msg = spin_text(&wedge);
            Ok((wedge, msg))
        },
        None => Err("Failed to spin wheel"),
    }
}

// ========== GUESS ==========

/// The announcement of a consonant guess of `letter` with result `r`.
pub open spec fn guess_message(r: GuessResult, letter: char) -> Seq<char> {
    match r {
        GuessResult::Correct(count) => decimal(count as nat) + " "@ + char_upper_text(letter) + "(s)!"@,
        GuessResult::Incorrect => "No "@ + char_upper_text(letter) + "s"@,
        GuessResult::AlreadyUsed => "Letter already used"@,
        GuessResult::InvalidLetter => "Invalid letter (must be a consonant)"@,
        GuessResult::NotEnoughMoney => "Not enough money"@,
        GuessResult::NeedToSpin => "Spin before guessing a consonant"@,
    }
}

fn guess_text(r: GuessResult, letter: char) -> (s: String)
    ensures
        s@ == guess_message(r, letter),
{
    match r {
        GuessResult::Correct(count) => {
            let mut s = u64_to_decimal(count as u64);
            s.append(" ");
            s.append(char_to_uppercase(letter).as_str());
            s.append("(s)!");
            s
        },
        GuessResult::Incorrect => {
            let mut s = "No ".to_owned();
            s.append(char_to_uppercase(letter).as_str());
            s.append("s");
            s
        },
        GuessResult::AlreadyUsed => "Letter already used".to_owned(),
        GuessResult::InvalidLetter => "Invalid letter (must be a consonant)".to_owned(),
        GuessResult::NotEnoughMoney => "Not enough money".to_owned(),
        GuessResult::NeedToSpin => "Spin before guessing a consonant".to_owned(),
    }
}

/// The active player of room `room` guesses the consonant `letter`. Returns the
/// announcement.
pub fn handle_guess(
    manager: &mut GameManager,
    room: &str,
    socket_id: &str,
    letter: char,
) -> (r: Result<String, &'static str>)
    requires
        old(manager).wf(),
        old(manager).room(room@) matches Some(g) ==> (g.phase == GamePhase::Normal && may_act(g, socket_id@, false)
            ==> g.consonant_award_fits(letter)),
    ensures
        final(manager).wf(),
        match old(manager).room(room@) {
            None => fails_with(r, "Room not found"@) && *final(manager) == *old(manager),
            Some(g) => if g.phase != GamePhase::Normal {
                fails_with(r, "Letter guesses are only allowed during normal rounds."@)
                    && room_now(*final(manager), *old(manager), room@, g)
            } else if !may_act(g, socket_id@, false) {
                fails_with(r, "Only the active player can guess."@) && room_now(*final(manager), *old(manager), room@, g)
            } else {
                &&& final(manager).others_unchanged(*old(manager), room@)
                &&& final(manager).room(room@) matches Some(f)
                &&& r matches Ok(msg) && exists|res: GuessResult|
                    #[trigger] guess_message(res, letter) == msg@ && Game::consonant_guessed(g, f, letter, res)
            },
        },
{
    let game = match manager.get_room_mut(room) {
        Some(g) => g,
        None => return Err("Room not found"),
    };
    if game.phase != GamePhase::Normal {
        return Err("Letter guesses are only allowed during normal rounds.");
    }
    if !game.is_active_player(socket_id, false) {
        return Err("Only the active player can guess.");
    }
    let result = game.guess_consonant(letter);
    let msg = guess_text(result, letter);
    assert(guess_message(result, letter) == msg@);
    Ok(msg)
}

// ========== SOLVE ==========

/// The announcement of a won bonus round with jackpot `jackpot`.
pub open spec fn jackpot_message(jackpot: i32) -> Seq<char> {
    "Correct! You win the $"@ + signed_decimal(jackpot as int) + " jackpot!"@
}

/// `f` is `g` after the toss-up attempt `attempt` (with `m` the state in between):
/// a correct attempt wins the toss-up, a wrong one locks the controller out.
pub open spec fn tossup_attempted(g: Game, m: Game, f: Game, attempt: Seq<char>, solved: bool) -> bool {
    &&& Game::attempt_solved(g, m, attempt, solved)
    &&& solved ==> Game::tossup_won(m, f)
    &&& !solved ==> Game::tossup_missed(m, f)
}

/// The reply `r` to the toss-up attempt `attempt` that took `g` to `f` (through `m`).
pub open spec fn tossup_answered(
    g: Game,
    m: Game,
    f: Game,
    attempt: Seq<char>,
    r: Result<(bool, String, Option<u64>), &'static str>,
) -> bool {
    r matches Ok((solved, msg, delay)) && tossup_attempted(g, m, f, attempt, solved)
        && msg@ == (if solved { "Correct! You win the toss-up!"@ } else { "Incorrect! You're locked out."@ })
        && delay == (if solved { Some(g.config.puzzle_display_seconds as u64) } else { None })
}

/// The active player (or, in a toss-up, the player who buzzed in) tries to solve
/// the puzzle of room `room`. Returns whether it was solved, the announcement,
/// and the seconds after which the next puzzle follows.
///
/// In normal and Final Spin rounds a correct attempt wins the round; in a toss-up
/// it wins the toss-up and a wrong one locks the player out; in the bonus round
/// a correct attempt wins the jackpot. No attempt is taken before the game starts
/// or after it ends.
pub fn handle_solve(
    manager: &mut GameManager,
    room: &str,
    socket_id: &str,
    attempt: &str,
) -> (r: Result<(bool, String, Option<u64>), &'static str>)
    requires
        old(manager).wf(),
        old(manager).room(room@) matches Some(g) ==> {
            &&& (g.phase == GamePhase::Normal || g.phase == GamePhase::Final) && may_act(g, socket_id@, false)
                ==> g.solve_award_fits(attempt@)
            &&& g.phase == GamePhase::Tossup && holds_tossup(g, socket_id@) ==> {
                &&& g.solve_award_fits(attempt@)
                &&& g.solves(attempt@) && g.has_active()
                    ==> g.players@[g.active_idx as int].total + g.players@[g.active_idx as int].round_bank
                        + crate::state::TOSSUP_AWARD <= i32::MAX
            }
            &&& g.phase == GamePhase::Bonus && may_act(g, socket_id@, false) ==> g.bonus_award_fits(attempt@)
        },
    ensures
        final(manager).wf(),
        match old(manager).room(room@) {
            None => fails_with(r, "Room not found"@) && *final(manager) == *old(manager),
            Some(g) => match g.phase {
                GamePhase::Normal | GamePhase::Final => if !may_act(g, socket_id@, false) {
                    fails_with(r, "Only the active player can solve."@) && room_now(*final(manager), *old(manager), room@, g)
                } else {
                    &&& final(manager).others_unchanged(*old(manager), room@)
                    &&& final(manager).room(room@) matches Some(f)
                    &&& r matches Ok((solved, msg, delay)) && Game::attempt_solved(g, f, attempt@, solved)
                        && msg@ == (if solved { "Correct! Puzzle solved!"@ } else { "Incorrect, sorry!"@ })
                        && delay == (if solved { Some(g.config.puzzle_display_seconds as u64) } else { None })
                },
                GamePhase::Tossup => if !holds_tossup(g, socket_id@) {
                    fails_with(r, "Only the player who buzzed in can solve."@)
                        && room_now(*final(manager), *old(manager), room@, g)
                } else {
                    &&& final(manager).others_unchanged(*old(manager), room@)
                    &&& final(manager).room(room@) matches Some(f)
                    &&& exists|m: Game, solved: bool| #[trigger] Game::attempt_solved(g, m, attempt@, solved)
                        && tossup_answered(g, m, f, attempt@, r)
                },
                GamePhase::Bonus => if !may_act(g, socket_id@, false) {
                    fails_with(r, "Only the active player can solve."@) && room_now(*final(manager), *old(manager), room@, g)
                } else {
                    &&& final(manager).others_unchanged(*old(manager), room@)
                    &&& final(manager).room(room@) matches Some(f)
                    &&& r matches Ok((solved, msg, delay)) && Game::bonus_attempt_solved(g, f, attempt@, solved)
                        && msg@ == (if solved { jackpot_message(g.config.bonus_jackpot) } else { "Incorrect!"@ })
                        && delay is None
                },
                _ => fails_with(r, "Solving is not allowed right now."@) && room_now(*final(manager), *old(manager), room@, g),
            },
        },
{
    let game = match manager.get_room_mut(room) {
        Some(g) => g,
        None => return Err("Room not found"),
    };
    match game.phase {
        GamePhase::Normal | GamePhase::Final => {
            if !game.is_active_player(socket_id, false) {
                return Err("Only the active player can solve.");
            }
            let solved = game.solve(attempt);
            if solved {
                let delay = game.config.puzzle_display_seconds as u64;
                Ok((true, "Correct! Puzzle solved!".to_owned(), Some(delay)))
            } else {
                Ok((false, "Incorrect, sorry!".to_owned(), None))
            }
        },
        GamePhase::Tossup => {
            let holds = match &game.tossup.controller_sid {
                Some(c) => c.as_str().to_owned() == socket_id.to_owned(),
                None => false,
            };
            if !holds {
                return Err("Only the player who buzzed in can solve.");
            }
            let ghost g0 = *game;
            let solved = game.solve(attempt);
            let ghost m = *game;
            assert(Game::attempt_solved(g0, m, attempt@, solved));
            if solved {
                game.tossup_correct_answer();
                let delay = game.config.puzzle_display_seconds as u64;
                Ok((true, "Correct! You win the toss-up!".to_owned(), Some(delay)))
            } else {
                game.tossup_wrong_answer();
                Ok((false, "Incorrect! You're locked out.".to_owned(), None))
            }
        },
        GamePhase::Bonus => {
            if !game.is_active_player(socket_id, false) {
                return Err("Only the active player can solve.");
            }
            let solved = game.bonus_solve(attempt);
            if solved {
                let mut msg = "Correct! You win the $".to_owned();
                msg.append(i64_to_decimal(game.config.bonus_jackpot as i64).as_str());
                msg.append(" jackpot!");
                Ok((true, msg, None))
            } else {
                Ok((false, "Incorrect!".to_owned(), None))
            }
        },
        _ => Err("Solving is not allowed right now."),
    }
}

// ========== BUZZ ==========

/// A player buzzes in during the toss-up of room `room`. Returns the player's
/// index and name.
pub fn handle_buzz(
    manager: &mut GameManager,
    room: &str,
    socket_id: &str,
) -> (r: Result<(usize, String), &'static str>)
    requires
        old(manager).wf(),
    ensures
        final(manager).wf(),
        match old(manager).room(room@) {
            None => fails_with(r, "Room not found"@) && *final(manager) == *old(manager),
            Some(g) => {
                &&& final(manager).others_unchanged(*old(manager), room@)
                &&& final(manager).room(room@) matches Some(f)
                &&& exists|b: Result<usize, &'static str>, now_ms: i64| {
                    &&& #[trigger] crate::state::buzz_outcome(g, f, socket_id@, b, now_ms)
                    &&& match b {
                        Ok(i) => r matches Ok((j, name)) && j == i && name == g.players@[i as int].name,
                        Err(e) => r == Err::<(usize, String), &'static str>(e),
                    }
                }
            },
        },
{
    let game = match manager.get_room_mut(room) {
        Some(g) => g,
        None => return Err("Room not found"),
    };
    let player_idx = game.tossup_buzz(socket_id)?;
    let name = game.players[player_idx].name.clone();
    Ok((player_idx, name))
}

// ========== HOST AND PLAYER ACTIONS ==========

/// `r` refuses the request with `msg`.
pub open spec fn refused(r: Option<Result<String, &'static str>>, msg: Seq<char>) -> bool {
    r matches Some(Err(e)) && e@ == msg
}

/// `r` accepts the request and shows `msg`.
pub open spec fn accepted(r: Option<Result<String, &'static str>>, msg: Seq<char>) -> bool {
    r matches Some(Ok(m)) && m@ == msg
}

/// The socket `sid` is the host of `g`.
pub open spec fn hosts(g: Game, sid: Seq<char>) -> bool {
    g.host_sid matches Some(h) && h@ == sid
}

/// A host action on room `room`: `None` (and nothing changes) when the room does
/// not exist; a refusal (and nothing changes) when `sid` is not the host;
/// otherwise `done` holds of the room before and after, every other room unchanged.
pub open spec fn host_action(
    m: GameManager,
    old_m: GameManager,
    room: Seq<char>,
    sid: Seq<char>,
    r: Option<Result<String, &'static str>>,
    done: spec_fn(Game, Game, Option<Result<String, &'static str>>) -> bool,
) -> bool {
    &&& m.wf()
    &&& match old_m.room(room) {
        None => r is None && m == old_m,
        Some(g) => if !hosts(g, sid) {
            refused(r, "Host only."@) && room_now(m, old_m, room, g)
        } else {
            &&& m.others_unchanged(old_m, room)
            &&& m.room(room) matches Some(f) && done(g, f, r)
        },
    }
}

fn host_check(game: &Game, socket_id: &str) -> (r: bool)
    ensures
        r == hosts(*game, socket_id@),
{
    game.is_host(socket_id)
}

/// Makes player `player_idx` of room `room` the active one (host only).
pub fn handle_set_active_player(
    manager: &mut GameManager,
    room: &str,
    socket_id: &str,
    player_idx: usize,
) -> (r: Option<Result<String, &'static str>>)
    requires
        old(manager).wf(),
    ensures
        host_action(*final(manager), *old(manager), room@, socket_id@, r, |g: Game, f: Game, r: Option<Result<String, &'static str>>|
            if player_idx >= g.players@.len() {
                refused(r, "Invalid player index."@) && f == g
            } else {
                accepted(r, "Active player set to "@ + g.players@[player_idx as int].name@ + "."@)
                    && f == Game { active_idx: player_idx, ..g }
            }),
{
    let game = match manager.get_room_mut(room) {
        Some(g) => g,
        None => return None,
    };
    if !host_check(game, socket_id) {
        return Some(Err("Host only."));
    }
    if player_idx >= game.players.len() {
        return Some(Err("Invalid player index."));
    }
    game.active_idx = player_idx;
    let mut msg = "Active player set to ".to_owned();
    msg.append(game.players[player_idx].name.as_str());
    msg.append(".");
    Some(Ok(msg))
}

/// Gives up the host role of room `room` (host only).
pub fn handle_release_host(manager: &mut GameManager, room: &str, socket_id: &str) -> (r: Option<Result<String, &'static str>>)
    requires
        old(manager).wf(),
    ensures
        final(manager).wf(),
        match old(manager).room(room@) {
            None => r is None && *final(manager) == *old(manager),
            Some(g) => if !hosts(g, socket_id@) {
                refused(r, "Only the host can release host mode."@) && room_now(*final(manager), *old(manager), room@, g)
            } else {
                accepted(r, "Host released."@) && room_now(*final(manager), *old(manager), room@, Game { host_sid: None, ..g })
            },
        },
{
    let game = match manager.get_room_mut(room) {
        Some(g) => g,
        None => return None,
    };
    if !host_check(game, socket_id) {
        return Some(Err("Only the host can release host mode."));
    }
    game.host_sid = None;
    Some(Ok("Host released.".to_owned()))
}

/// Reveals every letter of the puzzle of room `room` (host only).
pub fn handle_reveal_all(manager: &mut GameManager, room: &str, socket_id: &str) -> (r: Option<Result<String, &'static str>>)
    requires
        old(manager).wf(),
    ensures
        host_action(*final(manager), *old(manager), room@, socket_id@, r, |g: Game, f: Game, r: Option<Result<String, &'static str>>|
            accepted(r, "All letters revealed."@) && Game::all_revealed(g, f)),
{
    let game = match manager.get_room_mut(room) {
        Some(g) => g,
        None => return None,
    };
    if !host_check(game, socket_id) {
        return Some(Err("Host only."));
    }
    game.reveal_all();
    Some(Ok("All letters revealed.".to_owned()))
}

/// Starts `puzzle` in room `room` (host only).
pub fn handle_new_puzzle(
    manager: &mut GameManager,
    room: &str,
    socket_id: &str,
    puzzle: Puzzle,
) -> (r: Option<Result<String, &'static str>>)
    requires
        old(manager).wf(),
    ensures
        host_action(*final(manager), *old(manager), room@, socket_id@, r, |g: Game, f: Game, r: Option<Result<String, &'static str>>|
            accepted(r, "New puzzle loaded."@) && Game::puzzle_started(g, f, puzzle)),
{
    let game = match manager.get_room_mut(room) {
        Some(g) => g,
        None => return None,
    };
    if !host_check(game, socket_id) {
        return Some(Err("Host only."));
    }
    game.new_puzzle(puzzle);
    Some(Ok("New puzzle loaded.".to_owned()))
}

/// Starts a new game in room `room` with `puzzle` (host only): the game is reset
/// to pregame, then the puzzle is started.
pub fn handle_new_game(
    manager: &mut GameManager,
    room: &str,
    socket_id: &str,
    puzzle: Puzzle,
) -> (r: Option<Result<String, &'static str>>)
    requires
        old(manager).wf(),
    ensures
        host_action(*final(manager), *old(manager), room@, socket_id@, r, |g: Game, f: Game, r: Option<Result<String, &'static str>>|
            accepted(r, "New game started."@) && exists|m: Game| Game::game_reset(g, m) && #[trigger] Game::puzzle_started(m, f, puzzle)),
{
    let game = match manager.get_room_mut(room) {
        Some(g) => g,
        None => return None,
    };
    if !host_check(game, socket_id) {
        return Some(Err("Host only."));
    }
    let ghost g = *game;
    game.reset_game();
    let ghost m = *game;
    game.new_puzzle(puzzle);
    assert(Game::game_reset(g, m) && Game::puzzle_started(m, *game, puzzle));
    Some(Ok("New game started.".to_owned()))
}

/// Starts a toss-up in room `room` (host only).
pub fn handle_start_tossup(manager: &mut GameManager, room: &str, socket_id: &str) -> (r: Option<Result<String, &'static str>>)
    requires
        old(manager).wf(),
    ensures
        host_action(*final(manager), *old(manager), room@, socket_id@, r, |g: Game, f: Game, r: Option<Result<String, &'static str>>|
            accepted(r, "Toss-up started! Buzz in to solve!"@) && f.is_tossup_start_of(g)),
{
    let game = match manager.get_room_mut(room) {
        Some(g) => g,
        None => return None,
    };
    if !host_check(game, socket_id) {
        return Some(Err("Host only."));
    }
    game.start_tossup();
    Some(Ok("Toss-up started! Buzz in to solve!".to_owned()))
}

/// Ends the toss-up of room `room` (host only).
pub fn handle_end_tossup(manager: &mut GameManager, room: &str, socket_id: &str) -> (r: Option<Result<String, &'static str>>)
    requires
        old(manager).wf(),
    ensures
        host_action(*final(manager), *old(manager), room@, socket_id@, r, |g: Game, f: Game, r: Option<Result<String, &'static str>>|
            accepted(r, "Toss-up ended."@) && Game::tossup_ended(g, f)),
{
    let game = match manager.get_room_mut(room) {
        Some(g) => g,
        None => return None,
    };
    if !host_check(game, socket_id) {
        return Some(Err("Host only."));
    }
    game.end_tossup();
    Some(Ok("Toss-up ended.".to_owned()))
}

/// The name shown for the puzzle pack `pack_id`: all packs for none or 0, else
/// the given name, else `Pack <id>`.
pub open spec fn pack_label(pack_id: Option<i64>, pack_name: Option<String>) -> Seq<char> {
    match pack_id {
        None => "All Packs"@,
        Some(id) => if id == 0 {
            "All Packs"@
        } else {
            match pack_name {
                Some(n) => n@,
                None => "Pack "@ + crate::text::signed_decimal(id as int),
            }
        },
    }
}

/// Chooses the puzzle pack of room `room` (host only).
pub fn handle_set_pack(
    manager: &mut GameManager,
    room: &str,
    socket_id: &str,
    pack_id: Option<i64>,
    pack_name: Option<String>,
) -> (r: Option<Result<String, &'static str>>)
    requires
        old(manager).wf(),
    ensures
        host_action(*final(manager), *old(manager), room@, socket_id@, r, |g: Game, f: Game, r: Option<Result<String, &'static str>>|
            accepted(r, "Puzzle pack changed to: "@ + pack_label(pack_id, pack_name))
                && (f.active_pack_name matches Some(n) && n@ == pack_label(pack_id, pack_name))
                && f == Game {
                    config: crate::state::RoomConfig { pack_id, ..g.config },
                    active_pack_id: pack_id,
                    active_pack_name: f.active_pack_name,
                    ..g
                }),
{
    let game = match manager.get_room_mut(room) {
        Some(g) => g,
        None => return None,
    };
    if !host_check(game, socket_id) {
        return Some(Err("Host only."));
    }
    game.config.pack_id = pack_id;
    game.active_pack_id = pack_id;
    let label = match pack_id {
        None => "All Packs".to_owned(),
        Some(id) => if id == 0 {
            "All Packs".to_owned()
        } else {
            match pack_name {
                Some(n) => n,
                None => {
                    let mut s = "Pack ".to_owned();
                    s.append(i64_to_decimal(id).as_str());
                    s
                },
            }
        },
    };
    let mut msg = "Puzzle pack changed to: ".to_owned();
    msg.append(label.as_str());
    game.active_pack_name = Some(label);
    Some(Ok(msg))
}

/// Changes the configuration of room `room` (host only): the values given replace
/// the vowel cost, the bonus-round seconds and jackpot, and the prize cash values.
pub fn handle_set_config(
    manager: &mut GameManager,
    room: &str,
    socket_id: &str,
    update: &ConfigUpdate,
) -> (r: Option<Result<String, &'static str>>)
    requires
        old(manager).wf(),
    ensures
        host_action(*final(manager), *old(manager), room@, socket_id@, r, |g: Game, f: Game, r: Option<Result<String, &'static str>>|
            accepted(r, "Config saved."@)
                && f.config.vowel_cost == (match update.vowel_cost { Some(v) => v, None => g.config.vowel_cost })
                && f.config.bonus_seconds == (match update.final_seconds { Some(v) => v, None => g.config.bonus_seconds })
                && f.config.bonus_jackpot == (match update.final_jackpot { Some(v) => v, None => g.config.bonus_jackpot })
                && f.config.prize_replace_cash_values@ == (match update.prize_replace_cash_values {
                    Some(v) => v@,
                    None => g.config.prize_replace_cash_values@,
                })
                && f == Game {
                    config: crate::state::RoomConfig {
                        vowel_cost: f.config.vowel_cost,
                        bonus_seconds: f.config.bonus_seconds,
                        bonus_jackpot: f.config.bonus_jackpot,
                        prize_replace_cash_values: f.config.prize_replace_cash_values,
                        ..g.config
                    },
                    ..g
                }),
{
    let game = match manager.get_room_mut(room) {
        Some(g) => g,
        None => return None,
    };
    if !host_check(game, socket_id) {
        return Some(Err("Host only."));
    }
    if let Some(v) = update.vowel_cost {
        game.config.vowel_cost = v;
    }
    if let Some(v) = update.final_seconds {
        game.config.bonus_seconds = v;
    }
    if let Some(v) = update.final_jackpot {
        game.config.bonus_jackpot = v;
    }
    if let Some(v) = &update.prize_replace_cash_values {
        game.config.prize_replace_cash_values = copy_values(v);
    }
    Some(Ok("Config saved.".to_owned()))
}

fn copy_values(v: &Vec<i32>) -> (r: Vec<i32>)
    ensures
        r@ == v@,
{
    let mut out: Vec<i32> = Vec::new();
    let mut i: usize = 0;
    while i < v.len()
        invariant
            i <= v@.len(),
            out@ == v@.subrange(0, i as int),
        decreases v@.len() - i,
    {
        out.push(v[i]);
        i += 1;
        assert(out@ =~= v@.subrange(0, i as int));
    }
    assert(out@ =~= v@);
    out
}

/// A player name can be cut to its first 30 bytes: it is at most 30 bytes long,
/// or its 31st byte starts a character.
pub open spec fn name_cut_defined(name: Seq<char>) -> bool {
    encode_utf8(name).len() <= 30 || is_char_boundary(encode_utf8(name), 30)
}

/// A player name cut to at most its first 30 bytes.
pub open spec fn cut_name(name: Seq<char>) -> Seq<char> {
    if encode_utf8(name).len() <= 30 {
        name
    } else {
        decode_utf8(encode_utf8(name).subrange(0, 30))
    }
}

fn cut_to_30_bytes(name: &str) -> (r: String)
    requires
        name_cut_defined(name@),
    ensures
        r@ == cut_name(name@),
{
    proof {
        broadcast use vstd::utf8::encode_utf8_decode_utf8;
    }
    if name.as_bytes().len() <= 30 {
        name.to_owned()
    } else {
        let (head, _) = name.split_at(30);
        head.to_owned()
    }
}

/// `f` is `g` with its players replaced by new, unconnected players called
/// `names` (each cut to 30 bytes), and the first of them active.
pub open spec fn players_set(g: Game, f: Game, names: Seq<String>) -> bool {
    &&& f.players@.len() == names.len()
    &&& forall|j: int| 0 <= j < names.len() ==> {
        let p = #[trigger] f.players@[j];
        &&& p.id == j && p.name@ == cut_name(names[j]@)
        &&& p.total == 0 && p.round_bank == 0 && p.prizes@.len() == 0 && p.round_prizes@.len() == 0
        &&& p.socket_id is None && p.user_id is None && p.disconnected_at is None && p.avatar_id == 1
    }
    &&& f == Game { players: f.players, active_idx: 0, ..g }
}

/// Replaces the players of room `room` by new players with the given names (host
/// only); at least one name is needed.
pub fn handle_set_players(
    manager: &mut GameManager,
    room: &str,
    socket_id: &str,
    names: &Vec<String>,
) -> (r: Option<Result<String, &'static str>>)
    requires
        old(manager).wf(),
        forall|j: int| 0 <= j < names@.len() ==> name_cut_defined(#[trigger] names@[j]@),
    ensures
        host_action(*final(manager), *old(manager), room@, socket_id@, r, |g: Game, f: Game, r: Option<Result<String, &'static str>>|
            if names@.len() == 0 {
                refused(r, "Provide a list of player names."@) && f == g
            } else {
                accepted(r, "Set "@ + decimal(names@.len()) + " players."@) && players_set(g, f, names@)
            }),
{
    let game = match manager.get_room_mut(room) {
        Some(g) => g,
        None => return None,
    };
    if !host_check(game, socket_id) {
        return Some(Err("Host only."));
    }
    if names.len() == 0 {
        return Some(Err("Provide a list of player names."));
    }
    let ghost g = *game;
    game.players.clear();
    let mut i: usize = 0;
    while i < names.len()
        invariant
            i <= names@.len(),
            forall|j: int| 0 <= j < names@.len() ==> name_cut_defined(#[trigger] names@[j]@),
            game.players@.len() == i,
            forall|j: int| 0 <= j < i ==> {
                let p = #[trigger] game.players@[j];
                &&& p.id == j && p.name@ == cut_name(names@[j]@)
                &&& p.total == 0 && p.round_bank == 0 && p.prizes@.len() == 0 && p.round_prizes@.len() == 0
                &&& p.socket_id is None && p.user_id is None && p.disconnected_at is None && p.avatar_id == 1
            },
            *game == (Game { players: game.players, ..g }),
        decreases names@.len() - i,
    {
        let name = cut_to_30_bytes(names[i].as_str());
        game.add_player(name, None, None, None);
        i += 1;
    }
    game.active_idx = 0;
    let mut msg = "Set ".to_owned();
    msg.append(u64_to_decimal(game.players.len() as u64).as_str());
    msg.append(" players.");
    Some(Ok(msg))
}

/// After the socket `sid` dropped at `now_secs`, the room that held `g` holds
/// `f`: a room without players is closed; any other lets the socket go.
pub open spec fn room_after_disconnect(g: Game, f: Option<Game>, sid: Seq<char>, now_secs: i64) -> bool {
    if g.players@.len() > 0 {
        f matches Some(h) && game_after_drop(g, h, sid, now_secs)
    } else {
        f is None
    }
}

/// The socket `socket_id` disconnected at `now_secs` (Unix seconds): every room
/// involving it lets it go, then the rooms without players are closed.
pub fn handle_disconnect_at(manager: &mut GameManager, socket_id: &str, now_secs: i64)
    requires
        old(manager).wf(),
    ensures
        final(manager).wf(),
        forall|k: Seq<char>| #![trigger final(manager).room(k)] match old(manager).room(k) {
            Some(g) => room_after_disconnect(g, final(manager).room(k), socket_id@, now_secs),
            None => final(manager).room(k) is None,
        },
{
    manager.disconnect_socket_at(socket_id, now_secs);
    let ghost mid = *manager;
    manager.cleanup_empty_rooms();
    assert forall|k: Seq<char>| #![trigger manager.room(k)] match old(manager).room(k) {
        Some(g) => room_after_disconnect(g, manager.room(k), socket_id@, now_secs),
        None => manager.room(k) is None,
    } by {
        assert(mid.room(k) == mid.room(k));
    }
}

/// The socket `socket_id` disconnected now; returns the time recorded (Unix
/// seconds), at which every room involving it let it go before the rooms
/// without players were closed.
pub fn handle_disconnect(manager: &mut GameManager, socket_id: &str) -> (r: i64)
    requires
        old(manager).wf(),
    ensures
        final(manager).wf(),
        forall|k: Seq<char>| #![trigger final(manager).room(k)] match old(manager).room(k) {
            Some(g) => room_after_disconnect(g, final(manager).room(k), socket_id@, r),
            None => final(manager).room(k) is None,
        },
{
    let now = now_secs();
    handle_disconnect_at(manager, socket_id, now);
    now
}

/// The player on socket `socket_id` leaves the game of room `room`. Returns the
/// announcement when a player left.
pub fn handle_leave_game(manager: &mut GameManager, room: &str, socket_id: &str) -> (r: Option<String>)
    requires
        old(manager).wf(),
    ensures
        final(manager).wf(),
        match old(manager).room(room@) {
            None => r is None && *final(manager) == *old(manager),
            Some(g) => {
                &&& final(manager).others_unchanged(*old(manager), room@)
                &&& final(manager).room(room@) matches Some(f)
                &&& exists|p: Option<Player>| #[trigger] Game::left_by_socket(g, f, socket_id@, p) && match p {
                    Some(q) => r matches Some(msg) && msg@ == q.name@ + " left the game."@,
                    None => r is None,
                }
            },
        },
{
    let game = match manager.get_room_mut(room) {
        Some(g) => g,
        None => return None,
    };
    match game.remove_player_by_socket(socket_id) {
        Some(p) => {
            let mut msg = p.name;
            msg.append(" left the game.");
            Some(msg)
        },
        None => None,
    }
}

/// The announcement of buying the vowel `letter` with result `r` at `cost`.
pub open spec fn vowel_message(r: GuessResult, letter: char, cost: i32) -> Seq<char> {
    match r {
        GuessResult::Correct(count) => decimal(count as nat) + " "@ + char_upper_text(letter) + "(s)!"@,
        GuessResult::Incorrect => "No "@ + char_upper_text(letter) + "s"@,
        GuessResult::AlreadyUsed => "Letter already used"@,
        GuessResult::InvalidLetter => "Must be a vowel"@,
        GuessResult::NotEnoughMoney => "Need $"@ + signed_decimal(cost as int) + " to buy a vowel"@,
        GuessResult::NeedToSpin => "Cannot buy vowel now"@,
    }
}

fn vowel_text(r: GuessResult, letter: char, cost: i32) -> (s: String)
    ensures
        s@ == vowel_message(r, letter, cost),
{
    match r {
        GuessResult::NotEnoughMoney => {
            let mut s = "Need $".to_owned();
            s.append(i64_to_decimal(cost as i64).as_str());
            s.append(" to buy a vowel");
            s
        },
        GuessResult::InvalidLetter => "Must be a vowel".to_owned(),
        GuessResult::NeedToSpin => "Cannot buy vowel now".to_owned(),
        _ => guess_text(r, letter),
    }
}

/// The active player of room `room` buys the vowel `letter`. Returns the
/// announcement, or the refusal.
pub fn handle_buy_vowel(
    manager: &mut GameManager,
    room: &str,
    socket_id: &str,
    letter: char,
) -> (r: Option<Result<String, &'static str>>)
    requires
        old(manager).wf(),
        old(manager).room(room@) matches Some(g) ==> (g.phase == GamePhase::Normal && may_act(g, socket_id@, false)
            ==> g.vowel_cost_fits()),
    ensures
        final(manager).wf(),
        match old(manager).room(room@) {
            None => r is None && *final(manager) == *old(manager),
            Some(g) => if g.phase != GamePhase::Normal {
                refused(r, "Vowels can only be bought during normal rounds."@) && room_now(*final(manager), *old(manager), room@, g)
            } else if !may_act(g, socket_id@, false) {
                refused(r, "Only the active player can buy vowels."@) && room_now(*final(manager), *old(manager), room@, g)
            } else {
                &&& final(manager).others_unchanged(*old(manager), room@)
                &&& final(manager).room(room@) matches Some(f)
                &&& r matches Some(Ok(msg)) && exists|res: GuessResult|
                    #[trigger] vowel_message(res, letter, g.config.vowel_cost) == msg@ && Game::vowel_bought(g, f, letter, res)
            },
        },
{
    let game = match manager.get_room_mut(room) {
        Some(g) => g,
        None => return None,
    };
    if game.phase != GamePhase::Normal {
        return Some(Err("Vowels can only be bought during normal rounds."));
    }
    if !game.is_active_player(socket_id, false) {
        return Some(Err("Only the active player can buy vowels."));
    }
    let cost = game.config.vowel_cost;
    let result = game.buy_vowel(letter);
    let msg = vowel_text(result, letter, cost);
    assert(vowel_message(result, letter, cost) == msg@);
    Some(Ok(msg))
}

/// The announcement of the toss-up letter guess `letter` with result `r`.
pub open spec fn tossup_guess_message(r: GuessResult, letter: char) -> Seq<char> {
    match r {
        GuessResult::Correct(count) => decimal(count as nat) + " "@ + char_upper_text(letter) + "(s)!"@,
        GuessResult::Incorrect => "No "@ + char_upper_text(letter) + "s - locked out!"@,
        GuessResult::AlreadyUsed => "Letter already used"@,
        GuessResult::InvalidLetter => "Invalid letter"@,
        _ => "Error"@,
    }
}

fn tossup_guess_text(r: GuessResult, letter: char) -> (s: String)
    ensures
        s@ == tossup_guess_message(r, letter),
{
    match r {
        GuessResult::Incorrect => {
            let mut s = "No ".to_owned();
            s.append(char_to_uppercase(letter).as_str());
            s.append("s - locked out!");
            s
        },
        GuessResult::InvalidLetter => "Invalid letter".to_owned(),
        GuessResult::Correct(_) | GuessResult::AlreadyUsed => guess_text(r, letter),
        _ => "Error".to_owned(),
    }
}

/// The player who buzzed in during the toss-up of room `room` guesses `letter`.
pub fn handle_tossup_guess(
    manager: &mut GameManager,
    room: &str,
    socket_id: &str,
    letter: char,
) -> (r: Option<Result<String, &'static str>>)
    requires
        old(manager).wf(),
    ensures
        final(manager).wf(),
        match old(manager).room(room@) {
            None => r is None && *final(manager) == *old(manager),
            Some(g) => if g.phase != GamePhase::Tossup {
                refused(r, "Not in toss-up mode."@) && room_now(*final(manager), *old(manager), room@, g)
            } else if !holds_tossup(g, socket_id@) {
                refused(r, "Only the player who buzzed in can guess."@) && room_now(*final(manager), *old(manager), room@, g)
            } else {
                &&& final(manager).others_unchanged(*old(manager), room@)
                &&& final(manager).room(room@) matches Some(f)
                &&& r matches Some(Ok(msg)) && exists|res: GuessResult|
                    #[trigger] tossup_guess_message(res, letter) == msg@ && Game::tossup_letter_guessed(g, f, letter, res)
            },
        },
{
    let game = match manager.get_room_mut(room) {
        Some(g) => g,
        None => return None,
    };
    if game.phase != GamePhase::Tossup {
        return Some(Err("Not in toss-up mode."));
    }
    let holds = match &game.tossup.controller_sid {
        Some(c) => c.as_str().to_owned() == socket_id.to_owned(),
        None => false,
    };
    if !holds {
        return Some(Err("Only the player who buzzed in can guess."));
    }
    let result = game.tossup_guess_letter(letter);
    let msg = tossup_guess_text(result, letter);
    assert(tossup_guess_message(result, letter) == msg@);
    Some(Ok(msg))
}

} // verus!
