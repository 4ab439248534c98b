//! What the admin endpoints do to the rooms in memory, and what they answer.
use vstd::prelude::*;
use crate::auth::SimpleResponse;
use crate::db::User;
use crate::manager::GameManager;
use crate::state::{Game, GamePhase, Player, RoomConfig};
use crate::text::{
    decimal, signed_decimal, u64_to_decimal, i64_to_decimal, is_ascii_letter, spec_to_lowercase, str_chars, string_from_chars,
    to_lowercase, trim_chars, trim_seq,
};
use crate::wheel::WedgeValue;

verus! {

// ========== ANSWERS ==========

/// `r` is a refusal with status `status` and error `msg`.
pub open spec fn refused(r: (u16, SimpleResponse), status: u16, msg: Seq<char>) -> bool {
    &&& r.0 == status
    &&& !r.1.ok
    &&& r.1.message is None
    &&& r.1.error matches Some(e) && e@ == msg
}

/// `r` accepts with the message `msg`.
pub open spec fn accepted(r: (u16, SimpleResponse), msg: Seq<char>) -> bool {
    &&& r.0 == 200
    &&& r.1.ok
    &&& r.1.error is None
    &&& r.1.message matches Some(m) && m@ == msg
}

fn refusal(status: u16, msg: &str) -> (r: (u16, SimpleResponse))
    ensures
        refused(r, status, msg@),
{
    (status, SimpleResponse { ok: false, message: None, error: Some(msg.to_owned()) })
}

fn acceptance(msg: String) -> (r: (u16, SimpleResponse))
    ensures
        accepted(r, msg@),
{
    (200, SimpleResponse { ok: true, message: Some(msg), error: None })
}

/// The answer to an admin request from someone who is not an admin.
pub fn admin_required() -> (r: (u16, SimpleResponse))
    ensures
        refused(r, 403, "Admin access required"@),
{
    refusal(403, "Admin access required")
}

// ========== ACCOUNTS, PACKS AND PUZZLES ==========
// Each of these endpoints makes one database call; these are its answers. A
// `None` outcome is a failed call.

/// The answer to setting whether a user is an admin.
pub fn admin_set_user_admin_answer(updated: bool) -> (r: (u16, SimpleResponse))
    ensures
        if updated { accepted(r, "User admin status updated"@) } else { refused(r, 500, "Failed to update user"@) },
{
    if updated { acceptance("User admin status updated".to_owned()) } else { refusal(500, "Failed to update user") }
}

/// The answer to marking a user verified.
pub fn admin_verify_user_answer(verified: bool) -> (r: (u16, SimpleResponse))
    ensures
        if verified { accepted(r, "User verified"@) } else { refused(r, 500, "Failed to verify user"@) },
{
    if verified { acceptance("User verified".to_owned()) } else { refusal(500, "Failed to verify user") }
}

/// The answer to deleting something: `done` when it was deleted, `missing` when
/// there was nothing to delete, `failed` when the call failed.
pub open spec fn deletion_answered(
    r: (u16, SimpleResponse),
    deleted: Option<bool>,
    done: Seq<char>,
    missing: Seq<char>,
    failed: Seq<char>,
) -> bool {
    match deleted {
        Some(true) => accepted(r, done),
        Some(false) => refused(r, 404, missing),
        None => refused(r, 500, failed),
    }
}

fn deletion_answer(deleted: Option<bool>, done: &str, missing: &str, failed: &str) -> (r: (u16, SimpleResponse))
    ensures
        deletion_answered(r, deleted, done@, missing@, failed@),
{
    match deleted {
        Some(true) => acceptance(done.to_owned()),
        Some(false) => refusal(404, missing),
        None => refusal(500, failed),
    }
}

/// The answer to deleting a user.
pub fn admin_delete_user_answer(deleted: Option<bool>) -> (r: (u16, SimpleResponse))
    ensures
        deletion_answered(r, deleted, "User deleted"@, "User not found"@, "Failed to delete user"@),
{
    deletion_answer(deleted, "User deleted", "User not found", "Failed to delete user")
}

/// The refusal of deleting the pack `pack_id`, before any database call: the
/// default pack (id 1) cannot be deleted.
pub fn admin_delete_pack_check(pack_id: i64) -> (r: Option<(u16, SimpleResponse)>)
    ensures
        pack_id == 1 ==> (r matches Some(a) && refused(a, 400, "Cannot delete default pack"@)),
        pack_id != 1 ==> r is None,
{
    if pack_id == 1 { Some(refusal(400, "Cannot delete default pack")) } else { None }
}

/// The answer to deleting a pack.
pub fn admin_delete_pack_answer(deleted: Option<bool>) -> (r: (u16, SimpleResponse))
    ensures
        deletion_answered(r, deleted, "Pack deleted"@, "Pack not found"@, "Failed to delete pack"@),
{
    deletion_answer(deleted, "Pack deleted", "Pack not found", "Failed to delete pack")
}

/// The answer to deleting a puzzle.
pub fn admin_delete_puzzle_answer(deleted: Option<bool>) -> (r: (u16, SimpleResponse))
    ensures
        deletion_answered(r, deleted, "Puzzle deleted"@, "Puzzle not found"@, "Failed to delete puzzle"@),
{
    deletion_answer(deleted, "Puzzle deleted", "Puzzle not found", "Failed to delete puzzle")
}

/// The answer to creating a pack.
#[derive(Debug, Clone)]
pub struct CreatePackResponse {
    pub ok: bool,
    pub id: Option<i64>,
    pub message: Option<String>,
    pub error: Option<String>,
}

/// The answer to creating a pack (or finding the one with that name), given the
/// pack's id.
pub fn admin_create_pack_answer(created: Option<i64>) -> (r: (u16, CreatePackResponse))
    ensures
        match created {
            Some(id) => r.0 == 200 && r.1.ok && r.1.id == Some(id) && r.1.error is None
                && (r.1.message matches Some(m) && m@ == "Pack created with ID "@ + signed_decimal(id as int)),
            None => r.0 == 500 && !r.1.ok && r.1.id is None && r.1.message is None
                && (r.1.error matches Some(e) && e@ == "Failed to create pack"@),
        },
{
    match created {
        Some(id) => {
            let mut msg = "Pack created with ID ".to_owned();
            msg.append(i64_to_decimal(id).as_str());
            (200, CreatePackResponse { ok: true, id: Some(id), message: Some(msg), error: None })
        },
        None => (500, CreatePackResponse { ok: false, id: None, message: None, error: Some("Failed to create pack".to_owned()) }),
    }
}

/// The answer to adding a puzzle, given its id.
pub fn admin_add_puzzle_answer(added: Option<i64>) -> (r: (u16, SimpleResponse))
    ensures
        match added {
            Some(id) => accepted(r, "Puzzle added with ID "@ + signed_decimal(id as int)),
            None => refused(r, 500, "Failed to add puzzle"@),
        },
{
    match added {
        Some(id) => {
            let mut msg = "Puzzle added with ID ".to_owned();
            msg.append(i64_to_decimal(id).as_str());
            acceptance(msg)
        },
        None => refusal(500, "Failed to add puzzle"),
    }
}

/// The answer to reading a room's settings.
#[derive(Debug, Clone)]
pub struct SettingsResponse {
    pub ok: bool,
    pub config: Option<RoomConfig>,
    pub error: Option<String>,
}

/// The answer to reading a room's settings, given what was read: a room whose
/// settings cannot be read is shown the default ones.
pub fn admin_get_settings_answer(fetched: Option<RoomConfig>) -> (r: (u16, SettingsResponse))
    ensures
        r.0 == 200,
        r.1.ok,
        r.1.error is None,
        r.1.config matches Some(c) && match fetched {
            Some(f) => c == f,
            None => c.is_default(),
        },
{
    let config = match fetched {
        Some(c) => c,
        None => RoomConfig::default(),
    };
    (200, SettingsResponse { ok: true, config: Some(config), error: None })
}

/// Where an import of puzzles goes.
#[derive(Debug, Clone, PartialEq, Eq)]
pub enum ImportTarget {
    /// The pack with this id.
    Pack(i64),
    /// The pack with this name, created when there is none.
    Named(String),
}

/// Where an import goes: the pack given by id, else the pack given by name,
/// else the default pack (id 1).
pub fn admin_import_target(pack_id: Option<i64>, pack_name: Option<String>) -> (r: ImportTarget)
    ensures
        match pack_id {
            Some(id) => r == ImportTarget::Pack(id),
            None => match pack_name {
                Some(n) => r == ImportTarget::Named(n),
                None => r == ImportTarget::Pack(1),
            },
        },
{
    match pack_id {
        Some(id) => ImportTarget::Pack(id),
        None => match pack_name {
            Some(n) => ImportTarget::Named(n),
            None => ImportTarget::Pack(1),
        },
    }
}

/// The answer to an import of `count` puzzles into the pack `pack_id`, given how
/// many were imported.
pub fn admin_import_answer(imported: Option<u64>, pack_id: i64, count: u64) -> (r: (u16, SimpleResponse))
    ensures
        match imported {
            Some(n) => accepted(r, "Imported "@ + decimal(n as nat) + " puzzles into pack "@ + signed_decimal(pack_id as int)),
            None => r.0 == 500 && !r.1.ok
                && (r.1.message matches Some(m) && m@ == "Failed after importing some of "@ + decimal(count as nat) + " puzzles"@)
                && (r.1.error matches Some(e) && e@ == "Import failed"@),
        },
{
    match imported {
        Some(n) => {
            let mut msg = "Imported ".to_owned();
            msg.append(u64_to_decimal(n).as_str());
            msg.append(" puzzles into pack ");
            msg.append(i64_to_decimal(pack_id).as_str());
            acceptance(msg)
        },
        None => {
            let mut msg = "Failed after importing some of ".to_owned();
            msg.append(u64_to_decimal(count).as_str());
            msg.append(" puzzles");
            (500, SimpleResponse { ok: false, message: Some(msg), error: Some("Import failed".to_owned()) })
        },
    }
}

// ========== ROOMS ==========

/// A character allowed in a room name: an ASCII letter or digit, `-` or `_`.
pub open spec fn room_name_char(c: char) -> bool {
    is_ascii_letter(c) || ('0' <= c && c <= '9') || c == '-' || c == '_'
}

/// The name of a room an admin creates: what was typed, trimmed and lower-cased.
pub open spec fn admin_room_name(typed: Seq<char>) -> Seq<char> {
    spec_to_lowercase(trim_seq(typed))
}

fn all_room_name_chars(s: &str) -> (r: bool)
    ensures
        r == forall|i: int| 0 <= i < s@.len() ==> room_name_char(#[trigger] s@[i]),
{
    let chars = str_chars(s);
    let mut i: usize = 0;
    while i < chars.len()
        invariant
            chars@ == s@,
            i <= chars@.len(),
            forall|j: int| 0 <= j < i ==> room_name_char(#[trigger] s@[j]),
        decreases chars@.len() - i,
    {
        let c = chars[i];
        let ok = (c >= 'a' && c <= 'z') || (c >= 'A' && c <= 'Z') || (c >= '0' && c <= '9') || c == '-' || c == '_';
        if !ok {
            assert(!room_name_char(s@[i as int]));
            return false;
        }
        i += 1;
    }
    true
}

/// Creates the room an admin typed the name of: refused when the name is
/// empty, holds other characters than letters, digits, `-` and `_`, or names a
/// room that exists; otherwise the room is made (in pregame, with no players).
pub fn admin_create_room(manager: &mut GameManager, typed: &str) -> (r: (u16, SimpleResponse))
    requires
        old(manager).wf(),
    ensures
        final(manager).wf(),
        ({
            let n = admin_room_name(typed@);
            if n.len() == 0 {
                refused(r, 400, "Room name cannot be empty"@) && *final(manager) == *old(manager)
            } else if !(forall|i: int| 0 <= i < n.len() ==> room_name_char(#[trigger] n[i])) {
                refused(r, 400, "Room name can only contain letters, numbers, hyphens and underscores"@)
                    && *final(manager) == *old(manager)
            } else if old(manager).room(n) is Some {
                refused(r, 409, "Room already exists"@) && *final(manager) == *old(manager)
            } else {
                &&& accepted(r, "Room '"@ + n + "' created"@)
                &&& final(manager).room(n) matches Some(g) && g.is_new_game(n)
                &&& final(manager).others_unchanged(*old(manager), n)
            }
        }),
{
    let name = to_lowercase(string_from_chars(&trim_chars(&str_chars(typed))).as_str());
    if name.unicode_len() == 0 {
        return refusal(400, "Room name cannot be empty");
    }
    if !all_room_name_chars(name.as_str()) {
        return refusal(400, "Room name can only contain letters, numbers, hyphens and underscores");
    }
    if manager.get_room(name.as_str()).is_some() {
        return refusal(409, "Room already exists");
    }
    manager.get_or_create_room(name.as_str());
    let mut msg = "Room '".to_owned();
    msg.append(name.as_str());
    msg.append("' created");
    acceptance(msg)
}

/// Removes room `room` (the stored room goes with it elsewhere); the answer
/// does not depend on whether it existed.
pub fn admin_delete_room(manager: &mut GameManager, room: &str) -> (r: (u16, SimpleResponse))
    requires
        old(manager).wf(),
    ensures
        final(manager).wf(),
        final(manager).room(room@) is None,
        final(manager).others_unchanged(*old(manager), room@),
        accepted(r, "Room deleted"@),
{
    manager.remove_room(room);
    acceptance("Room deleted".to_owned())
}

/// The active position after the player at some position left `len` players
/// behind: back to the first when it points past them (and some remain).
pub open spec fn active_after_kick(active: usize, len: nat) -> usize {
    if active >= len && len > 0 { 0 } else { active }
}

/// `f` is `g` without the player at `i` (the others keep their positions'
/// order and ids), its active position adjusted.
pub open spec fn kicked(g: Game, f: Game, i: int) -> bool {
    &&& f.players@ == g.players@.remove(i)
    &&& f == (Game {
        players: f.players,
        active_idx: active_after_kick(g.active_idx, (g.players@.len() - 1) as nat),
        ..g
    })
}

/// Removes the player at `idx` of room `room`.
pub fn admin_kick_player(manager: &mut GameManager, room: &str, idx: usize) -> (r: (u16, SimpleResponse))
    requires
        old(manager).wf(),
    ensures
        final(manager).wf(),
        match old(manager).room(room@) {
            Some(g) => if idx < g.players@.len() {
                &&& accepted(r, "Player '"@ + g.players@[idx as int].name@ + "' kicked"@)
                &&& final(manager).room(room@) matches Some(f) && kicked(g, f, idx as int)
                &&& final(manager).others_unchanged(*old(manager), room@)
            } else {
                refused(r, 404, "Player not found"@) && *final(manager) == *old(manager)
            },
            None => refused(r, 404, "Player not found"@) && *final(manager) == *old(manager),
        },
{
    let ghost before = *manager;
    let found = match manager.get_room(room) {
        Some(g) => idx < g.players.len(),
        None => false,
    };
    if !found {
        return refusal(404, "Player not found");
    }
    let game = manager.get_room_mut(room).unwrap();
    let player = game.players.remove(idx);
    if game.active_idx >= game.players.len() && game.players.len() > 0 {
        game.active_idx = 0;
    }
    let mut msg = "Player '".to_owned();
    msg.append(player.name.as_str());
    msg.append("' kicked");
    acceptance(msg)
}

/// Sets the total and round bank of the player at `idx` of room `room` to 0.
pub fn admin_reset_player_score(manager: &mut GameManager, room: &str, idx: usize) -> (r: (u16, SimpleResponse))
    requires
        old(manager).wf(),
    ensures
        final(manager).wf(),
        match old(manager).room(room@) {
            Some(g) => if idx < g.players@.len() {
                &&& accepted(r, "Score reset"@)
                &&& final(manager).room(room@) matches Some(f) && f == (Game {
                    players: f.players,
                    ..g
                }) && f.players@ == g.players@.update(
                    idx as int,
                    Player { total: 0, round_bank: 0, ..g.players@[idx as int] },
                )
                &&& final(manager).others_unchanged(*old(manager), room@)
            } else {
                refused(r, 404, "Player not found"@) && *final(manager) == *old(manager)
            },
            None => refused(r, 404, "Player not found"@) && *final(manager) == *old(manager),
        },
{
    let found = match manager.get_room(room) {
        Some(g) => idx < g.players.len(),
        None => false,
    };
    if !found {
        return refusal(404, "Player not found");
    }
    let game = manager.get_room_mut(room).unwrap();
    game.players[idx].total = 0;
    game.players[idx].round_bank = 0;
    acceptance("Score reset".to_owned())
}

/// The position of the first player of `ps` signed in as user `uid`.
pub open spec fn first_with_user(ps: Seq<Player>, uid: i64, start: int) -> Option<int>
    decreases ps.len() - start,
{
    if start < 0 || start >= ps.len() {
        None
    } else if ps[start].user_id == Some(uid) {
        Some(start)
    } else {
        first_with_user(ps, uid, start + 1)
    }
}

proof fn lemma_first_with_user(ps: Seq<Player>, uid: i64, start: int)
    ensures
        first_with_user(ps, uid, start) matches Some(i) ==> 0 <= start <= i < ps.len() && ps[i].user_id == Some(uid),
    decreases ps.len() - start,
{
    if 0 <= start < ps.len() && ps[start].user_id != Some(uid) {
        lemma_first_with_user(ps, uid, start + 1);
    }
}

fn find_user(game: &Game, uid: i64) -> (r: Option<usize>)
    ensures
        match r {
            Some(i) => first_with_user(game.players@, uid, 0) == Some(i as int),
            None => first_with_user(game.players@, uid, 0) is None,
        },
{
    let mut i: usize = 0;
    while i < game.players.len()
        invariant
            i <= game.players@.len(),
            first_with_user(game.players@, uid, 0) == first_with_user(game.players@, uid, i as int),
        decreases game.players@.len() - i,
    {
        if game.players[i].user_id == Some(uid) {
            return Some(i);
        }
        i += 1;
    }
    None
}

/// Removes from room `room` the first player signed in as user `user_id`.
pub fn admin_kick_user(manager: &mut GameManager, room: &str, user_id: i64) -> (r: (u16, SimpleResponse))
    requires
        old(manager).wf(),
    ensures
        final(manager).wf(),
        match old(manager).room(room@) {
            Some(g) => match first_with_user(g.players@, user_id, 0) {
                Some(i) => {
                    &&& accepted(r, "User '"@ + g.players@[i].name@ + "' kicked from room"@)
                    &&& final(manager).room(room@) matches Some(f) && kicked(g, f, i)
                    &&& final(manager).others_unchanged(*old(manager), room@)
                },
                None => refused(r, 404, "User not found in room"@) && *final(manager) == *old(manager),
            },
            None => refused(r, 404, "User not found in room"@) && *final(manager) == *old(manager),
        },
{
    let found = match manager.get_room(room) {
        Some(g) => {
            proof {
                lemma_first_with_user(g.players@, user_id, 0);
            }
            find_user(g, user_id)
        },
        None => None,
    };
    let idx = match found {
        Some(i) => i,
        None => return refusal(404, "User not found in room"),
    };
    let game = manager.get_room_mut(room).unwrap();
    let player = game.players.remove(idx);
    if game.active_idx >= game.players.len() && game.players.len() > 0 {
        game.active_idx = 0;
    }
    let mut msg = "User '".to_owned();
    msg.append(player.name.as_str());
    msg.append("' kicked from room");
    acceptance(msg)
}

/// Resets the game of room `room` (see `Game::reset_game`).
pub fn admin_new_game(manager: &mut GameManager, room: &str) -> (r: (u16, SimpleResponse))
    requires
        old(manager).wf(),
    ensures
        final(manager).wf(),
        match old(manager).room(room@) {
            Some(g) => accepted(r, "New game started"@) && final(manager).others_unchanged(*old(manager), room@)
                && final(manager).room(room@) is Some,
            None => refused(r, 404, "Room not found"@) && *final(manager) == *old(manager),
        },
{
    match manager.get_room_mut(room) {
        Some(game) => {
            game.reset_game();
            acceptance("New game started".to_owned())
        },
        None => refusal(404, "Room not found"),
    }
}

// ========== LISTINGS ==========

/// A player as an admin sees it.
#[derive(Debug, Clone)]
pub struct AdminPlayerInfo {
    pub name: String,
    pub total: i32,
    pub round_bank: i32,
    pub is_connected: bool,
    pub avatar_id: i64,
}

/// A room as an admin sees it.
#[derive(Debug, Clone)]
pub struct AdminRoomInfo {
    pub name: String,
    pub player_count: usize,
    pub phase: String,
    pub has_host: bool,
    pub players: Vec<AdminPlayerInfo>,
    pub active_idx: Option<usize>,
    pub puzzle_category: Option<String>,
    pub puzzle_answer: Option<String>,
    pub revealed_count: usize,
    pub total_letters: usize,
    pub current_wedge: Option<String>,
}

/// The name of a phase, as the phase is written in the code.
pub open spec fn phase_name(p: GamePhase) -> Seq<char> {
    match p {
        GamePhase::Pregame => "Pregame"@,
        GamePhase::Normal => "Normal"@,
        GamePhase::Tossup => "Tossup"@,
        GamePhase::Final => "Final"@,
        GamePhase::Bonus => "Bonus"@,
        GamePhase::GameOver => "GameOver"@,
    }
}

fn phase_text(p: GamePhase) -> (r: String)
    ensures
        r@ == phase_name(p),
{
    match p {
        GamePhase::Pregame => "Pregame".to_owned(),
        GamePhase::Normal => "Normal".to_owned(),
        GamePhase::Tossup => "Tossup".to_owned(),
        GamePhase::Final => "Final".to_owned(),
        GamePhase::Bonus => "Bonus".to_owned(),
        GamePhase::GameOver => "GameOver".to_owned(),
    }
}

/// How an admin sees a wedge: cash as `$` and the amount, the special wedges by
/// their labels, a prize by its name.
pub open spec fn wedge_label(w: WedgeValue) -> Seq<char> {
    match w {
        WedgeValue::Cash(v) => "$"@ + signed_decimal(v as int),
        WedgeValue::Bankrupt => "BANKRUPT"@,
        WedgeValue::LoseTurn => "LOSE A TURN"@,
        WedgeValue::FreePlay => "FREE PLAY"@,
        WedgeValue::Prize { wedge_type: _, name } => name@,
    }
}

fn wedge_text(w: &WedgeValue) -> (r: String)
    ensures
        r@ == wedge_label(*w),
{
    match w {
        WedgeValue::Cash(v) => {
            let mut t = "$".to_owned();
            t.append(i64_to_decimal(*v as i64).as_str());
            t
        },
        WedgeValue::Bankrupt => "BANKRUPT".to_owned(),
        WedgeValue::LoseTurn => "LOSE A TURN".to_owned(),
        WedgeValue::FreePlay => "FREE PLAY".to_owned(),
        WedgeValue::Prize { wedge_type: _, name } => name.clone(),
    }
}

/// The number of ASCII letters of `s`.
pub open spec fn ascii_letters(s: Seq<char>) -> nat
    decreases s.len(),
{
    if s.len() == 0 {
        0
    } else {
        ascii_letters(s.drop_last()) + if is_ascii_letter(s.last()) { 1nat } else { 0nat }
    }
}

fn count_ascii_letters(s: &str) -> (r: usize)
    ensures
        r == ascii_letters(s@),
{
    let chars = str_chars(s);
    let mut n: usize = 0;
    let mut i: usize = 0;
    while i < chars.len()
        invariant
            chars@ == s@,
            i <= chars@.len(),
            n == ascii_letters(s@.take(i as int)),
            n <= i,
        decreases chars@.len() - i,
    {
        assert(s@.take(i + 1).drop_last() =~= s@.take(i as int));
        let c = chars[i];
        if (c >= 'a' && c <= 'z') || (c >= 'A' && c <= 'Z') {
            n += 1;
        }
        i += 1;
    }
    assert(s@.take(chars@.len() as int) =~= s@);
    n
}

/// `info` describes the player `p`.
pub open spec fn player_described(info: AdminPlayerInfo, p: Player) -> bool {
    &&& info.name@ == p.name@
    &&& info.total == p.total
    &&& info.round_bank == p.round_bank
    &&& info.is_connected == p.socket_id is Some
    &&& info.avatar_id == p.avatar_id
}

/// `info` describes the room `name` holding `g`.
pub open spec fn room_described(info: AdminRoomInfo, name: Seq<char>, g: Game) -> bool {
    &&& info.name@ == name
    &&& info.player_count == g.players@.len()
    &&& info.phase@ == phase_name(g.phase)
    &&& info.has_host == g.host_sid is Some
    &&& info.players@.len() == g.players@.len()
    &&& forall|j: int| 0 <= j < g.players@.len() ==> player_described(#[trigger] info.players@[j], g.players@[j])
    &&& info.active_idx == (if g.players@.len() == 0 { None } else { Some(g.active_idx) })
    &&& (match info.puzzle_category {
        Some(c) => c@ == g.puzzle.category@ && c@.len() > 0,
        None => g.puzzle.category@.len() == 0,
    })
    &&& (match info.puzzle_answer {
        Some(a) => a@ == g.puzzle.answer@ && a@.len() > 0,
        None => g.puzzle.answer@.len() == 0,
    })
    &&& info.revealed_count == g.revealed@.len()
    &&& info.total_letters == ascii_letters(g.puzzle.answer@)
    &&& (match g.current_wedge {
        Some(w) => info.current_wedge matches Some(t) && t@ == wedge_label(w),
        None => info.current_wedge is None,
    })
}

/// How an admin sees room `name` holding `game`.
pub fn admin_room_info(name: &str, game: &Game) -> (r: AdminRoomInfo)
    ensures
        room_described(r, name@, *game),
{
    let mut players: Vec<AdminPlayerInfo> = Vec::new();
    let mut i: usize = 0;
    while i < game.players.len()
        invariant
            i <= game.players@.len(),
            players@.len() == i,
            forall|j: int| 0 <= j < i ==> player_described(#[trigger] players@[j], game.players@[j]),
        decreases game.players@.len() - i,
    {
        let p = &game.players[i];
        players.push(AdminPlayerInfo {
            name: p.name.clone(),
            total: p.total,
            round_bank: p.round_bank,
            is_connected: p.socket_id.is_some(),
            avatar_id: p.avatar_id,
        });
        i += 1;
    }
    let category = if game.puzzle.category.unicode_len() == 0 { None } else { Some(game.puzzle.category.clone()) };
    let answer = if game.puzzle.answer.unicode_len() == 0 { None } else { Some(game.puzzle.answer.clone()) };
    let wedge = match &game.current_wedge {
        Some(w) => Some(wedge_text(w)),
        None => None,
    };
    AdminRoomInfo {
        name: name.to_owned(),
        player_count: game.players.len(),
        phase: phase_text(game.phase),
        has_host: game.host_sid.is_some(),
        players,
        active_idx: if game.players.len() == 0 { None } else { Some(game.active_idx) },
        puzzle_category: category,
        puzzle_answer: answer,
        revealed_count: game.revealed.len(),
        total_letters: count_ascii_letters(game.puzzle.answer.as_str()),
        current_wedge: wedge,
    }
}

/// `info` describes the room at position `j` of `m`.
pub open spec fn listed_room(m: GameManager, j: int, info: AdminRoomInfo) -> bool {
    m.room(m.room_names()[j]) matches Some(g) && room_described(info, m.room_names()[j], g)
}

/// Every room as an admin sees it, in room order.
pub fn admin_list_rooms(manager: &GameManager) -> (r: Vec<AdminRoomInfo>)
    requires
        manager.wf(),
    ensures
        r@.len() == manager.room_names().len(),
        forall|j: int| 0 <= j < r@.len() ==> listed_room(*manager, j, #[trigger] r@[j]),
{
    let listed = manager.list_rooms();
    let mut out: Vec<AdminRoomInfo> = Vec::new();
    let mut i: usize = 0;
    while i < listed.len()
        invariant
            manager.wf(),
            listed@.len() == manager.room_names().len(),
            forall|j: int| 0 <= j < listed@.len() ==> (#[trigger] listed@[j]).name@ == manager.room_names()[j],
            i <= listed@.len(),
            out@.len() == i,
            forall|j: int| 0 <= j < i ==> listed_room(*manager, j, #[trigger] out@[j]),
        decreases listed@.len() - i,
    {
        proof {
            manager.lemma_room_at(i as int);
        }
        let name = listed[i].name.as_str();
        assert(name@ == manager.room_names()[i as int]);
        assert(manager.room(name@) is Some);
        let ghost prev = out@;
        match manager.get_room(name) {
            Some(g) => {
                let info = admin_room_info(name, g);
                out.push(info);
                assert forall|j: int| 0 <= j < i + 1 implies listed_room(*manager, j, #[trigger] out@[j]) by {
                    if j < i {
                        assert(out@[j] == prev[j]);
                    }
                }
            },
            None => {
                assert(false);
            },
        }
        i += 1;
    }
    out
}

// ========== USERS ==========

/// A user as an admin sees it, with the room the user plays in, if any.
#[derive(Debug, Clone)]
pub struct AdminUserInfo {
    pub id: i64,
    pub email: String,
    pub display_name: String,
    pub verified: bool,
    pub is_admin: bool,
    pub created_at: i64,
    pub last_login_at: Option<i64>,
    pub current_room: Option<String>,
}

/// A player of the room at position `j` of `m` is signed in as user `uid`.
pub open spec fn user_in_room_at(m: GameManager, j: int, uid: i64) -> bool {
    m.room(m.room_names()[j]) matches Some(g) && first_with_user(g.players@, uid, 0) is Some
}

/// The last position below `upto` of a room with a player signed in as `uid`.
pub open spec fn last_room_with_user(m: GameManager, uid: i64, upto: int) -> Option<int>
    decreases upto,
{
    if upto <= 0 {
        None
    } else if user_in_room_at(m, upto - 1, uid) {
        Some(upto - 1)
    } else {
        last_room_with_user(m, uid, upto - 1)
    }
}

/// The room user `uid` plays in: the last room (in room order) with a player
/// signed in as that user.
pub open spec fn current_room(m: GameManager, uid: i64) -> Option<Seq<char>> {
    match last_room_with_user(m, uid, m.room_names().len() as int) {
        Some(j) => Some(m.room_names()[j]),
        None => None,
    }
}

/// The room user `uid` plays in, if any.
pub fn current_room_of(manager: &GameManager, uid: i64) -> (r: Option<String>)
    requires
        manager.wf(),
    ensures
        match current_room(*manager, uid) {
            Some(n) => r matches Some(s) && s@ == n,
            None => r is None,
        },
{
    let listed = manager.list_rooms();
    let mut found: Option<usize> = None;
    let mut i: usize = 0;
    while i < listed.len()
        invariant
            manager.wf(),
            listed@.len() == manager.room_names().len(),
            forall|j: int| 0 <= j < listed@.len() ==> (#[trigger] listed@[j]).name@ == manager.room_names()[j],
            i <= listed@.len(),
            match last_room_with_user(*manager, uid, i as int) {
                Some(j) => found == Some(j as usize) && 0 <= j < i,
                None => found is None,
            },
        decreases listed@.len() - i,
    {
        proof {
            manager.lemma_room_at(i as int);
        }
        let name = listed[i].name.as_str();
        assert(name@ == manager.room_names()[i as int]);
        match manager.get_room(name) {
            Some(g) => {
                proof {
                    lemma_first_with_user(g.players@, uid, 0);
                }
                if find_user(g, uid).is_some() {
                    found = Some(i);
                }
            },
            None => {},
        }
        i += 1;
    }
    match found {
        Some(j) => Some(listed[j].name.clone()),
        None => None,
    }
}

/// `info` shows `u`, playing in room `room`.
pub open spec fn user_described(info: AdminUserInfo, u: User, room: Option<Seq<char>>) -> bool {
    &&& info.id == u.id
    &&& info.email@ == u.email@
    &&& info.display_name@ == u.display_name@
    &&& info.verified == u.verified
    &&& info.is_admin == u.is_admin
    &&& info.created_at == u.created_at
    &&& info.last_login_at == u.last_login_at
    &&& match room {
        Some(n) => info.current_room matches Some(s) && s@ == n,
        None => info.current_room is None,
    }
}

/// Every user of `users` as an admin sees it, with the room each plays in.
pub fn admin_user_infos(manager: &GameManager, users: &Vec<User>) -> (r: Vec<AdminUserInfo>)
    requires
        manager.wf(),
    ensures
        r@.len() == users@.len(),
        forall|j: int| 0 <= j < users@.len() ==> user_described(
            #[trigger] r@[j],
            users@[j],
            current_room(*manager, users@[j].id),
        ),
{
    let mut out: Vec<AdminUserInfo> = Vec::new();
    let mut i: usize = 0;
    while i < users.len()
        invariant
            manager.wf(),
            i <= users@.len(),
            out@.len() == i,
            forall|j: int| 0 <= j < i ==> user_described(#[trigger] out@[j], users@[j], current_room(*manager, users@[j].id)),
        decreases users@.len() - i,
    {
        let u = &users[i];
        out.push(AdminUserInfo {
            id: u.id,
            email: u.email.clone(),
            display_name: u.display_name.clone(),
            verified: u.verified,
            is_admin: u.is_admin,
            created_at: u.created_at,
            last_login_at: u.last_login_at,
            current_room: current_room_of(manager, u.id),
        });
        i += 1;
    }
    out
}

// ========== SETTINGS ==========

/// Room settings an admin saves; `None` keeps a value as it is.
#[derive(Debug, Clone)]
pub struct SaveSettingsRequest {
    pub puzzle_display_seconds: Option<i32>,
    pub vowel_cost: Option<i32>,
    /// Seconds to solve in the bonus round.
    pub final_seconds: Option<i32>,
    /// The bonus round's jackpot.
    pub final_jackpot: Option<i32>,
    pub prize_wedge_names: Option<Vec<String>>,
    /// 0 means all packs.
    pub pack_id: Option<i64>,
    pub disconnect_timeout_secs: Option<i64>,
}

/// The pack a room plays after settings are saved: 0 means all packs, and none
/// given keeps the room's.
pub open spec fn saved_pack(requested: Option<i64>, existing: Option<i64>) -> Option<i64> {
    match requested {
        Some(0) => None,
        Some(id) => Some(id),
        None => existing,
    }
}

/// The settings of a room after an admin saved `req` over `existing`.
pub fn merged_settings(existing: &RoomConfig, req: SaveSettingsRequest) -> (r: RoomConfig)
    ensures
        r.vowel_cost == (match req.vowel_cost { Some(v) => v, None => existing.vowel_cost }),
        r.bonus_seconds == (match req.final_seconds { Some(v) => v, None => existing.bonus_seconds }),
        r.bonus_jackpot == (match req.final_jackpot { Some(v) => v, None => existing.bonus_jackpot }),
        r.prize_replace_cash_values@ == existing.prize_replace_cash_values@,
        r.puzzle_display_seconds == (match req.puzzle_display_seconds {
            Some(v) => v,
            None => existing.puzzle_display_seconds,
        }),
        r.prize_wedge_names@ == (match req.prize_wedge_names {
            Some(v) => v@,
            None => existing.prize_wedge_names@,
        }),
        r.pack_id == saved_pack(req.pack_id, existing.pack_id),
        r.disconnect_timeout_secs == (match req.disconnect_timeout_secs {
            Some(v) => v,
            None => existing.disconnect_timeout_secs,
        }),
        r.turn_timer_seconds == existing.turn_timer_seconds,
        r.buzz_timer_seconds == existing.buzz_timer_seconds,
{
    let mut c = existing.copy_value();
    assert(c.prize_wedge_names@ =~= existing.prize_wedge_names@);
    if let Some(v) = req.vowel_cost {
        c.vowel_cost = v;
    }
    if let Some(v) = req.final_seconds {
        c.bonus_seconds = v;
    }
    if let Some(v) = req.final_jackpot {
        c.bonus_jackpot = v;
    }
    if let Some(v) = req.puzzle_display_seconds {
        c.puzzle_display_seconds = v;
    }
    if let Some(v) = req.prize_wedge_names {
        c.prize_wedge_names = v;
    }
    c.pack_id = match req.pack_id {
        Some(0) => None,
        Some(id) => Some(id),
        None => existing.pack_id,
    };
    if let Some(v) = req.disconnect_timeout_secs {
        c.disconnect_timeout_secs = v;
    }
    c
}

/// Room `room`, if it is open, plays by `config` from now on; the answer once
/// the settings were stored.
pub fn apply_settings(manager: &mut GameManager, room: &str, config: RoomConfig) -> (r: (u16, SimpleResponse))
    requires
        old(manager).wf(),
    ensures
        final(manager).wf(),
        accepted(r, "Settings saved"@),
        final(manager).others_unchanged(*old(manager), room@),
        match old(manager).room(room@) {
            Some(g) => final(manager).room(room@) == Some(Game { config, ..g }),
            None => *final(manager) == *old(manager),
        },
{
    match manager.get_room_mut(room) {
        Some(game) => {
            game.config = config;
        },
        None => {},
    }
    acceptance("Settings saved".to_owned())
}

/// The answer when the settings could not be stored, with the error `e`.
pub fn settings_failed(e: &str) -> (r: (u16, SimpleResponse))
    ensures
        refused(r, 500, "Failed to save settings: "@ + e@),
{
    let mut msg = "Failed to save settings: ".to_owned();
    msg.append(e);
    (500, SimpleResponse { ok: false, message: None, error: Some(msg) })
}

} // verus!
