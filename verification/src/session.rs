//! Socket sessions: the answer to a socket that signs in with a session token,
//! which signed-in user each socket speaks for, the seat a signed-in player
//! takes, and the puzzle that follows a solved one.
use vstd::prelude::*;
use crate::account::Lookup;
use crate::db::User;
use crate::handlers::AuthResponse;
use crate::handlers::join_name;
use crate::manager::GameManager;
use crate::state::{clamp_avatar, has_socket, Game, Player, Puzzle};
use crate::text::{str_equal, u64_to_decimal};

verus! {

// ========== SOCKET AUTHENTICATION ==========

/// The answer to a socket that signs in with `token`, given what looking the
/// token up gave: the user's id and display name, or the reason for refusing.
/// An empty token is refused before any lookup.
pub open spec fn socket_auth_outcome(token: Seq<char>, lookup: Lookup<User>) -> Result<(i64, Seq<char>), Seq<char>> {
    if token.len() == 0 {
        Err("Token is required"@)
    } else {
        match lookup {
            Lookup::Found(u) => if !u.verified {
                Err("Account not verified"@)
            } else {
                Ok((u.id, u.display_name@))
            },
            Lookup::Missing => Err("Invalid or expired token"@),
            Lookup::Failed => Err("Database error during authentication"@),
        }
    }
}

/// Checks a socket's session token against what looking it up gave (for an
/// empty token, the lookup is not consulted).
pub fn validate_socket_auth_token(token: &str, lookup: Lookup<User>) -> (r: Result<(i64, String), &'static str>)
    ensures
        match r {
            Ok((id, name)) => socket_auth_outcome(token@, lookup) == Ok::<(i64, Seq<char>), Seq<char>>((id, name@)),
            Err(e) => socket_auth_outcome(token@, lookup) == Err::<(i64, Seq<char>), Seq<char>>(e@),
        },
{
    if token.unicode_len() == 0 {
        return Err("Token is required");
    }
    match lookup {
        Lookup::Found(u) => if !u.verified {
            Err("Account not verified")
        } else {
            Ok((u.id, u.display_name))
        },
        Lookup::Missing => Err("Invalid or expired token"),
        Lookup::Failed => Err("Database error during authentication"),
    }
}

/// The message that answers a socket's authentication.
pub fn auth_response(outcome: Result<(i64, String), &'static str>) -> (r: AuthResponse)
    ensures
        match outcome {
            Ok((id, name)) => r.ok && r.user_id == Some(id) && r.display_name == Some(name) && r.error is None,
            Err(e) => !r.ok && r.user_id is None && r.display_name is None && (r.error matches Some(t) && t@ == e@),
        },
{
    match outcome {
        Ok((id, name)) => AuthResponse { ok: true, user_id: Some(id), display_name: Some(name), error: None },
        Err(e) => AuthResponse { ok: false, user_id: None, display_name: None, error: Some(e.to_owned()) },
    }
}

/// The avatar of a user, from what looking the user up gave; `None` when the
/// user was not found or the lookup failed.
pub fn get_user_avatar_id(lookup: &Lookup<User>) -> (r: Option<i64>)
    ensures
        r == match *lookup {
            Lookup::Found(u) => Some(u.avatar_id),
            _ => None::<i64>,
        },
{
    match lookup {
        Lookup::Found(u) => Some(u.avatar_id),
        _ => None,
    }
}

// ========== WHICH USER A SOCKET SPEAKS FOR ==========

/// The signed-in users' sockets: a link between a user id and a socket id for
/// each socket that signed in as that user (a user may have several sockets,
/// and a user without sockets has no entry).
#[derive(Debug, Clone)]
pub struct SocketUsers {
    pub links: Vec<(i64, String)>,
}

/// The pair `p` is among `links`.
pub open spec fn linked(links: Seq<(i64, String)>, p: (i64, Seq<char>)) -> bool {
    exists|i: int| 0 <= i < links.len() && #[trigger] links[i].0 == p.0 && links[i].1@ == p.1
}

/// The links of `links` other than those of the socket `sid`.
pub open spec fn without_socket(links: Set<(i64, Seq<char>)>, sid: Seq<char>) -> Set<(i64, Seq<char>)> {
    links.filter(|p: (i64, Seq<char>)| p.1 != sid)
}

impl View for SocketUsers {
    type V = Set<(i64, Seq<char>)>;

    /// The set of (user id, socket id) links.
    open spec fn view(&self) -> Set<(i64, Seq<char>)> {
        Set::new(|p: (i64, Seq<char>)| linked(self.links@, p))
    }
}

impl SocketUsers {
    /// No socket has signed in.
    pub fn new() -> (r: Self)
        ensures
            r@ == Set::<(i64, Seq<char>)>::empty(),
    {
        let r = SocketUsers { links: Vec::new() };
        assert(r@ =~= Set::<(i64, Seq<char>)>::empty());
        r
    }

    /// Records that the socket `socket_id` speaks for the user `user_id`.
    pub fn link(&mut self, user_id: i64, socket_id: &str)
        ensures
            final(self)@ == old(self)@.insert((user_id, socket_id@)),
    {
        let mut i: usize = 0;
        while i < self.links.len()
            invariant
                i <= self.links@.len(),
                forall|j: int| 0 <= j < i ==> !(#[trigger] self.links@[j].0 == user_id && self.links@[j].1@ == socket_id@),
            decreases self.links@.len() - i,
        {
            if self.links[i].0 == user_id && str_equal(self.links[i].1.as_str(), socket_id) {
                assert(self@ =~= old(self)@.insert((user_id, socket_id@)));
                return;
            }
            i += 1;
        }
        let ghost before = self.links@;
        self.links.push((user_id, socket_id.to_owned()));
        proof {
            assert forall|p: (i64, Seq<char>)| #[trigger] self@.contains(p) == old(self)@.insert((user_id, socket_id@)).contains(p) by {
                if linked(before, p) {
                    let k = choose|k: int| 0 <= k < before.len() && #[trigger] before[k].0 == p.0 && before[k].1@ == p.1;
                    assert(self.links@[k] == before[k]);
                }
                if p == (user_id, socket_id@) {
                    assert(self.links@[before.len() as int].0 == p.0);
                }
                if linked(self.links@, p) {
                    let k = choose|k: int| 0 <= k < self.links@.len() && #[trigger] self.links@[k].0 == p.0
                        && self.links@[k].1@ == p.1;
                    if k < before.len() {
                        assert(before[k] == self.links@[k]);
                    }
                }
            }
            assert(self@ =~= old(self)@.insert((user_id, socket_id@)));
        }
    }

    /// Forgets the socket `socket_id`, whichever users it spoke for.
    pub fn forget_socket(&mut self, socket_id: &str)
        ensures
            final(self)@ == without_socket(old(self)@, socket_id@),
    {
        let mut kept: Vec<(i64, String)> = Vec::new();
        let mut i: usize = 0;
        while i < self.links.len()
            invariant
                i <= self.links@.len(),
                forall|p: (i64, Seq<char>)| #[trigger] linked(kept@, p) <==> (p.1 != socket_id@ && exists|j: int|
                    0 <= j < i && #[trigger] self.links@[j].0 == p.0 && self.links@[j].1@ == p.1),
            decreases self.links@.len() - i,
        {
            let ghost before = kept@;
            let (u, s) = (self.links[i].0, self.links[i].1.clone());
            if !str_equal(s.as_str(), socket_id) {
                kept.push((u, s));
            }
            proof {
                assert forall|p: (i64, Seq<char>)| #[trigger] linked(kept@, p) <==> (p.1 != socket_id@ && exists|j: int|
                    0 <= j < i + 1 && #[trigger] self.links@[j].0 == p.0 && self.links@[j].1@ == p.1) by {
                    if linked(kept@, p) {
                        let k = choose|k: int| 0 <= k < kept@.len() && #[trigger] kept@[k].0 == p.0 && kept@[k].1@ == p.1;
                        if k < before.len() {
                            assert(before[k] == kept@[k]);
                            assert(linked(before, p));
                        } else {
                            assert(self.links@[i as int].0 == p.0);
                        }
                    }
                    if p.1 != socket_id@ && exists|j: int| 0 <= j < i + 1 && #[trigger] self.links@[j].0 == p.0
                        && self.links@[j].1@ == p.1 {
                        let j = choose|j: int| 0 <= j < i + 1 && #[trigger] self.links@[j].0 == p.0
                            && self.links@[j].1@ == p.1;
                        if j < i {
                            assert(linked(before, p));
                            let k = choose|k: int| 0 <= k < before.len() && #[trigger] before[k].0 == p.0
                                && before[k].1@ == p.1;
                            assert(kept@[k] == before[k]);
                        } else {
                            assert(kept@[before.len() as int].0 == p.0);
                        }
                    }
                }
            }
            i += 1;
        }
        self.links = kept;
        proof {
            assert forall|p: (i64, Seq<char>)| #[trigger] self@.contains(p)
                == old(self)@.filter(|p: (i64, Seq<char>)| p.1 != socket_id@).contains(p) by {
                assert(linked(self.links@, p) <==> (p.1 != socket_id@ && linked(old(self).links@, p)));
            }
            assert(self@ =~= old(self)@.filter(|p: (i64, Seq<char>)| p.1 != socket_id@));
        }
    }
}

/// The user that the socket `socket_id` speaks for, if it signed in; when it
/// signed in as several users, one of them.
pub fn get_socket_user_id(users: &SocketUsers, socket_id: &str) -> (r: Option<i64>)
    ensures
        r matches Some(u) ==> users@.contains((u, socket_id@)),
        r is None ==> forall|u: i64| !users@.contains((u, socket_id@)),
{
    let mut i: usize = 0;
    while i < users.links.len()
        invariant
            i <= users.links@.len(),
            forall|j: int| 0 <= j < i ==> (#[trigger] users.links@[j]).1@ != socket_id@,
        decreases users.links@.len() - i,
    {
        if str_equal(users.links[i].1.as_str(), socket_id) {
            let u = users.links[i].0;
            assert(users.links@[i as int].0 == u);
            return Some(u);
        }
        i += 1;
    }
    proof {
        assert forall|u: i64| !users@.contains((u, socket_id@)) by {
            if linked(users.links@, (u, socket_id@)) {
                let k = choose|k: int| 0 <= k < users.links@.len() && #[trigger] users.links@[k].0 == u
                    && users.links@[k].1@ == socket_id@;
                assert(users.links@[k].1@ != socket_id@);
            }
        }
    }
    None
}

// ========== THE SEAT OF A JOINING PLAYER ==========

/// How a socket got its seat.
#[derive(Debug, Clone, Copy, PartialEq, Eq, Structural)]
pub enum Seat {
    /// The socket already played; its seat is kept.
    Kept,
    /// A seat left by a disconnected player was taken back.
    TakenBack,
    /// A new player was added.
    New,
}

/// The seat `p` may be taken back by a socket joining as `name` for the
/// signed-in user `user_id`: it has no socket, and it has that name or, for a
/// signed-in user, belongs to that user.
pub open spec fn free_for(p: Player, name: Seq<char>, user_id: Option<i64>) -> bool {
    &&& p.socket_id is None
    &&& p.name@ == name || (user_id is Some && p.user_id == user_id)
}

/// `p` with the signed-in user `user_id` recorded where it had none, and with
/// the avatar `avatar_id` where one is given.
pub open spec fn with_account(p: Player, user_id: Option<i64>, avatar_id: Option<i64>) -> Player {
    Player {
        user_id: if p.user_id is None && user_id is Some { user_id } else { p.user_id },
        avatar_id: match avatar_id {
            Some(a) => a,
            None => p.avatar_id,
        },
        ..p
    }
}

/// `f` is `g` after the socket `sid` joined under `name` for the signed-in user
/// `user_id` with the avatar `avatar_id` (both `None` for a guest), with outcome
/// `r`: a socket that already plays keeps its seat; otherwise the first seat
/// without a socket that has the chosen name or belongs to the user is taken
/// back; otherwise a new player is added. A kept or taken-back seat records the
/// user where it had none and takes the avatar.
pub open spec fn seated(
    g: Game,
    f: Game,
    sid: Seq<char>,
    name: Option<String>,
    user_id: Option<i64>,
    avatar_id: Option<i64>,
    r: (usize, Seat, String),
) -> bool {
    let n = g.players@.len();
    if exists|j: int| 0 <= j < n && has_socket(#[trigger] g.players@[j], sid) {
        let i = r.0 as int;
        &&& i < n
        &&& has_socket(g.players@[i], sid)
        &&& forall|j: int| 0 <= j < i ==> !has_socket(#[trigger] g.players@[j], sid)
        &&& r.1 == Seat::Kept
        &&& r.2 == g.players@[i].name
        &&& f.players@ == g.players@.update(i, with_account(g.players@[i], user_id, avatar_id))
        &&& f == Game { players: f.players, ..g }
    } else {
        let nm = join_name(name, n);
        if exists|j: int| 0 <= j < n && free_for(#[trigger] g.players@[j], nm, user_id) {
            let i = r.0 as int;
            let q = f.players@[i];
            &&& i < n
            &&& free_for(g.players@[i], nm, user_id)
            &&& forall|j: int| 0 <= j < i ==> !free_for(#[trigger] g.players@[j], nm, user_id)
            &&& r.1 == Seat::TakenBack
            &&& r.2 == g.players@[i].name
            &&& f.players@.len() == n
            &&& forall|j: int| 0 <= j < n && j != i ==> #[trigger] f.players@[j] == g.players@[j]
            &&& has_socket(q, sid)
            &&& q == Player { socket_id: q.socket_id, disconnected_at: None, ..with_account(g.players@[i], user_id, avatar_id) }
            &&& f == Game { players: f.players, ..g }
        } else {
            let p = f.players@[n as int];
            &&& r.0 == n
            &&& r.1 == Seat::New
            &&& r.2@ == nm
            &&& f.players@.len() == n + 1
            &&& forall|j: int| 0 <= j < n ==> #[trigger] f.players@[j] == g.players@[j]
            &&& p.id == n && p.name@ == nm && p.total == 0 && p.round_bank == 0
            &&& p.prizes@.len() == 0 && p.round_prizes@.len() == 0
            &&& has_socket(p, sid) && p.user_id == user_id && p.disconnected_at is None
            &&& p.avatar_id == clamp_avatar(match avatar_id { Some(a) => a, None => 1 })
            &&& f == Game { players: f.players, ..g }
        }
    }
}

fn free_for_idx(game: &Game, name: &String, user_id: Option<i64>) -> (r: Option<usize>)
    ensures
        r matches Some(i) ==> i < game.players@.len() && free_for(game.players@[i as int], name@, user_id)
            && forall|j: int| 0 <= j < i ==> !free_for(#[trigger] game.players@[j], name@, user_id),
        r is None ==> forall|j: int| 0 <= j < game.players@.len() ==> !free_for(#[trigger] game.players@[j], name@, user_id),
{
    let mut i: usize = 0;
    while i < game.players.len()
        invariant
            i <= game.players@.len(),
            forall|j: int| 0 <= j < i ==> !free_for(#[trigger] game.players@[j], name@, user_id),
        decreases game.players@.len() - i,
    {
        let p = &game.players[i];
        if p.socket_id.is_none() {
            let user_match = match (user_id, p.user_id) {
                (Some(u), Some(v)) => u == v,
                _ => false,
            };
            if str_equal(p.name.as_str(), name.as_str()) || user_match {
                return Some(i);
            }
        }
        i += 1;
    }
    None
}

/// A socket joins room `room` as a player, for the signed-in user `user_id` with
/// the avatar `avatar_id` (both `None` for a guest), creating the room when
/// needed. Returns the seat's index, how the seat was got, and the player's name.
pub fn handle_join_game_as(
    manager: &mut GameManager,
    room: &str,
    socket_id: &str,
    name: Option<String>,
    user_id: Option<i64>,
    avatar_id: Option<i64>,
) -> (r: (usize, Seat, String))
    requires
        old(manager).wf(),
        old(manager).room(room@) matches Some(g) ==> g.players@.len() < usize::MAX,
    ensures
        final(manager).wf(),
        final(manager).others_unchanged(*old(manager), room@),
        final(manager).room(room@) matches Some(f) && match old(manager).room(room@) {
            Some(g) => seated(g, f, socket_id@, name, user_id, avatar_id, r),
            None => exists|g: Game| #[trigger] g.is_new_game(room@) && seated(g, f, socket_id@, name, user_id, avatar_id, r),
        },
{
    let game = manager.get_or_create_room(room);
    let ghost g = *game;
    assert(old(manager).room(room@) is None ==> g.is_new_game(room@));
    if let Some(idx) = game.player_idx_by_socket(socket_id) {
        if game.players[idx].user_id.is_none() && user_id.is_some() {
            game.players[idx].user_id = user_id;
        }
        if let Some(aid) = avatar_id {
            game.players[idx].avatar_id = aid;
        }
        let nm = game.players[idx].name.clone();
        assert(game.players@ =~= g.players@.update(idx as int, with_account(g.players@[idx as int], user_id, avatar_id)));
        return (idx, Seat::Kept, nm);
    }
    let count = game.players.len();
    let name = match name {
        Some(n) => n,
        None => {
            let mut s = "Player ".to_owned();
            s.append(u64_to_decimal((count + 1) as u64).as_str());
            s
        },
    };
    match free_for_idx(game, &name, user_id) {
        Some(idx) => {
            game.players[idx].socket_id = Some(socket_id.to_owned());
            game.players[idx].disconnected_at = None;
            if game.players[idx].user_id.is_none() && user_id.is_some() {
                game.players[idx].user_id = user_id;
            }
            if let Some(aid) = avatar_id {
                game.players[idx].avatar_id = aid;
            }
            let nm = game.players[idx].name.clone();
            (idx, Seat::TakenBack, nm)
        },
        None => {
            let player_idx = game.add_player(name.clone(), Some(socket_id.to_owned()), user_id, avatar_id);
            (player_idx, Seat::New, name)
        },
    }
}

// ========== THE PUZZLE AFTER A SOLVED ONE ==========

/// After a solved puzzle has been shown for a while, starts `puzzle` in room
/// `room`, unless the room is gone or its puzzle was changed meanwhile (it is no
/// longer marked solved). Returns whether the puzzle was started.
pub fn auto_advance_puzzle(manager: &mut GameManager, room: &str, puzzle: Puzzle) -> (r: bool)
    requires
        old(manager).wf(),
    ensures
        final(manager).wf(),
        match old(manager).room(room@) {
            Some(g) => if g.puzzle_solved_by is Some {
                &&& r
                &&& final(manager).others_unchanged(*old(manager), room@)
                &&& final(manager).room(room@) matches Some(f) && Game::puzzle_started(g, f, puzzle)
            } else {
                !r && *final(manager) == *old(manager)
            },
            None => !r && *final(manager) == *old(manager),
        },
{
    let solved = match manager.get_room(room) {
        Some(game) => game.puzzle_solved_by.is_some(),
        None => false,
    };
    if !solved {
        return false;
    }
    match manager.get_room_mut(room) {
        Some(game) => {
            game.new_puzzle(puzzle);
            true
        },
        None => false,
    }
}

} // verus!
