//! The set of active game rooms, each a game under a distinct room name.
use vstd::prelude::*;
use crate::config::views;
use crate::state::Game;

verus! {

/// Room info for listing.
#[derive(Debug, Clone)]
pub struct RoomInfo {
    pub name: String,
    pub player_count: usize,
    pub has_host: bool,
}

/// The position of `name` in `names`, if it is there.
pub open spec fn index_of_name(names: Seq<Seq<char>>, name: Seq<char>) -> Option<int>
    decreases names.len(),
{
    if names.len() == 0 {
        None
    } else if names.last() == name {
        Some(names.len() - 1)
    } else {
        index_of_name(names.drop_last(), name)
    }
}

proof fn lemma_index_of_name(names: Seq<Seq<char>>, name: Seq<char>)
    ensures
        index_of_name(names, name) matches Some(i) ==> 0 <= i < names.len() && names[i] == name,
        index_of_name(names, name) is None ==> forall|j: int| 0 <= j < names.len() ==> names[j] != name,
    decreases names.len(),
{
    if names.len() > 0 {
        lemma_index_of_name(names.drop_last(), name);
        assert(forall|j: int| 0 <= j < names.len() - 1 ==> names.drop_last()[j] == names[j]);
    }
}

proof fn lemma_index_of_distinct(names: Seq<Seq<char>>, i: int)
    requires
        names.no_duplicates(),
        0 <= i < names.len(),
    ensures
        index_of_name(names, names[i]) == Some(i),
    decreases names.len(),
{
    if i < names.len() - 1 {
        assert(names.drop_last()[i] == names[i]);
        assert(names.drop_last().no_duplicates());
        lemma_index_of_distinct(names.drop_last(), i);
    }
}

/// `f` is what the game `g` becomes once the socket `sid` dropped at `now_secs`:
/// a game that involves the socket lets it go; any other stays as it was.
pub open spec fn game_after_drop(g: Game, f: Game, sid: Seq<char>, now_secs: i64) -> bool {
    if g.involves_socket(sid) {
        Game::socket_dropped(g, f, sid, now_secs)
    } else {
        f == g
    }
}

/// Manages all active game rooms.
pub struct GameManager {
    names: Vec<String>,
    games: Vec<Game>,
}

impl GameManager {
    /// The room names, each once.
    pub closed spec fn room_names(self) -> Seq<Seq<char>> {
        views(self.names@)
    }

    /// The games, in the order of `room_names`.
    pub closed spec fn games(self) -> Seq<Game> {
        self.games@
    }

    /// Names and games correspond one to one, and no name occurs twice.
    pub closed spec fn wf(self) -> bool {
        &&& self.names@.len() == self.games@.len()
        &&& views(self.names@).no_duplicates()
    }

    /// The game of room `name`, if the room exists.
    pub open spec fn room(self, name: Seq<char>) -> Option<Game> {
        match index_of_name(self.room_names(), name) {
            Some(i) => Some(self.games()[i]),
            None => None,
        }
    }

    /// Every room other than `name` is as it was in `old`.
    pub open spec fn others_unchanged(self, old: GameManager, name: Seq<char>) -> bool {
        forall|k: Seq<char>| k != name ==> #[trigger] self.room(k) == old.room(k)
    }

    proof fn lemma_shape(self)
        requires
            self.wf(),
        ensures
            self.room_names().len() == self.games().len(),
            self.room_names().no_duplicates(),
            forall|k: Seq<char>| #[trigger] index_of_name(self.room_names(), k) matches Some(i)
                ==> 0 <= i < self.room_names().len() && self.room_names()[i] == k,
            forall|k: Seq<char>| #[trigger] index_of_name(self.room_names(), k) is None
                ==> !self.room_names().contains(k),
    {
        assert forall|k: Seq<char>| (#[trigger] index_of_name(self.room_names(), k) matches Some(i)
            ==> 0 <= i < self.room_names().len() && self.room_names()[i] == k) by {
            lemma_index_of_name(self.room_names(), k);
        }
        assert forall|k: Seq<char>| #[trigger] index_of_name(self.room_names(), k) is None
            implies !self.room_names().contains(k) by {
            lemma_index_of_name(self.room_names(), k);
        }
    }

    /// The room at position `j` of the room names holds the game at `j`.
    pub proof fn lemma_room_at(self, j: int)
        requires
            self.wf(),
            0 <= j < self.room_names().len(),
        ensures
            self.room(self.room_names()[j]) == Some(self.games()[j]),
    {
        lemma_index_of_distinct(self.room_names(), j);
    }

    /// A manager with no rooms.
    pub fn new() -> (r: Self)
        ensures
            r.wf(),
            r.room_names().len() == 0,
            forall|k: Seq<char>| #[trigger] r.room(k) is None,
    {
        let r = GameManager { names: Vec::new(), games: Vec::new() };
        assert(r.room_names() =~= Seq::<Seq<char>>::empty());
        r
    }

    fn find(&self, room_name: &str) -> (r: Option<usize>)
        requires
            self.wf(),
        ensures
            r matches Some(i) ==> i < self.games().len() && index_of_name(self.room_names(), room_name@) == Some(i as int),
            r is None ==> index_of_name(self.room_names(), room_name@) is None,
    {
        let ghost names = self.room_names();
        let mut i: usize = self.names.len();
        assert(names.take(i as int) =~= names);
        while i > 0
            invariant
                self.wf(),
                names == self.room_names(),
                i <= names.len(),
                index_of_name(names, room_name@) == index_of_name(names.take(i as int), room_name@),
            decreases i,
        {
            assert(names.take(i as int).last() == self.names@[i - 1]@);
            if self.names[i - 1] == room_name.to_owned() {
                return Some(i - 1);
            }
            assert(names.take(i as int).drop_last() =~= names.take(i - 1));
            i -= 1;
        }
        None
    }

    /// The game of room `room_name`, if the room exists.
    pub fn get_room(&self, room_name: &str) -> (r: Option<&Game>)
        requires
            self.wf(),
        ensures
            match self.room(room_name@) {
                Some(g) => r == Some(&g),
                None => r is None,
            },
    {
        match self.find(room_name) {
            Some(i) => Some(&self.games[i]),
            None => None,
        }
    }

    /// The game of room `room_name`, for changing it, if the room exists.
    pub fn get_room_mut(&mut self, room_name: &str) -> (r: Option<&mut Game>)
        requires
            old(self).wf(),
        ensures
            final(self).wf(),
            final(self).room_names() == old(self).room_names(),
            match old(self).room(room_name@) {
                Some(g) => r matches Some(m) && *m == g && final(self).room(room_name@) == Some(*final(m)),
                None => r is None && *final(self) == *old(self),
            },
            final(self).others_unchanged(*old(self), room_name@),
    {
        proof {
            self.lemma_shape();
        }
        match self.find(room_name) {
            Some(i) => {
                let ghost names = self.room_names();
                let r = &mut self.games[i];
                proof {
                    assert forall|k: Seq<char>| k != room_name@ implies #[trigger] index_of_name(names, k) != Some(i as int) by {
                        lemma_index_of_name(names, k);
                    }
                }
                Some(r)
            },
            None => None,
        }
    }

    /// The game of room `room_name`, created (in pregame, with no players) when the
    /// room does not exist yet.
    pub fn get_or_create_room(&mut self, room_name: &str) -> (r: &mut Game)
        requires
            old(self).wf(),
        ensures
            final(self).wf(),
            match old(self).room(room_name@) {
                Some(g) => *r == g && final(self).room_names() == old(self).room_names(),
                None => r.is_new_game(room_name@) && final(self).room_names() == old(self).room_names().push(room_name@),
            },
            final(self).room(room_name@) == Some(*final(r)),
            final(self).others_unchanged(*old(self), room_name@),
    {
        proof {
            self.lemma_shape();
        }
        if self.find(room_name).is_none() {
            let ghost before = *self;
            self.names.push(room_name.to_owned());
            self.games.push(Game::new(room_name));
            proof {
                let n = self.games@.len() - 1;
                assert(self.room_names() =~= before.room_names().push(room_name@));
                assert(self.room_names().no_duplicates());
                lemma_index_of_distinct(self.room_names(), n as int);
                assert forall|k: Seq<char>| k != room_name@ implies #[trigger] self.room(k) == before.room(k) by {
                    assert(self.room_names().drop_last() =~= before.room_names());
                    lemma_index_of_name(before.room_names(), k);
                }
            }
        }
        let ghost mid = *self;
        assert forall|k: Seq<char>| k != room_name@ implies mid.room(k) == #[trigger] old(self).room(k) by {}
        self.get_room_mut(room_name).unwrap()
    }

    /// Every room, with its number of players and whether it has a host.
    pub fn list_rooms(&self) -> (r: Vec<RoomInfo>)
        requires
            self.wf(),
        ensures
            r@.len() == self.room_names().len(),
            forall|i: int| 0 <= i < r@.len() ==> {
                &&& (#[trigger] r@[i]).name@ == self.room_names()[i]
                &&& r@[i].player_count == self.games()[i].players@.len()
                &&& r@[i].has_host == (self.games()[i].host_sid is Some)
            },
    {
        let mut out: Vec<RoomInfo> = Vec::new();
        let mut i: usize = 0;
        while i < self.games.len()
            invariant
                self.wf(),
                i <= self.games@.len(),
                out@.len() == i,
                forall|j: int| 0 <= j < i ==> {
                    &&& (#[trigger] out@[j]).name@ == self.room_names()[j]
                    &&& out@[j].player_count == self.games()[j].players@.len()
                    &&& out@[j].has_host == (self.games()[j].host_sid is Some)
                },
            decreases self.games@.len() - i,
        {
            let g = &self.games[i];
            out.push(RoomInfo {
                name: self.names[i].clone(),
                player_count: g.players.len(),
                has_host: g.host_sid.is_some(),
            });
            i += 1;
        }
        out
    }

    /// Removes the rooms that have no players; the others stay, in order.
    pub fn cleanup_empty_rooms(&mut self)
        requires
            old(self).wf(),
        ensures
            final(self).wf(),
            forall|k: Seq<char>| #[trigger] final(self).room(k) == match old(self).room(k) {
                Some(g) => if g.players@.len() > 0 { Some(g) } else { None },
                None => None,
            },
    {
        let ghost before = *self;
        proof {
            before.lemma_shape();
        }
        let mut names: Vec<String> = Vec::new();
        let mut games: Vec<Game> = Vec::new();
        let mut rest_names: Vec<String> = Vec::new();
        let mut rest_games: Vec<Game> = Vec::new();
        std::mem::swap(&mut rest_names, &mut self.names);
        std::mem::swap(&mut rest_games, &mut self.games);
        let mut kept_from: Ghost<Seq<int>> = Ghost(Seq::empty());
        let n = rest_games.len();
        let mut i: usize = 0;
        while i < n
            invariant
                n == before.games().len(),
                before.wf(),
                i <= n,
                rest_games@.len() == n - i,
                rest_names@.len() == n - i,
                forall|j: int| 0 <= j < n - i ==> #[trigger] rest_games@[j] == before.games()[i + j],
                forall|j: int| 0 <= j < n - i ==> (#[trigger] rest_names@[j])@ == before.room_names()[i + j],
                names@.len() == games@.len(),
                names@.len() == kept_from@.len(),
                forall|j: int, l: int| 0 <= j < l < kept_from@.len() ==> kept_from@[j] < kept_from@[l],
                forall|j: int| 0 <= j < kept_from@.len() ==> 0 <= #[trigger] kept_from@[j] < i,
                forall|j: int| 0 <= j < kept_from@.len() ==> {
                    &&& (#[trigger] names@[j])@ == before.room_names()[kept_from@[j]]
                    &&& games@[j] == before.games()[kept_from@[j]]
                    &&& games@[j].players@.len() > 0
                },
                forall|m: int| 0 <= m < i && before.games()[m].players@.len() > 0
                    ==> exists|j: int| 0 <= j < kept_from@.len() && #[trigger] kept_from@[j] == m,
            decreases n - i,
        {
            assert(rest_games@[0] == before.games()[i as int]);
            assert(rest_names@[0]@ == before.room_names()[i as int]);
            let g = rest_games.remove(0);
            let name = rest_names.remove(0);
            if g.players.len() > 0 {
                let ghost prev_names = names@;
                let ghost prev_games = games@;
                proof {
                    let prev = kept_from@;
                    kept_from@ = kept_from@.push(i as int);
                    assert(kept_from@[prev.len() as int] == i);
                    assert forall|m: int| 0 <= m < i && before.games()[m].players@.len() > 0
                        implies exists|j: int| 0 <= j < kept_from@.len() && #[trigger] kept_from@[j] == m by {
                        let j = choose|j: int| 0 <= j < prev.len() && #[trigger] prev[j] == m;
                        assert(kept_from@[j] == prev[j]);
                    }
                }
                names.push(name);
                games.push(g);
                proof {
                    let ks = kept_from@;
                    assert forall|j: int| 0 <= j < ks.len() implies {
                        &&& (#[trigger] names@[j])@ == before.room_names()[ks[j]]
                        &&& games@[j] == before.games()[ks[j]]
                        &&& games@[j].players@.len() > 0
                    } by {
                        if j < ks.len() - 1 {
                            assert(names@[j] == prev_names[j]);
                            assert(games@[j] == prev_games[j]);
                        }
                    }
                }
            }
            i += 1;
        }
        self.names = names;
        self.games = games;
        proof {
            let ks = kept_from@;
            let bn = before.room_names();
            assert forall|a: int, b: int| 0 <= a < b < self.room_names().len()
                implies self.room_names()[a] != self.room_names()[b] by {
                assert(self.room_names()[a] == bn[ks[a]]);
                assert(self.room_names()[b] == bn[ks[b]]);
            }
            assert(self.wf());
            self.lemma_shape();
            assert forall|k: Seq<char>| #[trigger] self.room(k) == match before.room(k) {
                Some(g) => if g.players@.len() > 0 { Some(g) } else { None },
                None => None,
            } by {
                match index_of_name(self.room_names(), k) {
                    Some(j) => {
                        assert(self.room_names()[j] == bn[ks[j]]);
                        lemma_index_of_distinct(bn, ks[j]);
                    },
                    None => {
                        match index_of_name(bn, k) {
                            Some(m) => {
                                if before.games()[m].players@.len() > 0 {
                                    let j = choose|j: int| 0 <= j < ks.len() && #[trigger] ks[j] == m;
                                    assert(self.room_names()[j] == k);
                                    assert(self.room_names().contains(k));
                                }
                            },
                            None => {},
                        }
                    },
                }
            }
        }
    }

    /// The socket `socket_id` dropped at `now_secs` (Unix seconds): every room
    /// that involves it lets it go (see `Game::socket_dropped`); the other rooms
    /// are left as they were.
    pub fn disconnect_socket_at(&mut self, socket_id: &str, now_secs: i64)
        requires
            old(self).wf(),
        ensures
            final(self).wf(),
            final(self).room_names() == old(self).room_names(),
            forall|k: Seq<char>| #![trigger final(self).room(k)] match old(self).room(k) {
                Some(g) => final(self).room(k) matches Some(f) && game_after_drop(g, f, socket_id@, now_secs),
                None => final(self).room(k) is None,
            },
    {
        proof {
            self.lemma_shape();
        }
        let ghost before = *self;
        let mut i: usize = 0;
        while i < self.games.len()
            invariant
                before.wf(),
                self.names == before.names,
                self.games@.len() == before.games@.len(),
                i <= self.games@.len(),
                forall|j: int| 0 <= j < i ==> game_after_drop(before.games@[j], #[trigger] self.games@[j], socket_id@, now_secs),
                forall|j: int| i <= j < self.games@.len() ==> #[trigger] self.games@[j] == before.games@[j],
            decreases self.games@.len() - i,
        {
            if self.games[i].involves_socket_exec(socket_id) {
                let g = &mut self.games[i];
                g.disconnect_socket_at(socket_id, now_secs);
            }
            i += 1;
        }
        proof {
            assert(self.room_names() == before.room_names());
            assert forall|k: Seq<char>| #![trigger self.room(k)] match before.room(k) {
                Some(g) => self.room(k) matches Some(f) && game_after_drop(g, f, socket_id@, now_secs),
                None => self.room(k) is None,
            } by {
                lemma_index_of_name(before.room_names(), k);
            }
        }
    }

    /// Removes room `room_name`, handing back its game if it existed.
    pub fn remove_room(&mut self, room_name: &str) -> (r: Option<Game>)
        requires
            old(self).wf(),
        ensures
            final(self).wf(),
            r == old(self).room(room_name@),
            final(self).room(room_name@) is None,
            final(self).others_unchanged(*old(self), room_name@),
    {
        proof {
            self.lemma_shape();
        }
        match self.find(room_name) {
            Some(i) => {
                let ghost before = *self;
                let _name = self.names.remove(i);
                let g = self.games.remove(i);
                proof {
                    let bn = before.room_names();
                    assert(self.room_names() =~= bn.remove(i as int));
                    assert(self.room_names().no_duplicates()) by {
                        assert forall|a: int, b: int| 0 <= a < b < self.room_names().len()
                            implies self.room_names()[a] != self.room_names()[b] by {
                            let a2 = if a < i { a } else { a + 1 };
                            let b2 = if b < i { b } else { b + 1 };
                            assert(self.room_names()[a] == bn[a2]);
                            assert(self.room_names()[b] == bn[b2]);
                        }
                    }
                    self.lemma_shape();
                    assert forall|k: Seq<char>| #[trigger] self.room(k) == (if k == room_name@ { None } else { before.room(k) }) by {
                        match index_of_name(self.room_names(), k) {
                            Some(j) => {
                                let j2 = if j < i { j } else { j + 1 };
                                assert(self.room_names()[j] == bn[j2]);
                                lemma_index_of_distinct(bn, j2);
                                assert(self.games()[j] == before.games()[j2]);
                            },
                            None => {
                                match index_of_name(bn, k) {
                                    Some(m) => {
                                        if m != i {
                                            let j = if m < i { m } else { m - 1 };
                                            assert(self.room_names()[j] == k);
                                            assert(self.room_names().contains(k));
                                        }
                                    },
                                    None => {},
                                }
                            },
                        }
                    }
                }
                Some(g)
            },
            None => None,
        }
    }
}

} // verus!
