//! Drawing rooms: who is connected to each board's live session, the latest
//! version of each element drawn during it, and how session messages are
//! routed.
use vstd::prelude::*;
use vstd::string::{StrSliceExecFns, StringExecFns};
use crate::handlers::{Query, Reply, Step, board_of, is_done, permission_of, reply_board, reply_permission, reply_user, user_of};
use crate::handlers::board::{ROLE_EDITOR, ROLE_OWNER};
use crate::keyed::{has_key, lemma_dom, lemma_push, lemma_push_unique, lemma_remove, lemma_update, lemma_same_keys, lemma_value, pairs_to_map, unique_keys};

verus! {

/// What the service knows of one room: the addresses of the users in it and
/// the latest text of each element drawn since it opened, by element id.
pub ghost struct RoomState {
    pub users: Set<Seq<char>>,
    pub buffer: Map<Seq<char>, Seq<char>>,
}

/// The room of one board, with the channel `C` its messages go through.
pub struct Room<C> {
    board: String,
    users: Vec<String>,
    buffer: Vec<(String, String)>,
    channel: C,
}

/// The open rooms, by board.
pub struct Rooms<C> {
    rooms: Vec<Room<C>>,
}

pub open spec fn names(users: Seq<String>) -> Seq<Seq<char>> {
    users.map_values(|u: String| u@)
}

pub open spec fn entries(buffer: Seq<(String, String)>) -> Seq<(Seq<char>, Seq<char>)> {
    buffer.map_values(|e: (String, String)| (e.0@, e.1@))
}

impl<C> Room<C> {
    pub closed spec fn wf(self) -> bool {
        names(self.users@).no_duplicates() && unique_keys(entries(self.buffer@))
    }

    pub closed spec fn state(self) -> RoomState {
        RoomState { users: names(self.users@).to_set(), buffer: pairs_to_map(entries(self.buffer@)) }
    }
}

/// The room a user joins: the users it had (none if it was not open) with
/// `email` added, and the elements it had (none if it was not open).
pub open spec fn joined(rooms: Map<Seq<char>, RoomState>, board: Seq<char>, email: Seq<char>) -> RoomState {
    if rooms.dom().contains(board) {
        RoomState { users: rooms[board].users.insert(email), buffer: rooms[board].buffer }
    } else {
        RoomState { users: Set::empty().insert(email), buffer: Map::empty() }
    }
}

fn contains_name(users: &Vec<String>, email: &String) -> (r: Option<usize>)
    ensures
        r matches Some(j) ==> j < users@.len() && users@[j as int]@ == email@,
        r is None ==> !names(users@).contains(email@),
{
    let mut j: usize = 0;
    while j < users.len()
        invariant
            j <= users@.len(),
            forall|k: int| 0 <= k < j ==> users@[k]@ != email@,
        decreases users@.len() - j,
    {
        if users[j] == *email {
            return Some(j);
        }
        j = j + 1;
    }
    None
}

fn find_entry(buffer: &Vec<(String, String)>, id: &String) -> (r: Option<usize>)
    ensures
        r matches Some(j) ==> j < buffer@.len() && buffer@[j as int].0@ == id@,
        r is None ==> !has_key(entries(buffer@), id@),
{
    let mut j: usize = 0;
    while j < buffer.len()
        invariant
            j <= buffer@.len(),
            forall|k: int| 0 <= k < j ==> buffer@[k].0@ != id@,
        decreases buffer@.len() - j,
    {
        if buffer[j].0 == *id {
            return Some(j);
        }
        j = j + 1;
    }
    None
}

impl<C> Rooms<C> {
    pub closed spec fn pairs(self) -> Seq<(Seq<char>, RoomState)> {
        self.rooms@.map_values(|r: Room<C>| (r.board@, r.state()))
    }

    /// Boards are unique and every room is well formed.
    pub closed spec fn wf(self) -> bool {
        &&& unique_keys(self.pairs())
        &&& forall|i: int| 0 <= i < self.rooms@.len() ==> #[trigger] self.rooms@[i].wf()
    }

    /// The rooms by board.
    pub closed spec fn state(self) -> Map<Seq<char>, RoomState> {
        pairs_to_map(self.pairs())
    }

    pub closed spec fn chan_pairs(self) -> Seq<(Seq<char>, C)> {
        self.rooms@.map_values(|r: Room<C>| (r.board@, r.channel))
    }

    /// The channel of each open room, by board.
    pub closed spec fn channels(self) -> Map<Seq<char>, C> {
        pairs_to_map(self.chan_pairs())
    }

    /// Every open room has a channel, and only open rooms have one.
    pub proof fn lemma_channels_of_open_rooms(self)
        requires
            self.wf(),
        ensures
            unique_keys(self.chan_pairs()),
            self.channels().dom() == self.state().dom(),
    {
        lemma_same_keys(self.pairs(), self.chan_pairs());
    }

    /// No room is open.
    pub fn new() -> (r: Rooms<C>)
        ensures
            r.wf(),
            r.state() == Map::<Seq<char>, RoomState>::empty(),
            r.channels() == Map::<Seq<char>, C>::empty(),
    {
        let r = Rooms { rooms: Vec::new() };
        assert(r.pairs() =~= Seq::<(Seq<char>, RoomState)>::empty());
        assert(r.chan_pairs() =~= Seq::<(Seq<char>, C)>::empty());
        r
    }

    fn find(&self, board: &String) -> (r: Option<usize>)
        ensures
            r matches Some(i) ==> i < self.rooms@.len() && self.rooms@[i as int].board@ == board@,
            r is None ==> !has_key(self.pairs(), board@),
    {
        let mut i: usize = 0;
        while i < self.rooms.len()
            invariant
                i <= self.rooms@.len(),
                forall|k: int| 0 <= k < i ==> self.rooms@[k].board@ != board@,
            decreases self.rooms@.len() - i,
        {
            if self.rooms[i].board == *board {
                return Some(i);
            }
            i = i + 1;
        }
        None
    }

    /// Takes out the room of `board`, leaving the others as they were.
    fn take(&mut self, board: &String) -> (r: Option<Room<C>>)
        requires
            old(self).wf(),
        ensures
            final(self).wf(),
            r is None ==> !old(self).state().dom().contains(board@) && final(self).state() == old(self).state()
                && final(self).channels() == old(self).channels(),
            r matches Some(room) ==> {
                &&& old(self).state().dom().contains(board@)
                &&& room.board@ == board@
                &&& room.wf()
                &&& old(self).state()[board@] == room.state()
                &&& final(self).state() == old(self).state().remove(board@)
                &&& !final(self).state().dom().contains(board@)
                &&& old(self).channels()[board@] == room.channel
                &&& final(self).channels() == old(self).channels().remove(board@)
            },
    {
        proof {
            lemma_dom(self.pairs(), board@);
            self.lemma_channels_of_open_rooms();
        }
        match self.find(board) {
            None => None,
            Some(i) => {
                let ghost before = *self;
                proof {
                    lemma_value(before.pairs(), i as int);
                    lemma_remove(before.pairs(), i as int);
                    lemma_value(before.chan_pairs(), i as int);
                    lemma_remove(before.chan_pairs(), i as int);
                }
                let room = self.rooms.remove(i);
                assert(self.pairs() =~= before.pairs().remove(i as int));
                assert(self.chan_pairs() =~= before.chan_pairs().remove(i as int));
                assert(before.rooms@[i as int].wf());
                proof {
                    lemma_dom(self.pairs(), board@);
                }
                Some(room)
            },
        }
    }

    /// Puts back a room whose board has none open.
    fn put(&mut self, room: Room<C>)
        requires
            old(self).wf(),
            room.wf(),
            !old(self).state().dom().contains(room.board@),
        ensures
            final(self).wf(),
            final(self).state() == old(self).state().insert(room.board@, room.state()),
            final(self).channels() == old(self).channels().insert(room.board@, room.channel),
    {
        let ghost before = *self;
        proof {
            lemma_dom(before.pairs(), room.board@);
            lemma_push(before.pairs(), (room.board@, room.state()));
            lemma_push_unique(before.pairs(), (room.board@, room.state()));
            lemma_push(before.chan_pairs(), (room.board@, room.channel));
        }
        let ghost entry = (room.board@, room.channel);
        self.rooms.push(room);
        assert(self.chan_pairs() =~= before.chan_pairs().push(entry));
        assert(self.pairs() =~= before.pairs().push((room.board@, room.state())));
    }

    /// `email` joins the room of `board`, which opens with channel `fresh`
    /// if it was not open. The session may go on only for a non-empty
    /// address (an empty one is still recorded in the room).
    pub fn join(&mut self, board: &String, email: &String, fresh: C) -> (may_start: bool)
        requires
            old(self).wf(),
        ensures
            final(self).wf(),
            final(self).state() == old(self).state().insert(board@, joined(old(self).state(), board@, email@)),
            old(self).state().dom().contains(board@) ==> final(self).channels() == old(self).channels(),
            !old(self).state().dom().contains(board@) ==> final(self).channels() == old(self).channels().insert(
                board@,
                fresh,
            ),
            may_start == (email@.len() > 0),
    {
        let ghost before = self.state();
        let ghost before_channels = self.channels();
        proof {
            self.lemma_channels_of_open_rooms();
        }
        let mut room = match self.take(board) {
            Some(r) => r,
            None => Room { board: board.clone(), users: Vec::new(), buffer: Vec::new(), channel: fresh },
        };
        let ghost old_names = names(room.users@);
        proof {
            if !before.dom().contains(board@) {
                assert(old_names =~= Seq::<Seq<char>>::empty());
            }
            assert(old_names.to_set().insert(email@) =~= joined(before, board@, email@).users);
        }
        match contains_name(&room.users, email) {
            Some(j) => {
                assert(old_names[j as int] == email@);
                assert(old_names.to_set() =~= old_names.to_set().insert(email@));
            },
            None => {
                room.users.push(email.clone());
                assert(names(room.users@) =~= old_names.push(email@));
                proof {
                    old_names.lemma_push_to_set_commute(email@);
                }
                assert(names(room.users@).no_duplicates());
            },
        }
        assert(names(room.users@).to_set() =~= joined(before, board@, email@).users);
        proof {
            if !before.dom().contains(board@) {
                assert(entries(room.buffer@) =~= Seq::<(Seq<char>, Seq<char>)>::empty());
                assert(pairs_to_map(entries(room.buffer@)) =~= Map::<Seq<char>, Seq<char>>::empty());
            }
        }
        assert(room.state() == joined(before, board@, email@));
        self.put(room);
        assert(self.state() =~= before.insert(board@, joined(before, board@, email@)));
        assert(before.dom().contains(board@) ==> self.channels() =~= before_channels);
        email.unicode_len() > 0
    }

    /// The channel of the room of `board`, if it is open.
    pub fn channel(&self, board: &String) -> (r: Option<&C>)
        requires
            self.wf(),
        ensures
            r is Some <==> self.state().dom().contains(board@),
            r matches Some(c) ==> *c == self.channels()[board@],
    {
        proof {
            lemma_dom(self.pairs(), board@);
            self.lemma_channels_of_open_rooms();
        }
        match self.find(board) {
            Some(i) => {
                assert(self.pairs()[i as int].0 == board@);
                proof {
                    lemma_value(self.chan_pairs(), i as int);
                }
                Some(&self.rooms[i].channel)
            },
            None => None,
        }
    }

    /// The elements drawn in the room of `board`: the latest text of each
    /// element id, each id once (none if the room is not open).
    pub fn buffered_elements(&self, board: &String) -> (r: Vec<String>)
        requires
            self.wf(),
        ensures
            !self.state().dom().contains(board@) ==> r@.len() == 0,
            self.state().dom().contains(board@) ==> exists|ids: Seq<Seq<char>>|
                {
                    &&& ids.no_duplicates()
                    &&& ids.to_set() == self.state()[board@].buffer.dom()
                    &&& ids.len() == r@.len()
                    &&& forall|i: int| 0 <= i < ids.len() ==> #[trigger] r@[i]@ == self.state()[board@].buffer[ids[i]]
                },
    {
        proof {
            lemma_dom(self.pairs(), board@);
        }
        let i = match self.find(board) {
            Some(i) => i,
            None => {
                return Vec::new();
            },
        };
        proof {
            lemma_value(self.pairs(), i as int);
        }
        let room = &self.rooms[i];
        assert(room.wf());
        let ghost es = entries(room.buffer@);
        let mut r: Vec<String> = Vec::new();
        let mut j: usize = 0;
        while j < room.buffer.len()
            invariant
                j <= room.buffer@.len(),
                r@.len() == j,
                es == entries(room.buffer@),
                forall|k: int| 0 <= k < j ==> #[trigger] r@[k]@ == es[k].1,
            decreases room.buffer@.len() - j,
        {
            r.push(room.buffer[j].1.clone());
            j = j + 1;
        }
        let ghost ids = es.map_values(|e: (Seq<char>, Seq<char>)| e.0);
        proof {
            let m = pairs_to_map(es);
            assert(ids.no_duplicates());
            assert forall|k: Seq<char>| ids.to_set().contains(k) <==> m.dom().contains(k) by {
                lemma_dom(es, k);
                if m.dom().contains(k) {
                    let x = choose|x: int| 0 <= x < es.len() && es[x].0 == k;
                    assert(ids[x] == k);
                }
            }
            assert(ids.to_set() =~= m.dom());
            assert forall|k: int| 0 <= k < ids.len() implies #[trigger] r@[k]@ == m[ids[k]] by {
                lemma_value(es, k);
            }
        }
        r
    }

    /// Records the latest text `json` of element `id` in the room of
    /// `board`; nothing happens where the room is not open.
    pub fn record_drawing(&mut self, board: &String, id: String, json: String)
        requires
            old(self).wf(),
        ensures
            final(self).wf(),
            old(self).state().dom().contains(board@) ==> final(self).state() == old(self).state().insert(
                board@,
                RoomState {
                    users: old(self).state()[board@].users,
                    buffer: old(self).state()[board@].buffer.insert(id@, json@),
                },
            ),
            !old(self).state().dom().contains(board@) ==> final(self).state() == old(self).state(),
            final(self).channels() == old(self).channels(),
    {
        let ghost before = self.state();
        let ghost before_channels = self.channels();
        proof {
            self.lemma_channels_of_open_rooms();
        }
        let mut room = match self.take(board) {
            Some(r) => r,
            None => {
                return;
            },
        };
        let ghost old_es = entries(room.buffer@);
        match find_entry(&room.buffer, &id) {
            Some(j) => {
                proof {
                    lemma_update(old_es, j as int, json@);
                }
                room.buffer.set(j, (id, json));
                assert(entries(room.buffer@) =~= old_es.update(j as int, (old_es[j as int].0, json@)));
            },
            None => {
                proof {
                    lemma_push(old_es, (id@, json@));
                    lemma_push_unique(old_es, (id@, json@));
                }
                room.buffer.push((id, json));
                assert(entries(room.buffer@) =~= old_es.push((id@, json@)));
            },
        }
        self.put(room);
        assert(self.state() =~= before.insert(
            board@,
            RoomState { users: before[board@].users, buffer: before[board@].buffer.insert(id@, json@) },
        ));
        assert(self.channels() =~= before_channels);
    }

    /// `email` leaves the open room of `board`; the answer says whether the
    /// room is now empty.
    pub fn leave(&mut self, board: &String, email: &String) -> (empty: bool)
        requires
            old(self).wf(),
            old(self).state().dom().contains(board@),
        ensures
            final(self).wf(),
            final(self).state() == old(self).state().insert(
                board@,
                RoomState {
                    users: old(self).state()[board@].users.remove(email@),
                    buffer: old(self).state()[board@].buffer,
                },
            ),
            empty == (final(self).state()[board@].users == Set::<Seq<char>>::empty()),
            final(self).channels() == old(self).channels(),
    {
        let ghost before = self.state();
        let ghost before_channels = self.channels();
        proof {
            self.lemma_channels_of_open_rooms();
        }
        let mut room = match self.take(board) {
            Some(r) => r,
            None => {
                assert(false);
                return false;
            },
        };
        let ghost old_names = names(room.users@);
        match contains_name(&room.users, email) {
            Some(j) => {
                assert(old_names[j as int] == email@);
                assert(old_names.no_duplicates());
                room.users.remove(j);
                assert(names(room.users@) =~= old_names.remove(j as int));
                assert(names(room.users@).to_set() =~= old_names.to_set().remove(email@)) by {
                    assert forall|x: Seq<char>| names(room.users@).contains(x) implies old_names.contains(x) && x != email@ by {
                        let k = choose|k: int| 0 <= k < names(room.users@).len() && names(room.users@)[k] == x;
                        if k < j {
                            assert(old_names[k] == x);
                            assert(old_names[k] != old_names[j as int]);
                        } else {
                            assert(old_names[k + 1] == x);
                            assert(old_names[k + 1] != old_names[j as int]);
                        }
                    }
                    assert forall|x: Seq<char>| old_names.contains(x) && x != email@ implies names(room.users@).contains(x) by {
                        let k = choose|k: int| 0 <= k < old_names.len() && old_names[k] == x;
                        if k < j {
                            assert(names(room.users@)[k] == x);
                        } else {
                            assert(k != j);
                            assert(names(room.users@)[k - 1] == x);
                        }
                    }
                }
            },
            None => {
                assert(old_names.to_set() =~= old_names.to_set().remove(email@));
            },
        }
        let empty = room.users.len() == 0;
        proof {
            if empty {
                assert(names(room.users@).to_set() =~= Set::<Seq<char>>::empty());
            } else {
                assert(names(room.users@).to_set().contains(names(room.users@)[0]));
            }
        }
        self.put(room);
        assert(self.state() =~= before.insert(
            board@,
            RoomState { users: before[board@].users.remove(email@), buffer: before[board@].buffer },
        ));
        assert(self.channels() =~= before_channels);
        empty
    }

    /// Closes the room of `board`.
    pub fn close(&mut self, board: &String)
        requires
            old(self).wf(),
        ensures
            final(self).wf(),
            final(self).state() == old(self).state().remove(board@),
            final(self).channels() == old(self).channels().remove(board@),
    {
        let ghost before = self.state();
        let ghost before_channels = self.channels();
        proof {
            self.lemma_channels_of_open_rooms();
        }
        let r = self.take(board);
        if r.is_none() {
            assert(before.remove(board@) =~= before);
            assert(before_channels.remove(board@) =~= before_channels);
        }
    }
}

} // verus!

verus! {

/// `name: text`, the line a user's message is broadcast as.
pub open spec fn chat_line_spec(name: Seq<char>, text: Seq<char>) -> Seq<char> {
    name + ": "@ + text
}

/// The line broadcast for a message `text` from `name`.
pub fn chat_line(name: &str, text: &str) -> (r: String)
    ensures
        r@ == chat_line_spec(name@, text@),
{
    let mut r = name.to_owned();
    r.append(": ");
    r.append(text);
    r
}

/// The notice broadcast when `email` joins.
pub fn joined_notice(email: &str) -> (r: String)
    ensures
        r@ == email@ + " joined the chat!"@,
{
    let mut r = email.to_owned();
    r.append(" joined the chat!");
    r
}

/// The notice broadcast when `email` leaves.
pub fn left_notice(email: &str) -> (r: String)
    ensures
        r@ == email@ + " left the chat!"@,
{
    let mut r = email.to_owned();
    r.append(" left the chat!");
    r
}

/// The line that replays a drawn element to a newcomer.
pub fn replay_line(element: &str) -> (r: String)
    ensures
        r@ == "system:"@ + element@,
{
    let mut r = String::from_str("system:");
    r.append(element);
    r
}

/// Whether a user holding `role` on a board may change its drawing: an
/// Editor or an Owner may; a Viewer may only look at it and export it.
pub open spec fn may_edit(role: i32) -> bool {
    role == ROLE_EDITOR || role == ROLE_OWNER
}

/// The line a message `text` from `name`, who holds `role` on the board, is
/// broadcast as; none for a user who may not change the board, so that
/// their elements are neither sent to the others nor kept in the room.
pub fn outgoing_line(name: &str, role: i32, text: &str) -> (r: Option<String>)
    ensures
        r is Some <==> may_edit(role),
        r matches Some(line) ==> line@ == chat_line_spec(name@, text@),
{
    if role == ROLE_EDITOR || role == ROLE_OWNER {
        Some(chat_line(name, text))
    } else {
        None
    }
}

/// Whether a broadcast line goes out to the user `email`: every line except
/// those that start with the address (the user's own messages and notices).
pub fn should_forward(line: &str, email: &str) -> (b: bool)
    ensures
        b == !crate::text::is_prefix(email@, line@),
{
    !crate::text::starts_with(line, email)
}

/// The drawing a broadcast line carries: the text after its first ": ".
pub fn drawing_part(line: &str) -> (r: Option<String>)
    ensures
        r is None <==> (forall|k: int| !crate::text::occurs_at(line@, ": "@, k)),
        r matches Some(d) ==> exists|name: Seq<char>| {
            &&& line@ == #[trigger] chat_line_spec(name, d@)
            &&& forall|k: int| 0 <= k < name.len() ==> !crate::text::occurs_at(line@, ": "@, k)
        },
{
    proof {
        reveal_strlit(": ");
    }
    match crate::text::split_once(line, ": ") {
        Some((name, d)) => {
            assert(line@ == chat_line_spec(name@, d@));
            assert(forall|k: int| 0 <= k < name@.len() ==> !crate::text::occurs_at(line@, ": "@, k));
            let r = Some(d);
            assert(r matches Some(dd) ==> exists|nm: Seq<char>| {
                &&& line@ == #[trigger] chat_line_spec(nm, dd@)
                &&& forall|k: int| 0 <= k < nm.len() ==> !crate::text::occurs_at(line@, ": "@, k)
            }) by {
                assert(line@ == chat_line_spec(name@, r->0@));
            }
            r
        },
        None => None,
    }
}

/// Why a user may not enter a board's room.
#[derive(Clone, Copy, Debug, PartialEq, Eq, Structural)]
pub enum Refusal {
    NoDatabase,
    InvalidBoardId,
    NoSuchUser,
    NoSuchBoard,
}

pub open spec fn refusal_text(r: Refusal) -> Seq<char> {
    match r {
        Refusal::NoDatabase => "Failed to get database connection!"@,
        Refusal::InvalidBoardId => "Invalid board ID format!"@,
        Refusal::NoSuchUser => "User does not exist!"@,
        Refusal::NoSuchBoard => "Board does not exist"@,
    }
}

impl Refusal {
    /// What the user is told.
    pub fn message(&self) -> (r: String)
        ensures
            r@ == refusal_text(*self),
    {
        match self {
            Refusal::NoDatabase => String::from_str("Failed to get database connection!"),
            Refusal::InvalidBoardId => String::from_str("Invalid board ID format!"),
            Refusal::NoSuchUser => String::from_str("User does not exist!"),
            Refusal::NoSuchBoard => String::from_str("Board does not exist"),
        }
    }
}

/// Whether a user enters a board's room: admitted to board `id` with the
/// role they hold on it (the owner holds the Owner role), or refused.
#[derive(Clone, Copy, Debug, PartialEq, Eq, Structural)]
pub enum Admission {
    Admitted(i32, i32),
    Refused(Refusal),
}

/// Entering the room of the board named by `board_text`: it must be a board
/// id, the user must exist, and the board must exist and be the user's or
/// shared with them (a board that is not is reported as not existing).
pub open spec fn admission_next(email: String, board_text: Seq<char>, rs: Seq<Reply>) -> Step<Admission> {
    if rs.len() == 0 {
        Step::Run(Query::Connect)
    } else if !is_done(rs[0]) {
        Step::Finish(Ok(Admission::Refused(Refusal::NoDatabase)))
    } else {
        match crate::text::spec_parse_i32(board_text) {
            None => Step::Finish(Ok(Admission::Refused(Refusal::InvalidBoardId))),
            Some(id) => if rs.len() == 1 {
                Step::Run(Query::FindUserByEmail(email))
            } else {
                match user_of(rs[1]) {
                    None => Step::Finish(Ok(Admission::Refused(Refusal::NoSuchUser))),
                    Some(u) => if rs.len() == 2 {
                        Step::Run(Query::FindBoard(id))
                    } else {
                        match board_of(rs[2]) {
                            None => Step::Finish(Ok(Admission::Refused(Refusal::NoSuchBoard))),
                            Some(b) => if u.id == b.owner_id {
                                Step::Finish(Ok(Admission::Admitted(id, ROLE_OWNER)))
                            } else if rs.len() == 3 {
                                Step::Run(Query::FindPermission { user_id: u.id, board_id: b.id })
                            } else {
                                match permission_of(rs[3]) {
                                    None => Step::Finish(Ok(Admission::Refused(Refusal::NoSuchBoard))),
                                    Some(p) => Step::Finish(Ok(Admission::Admitted(id, p.role))),
                                }
                            },
                        }
                    },
                }
            },
        }
    }
}

} // verus!

verus! {

/// The next step of letting `email` (read from the user's token) into the
/// room of the board named by `board_text`.
pub fn admission(email: &String, board_text: &String, replies: &Vec<Reply>) -> (s: Step<Admission>)
    ensures
        s == admission_next(*email, board_text@, replies@),
{
    if replies.len() == 0 {
        return Step::Run(Query::Connect);
    }
    if !matches!(replies[0], Reply::Done) {
        return Step::Finish(Ok(Admission::Refused(Refusal::NoDatabase)));
    }
    let id = match crate::text::parse_i32(board_text.as_str()) {
        Some(id) => id,
        None => {
            return Step::Finish(Ok(Admission::Refused(Refusal::InvalidBoardId)));
        },
    };
    if replies.len() == 1 {
        return Step::Run(Query::FindUserByEmail(email.clone()));
    }
    let user = match reply_user(&replies[1]) {
        Some(u) => u,
        None => {
            return Step::Finish(Ok(Admission::Refused(Refusal::NoSuchUser)));
        },
    };
    if replies.len() == 2 {
        return Step::Run(Query::FindBoard(id));
    }
    let board = match reply_board(&replies[2]) {
        Some(b) => b,
        None => {
            return Step::Finish(Ok(Admission::Refused(Refusal::NoSuchBoard)));
        },
    };
    if user.id == board.owner_id {
        return Step::Finish(Ok(Admission::Admitted(id, ROLE_OWNER)));
    }
    if replies.len() == 3 {
        return Step::Run(Query::FindPermission { user_id: user.id, board_id: board.id });
    }
    match reply_permission(&replies[3]) {
        None => Step::Finish(Ok(Admission::Refused(Refusal::NoSuchBoard))),
        Some(p) => Step::Finish(Ok(Admission::Admitted(id, p.role))),
    }
}

/// A drawn element: its id, its JSON text, and whether it was erased.
#[derive(Debug, Clone, PartialEq, Eq)]
pub struct DrawnElement {
    pub id: String,
    pub text: String,
    pub is_deleted: bool,
}

pub open spec fn element_pairs(es: Seq<DrawnElement>) -> Seq<(Seq<char>, (Seq<char>, bool))> {
    es.map_values(|e: DrawnElement| (e.id@, (e.text@, e.is_deleted)))
}

/// The drawing a board ends up with: each element id with its latest text,
/// the elements of the session overriding those saved before.
pub open spec fn merged_state(saved: Seq<DrawnElement>, drawn: Seq<DrawnElement>) -> Map<Seq<char>, (Seq<char>, bool)> {
    pairs_to_map(element_pairs(saved + drawn))
}

/// `texts` holds, for each id of `ids` in order, the text `m` gives it; the
/// ids are distinct and are exactly those of the elements not erased.
pub open spec fn lists_live(m: Map<Seq<char>, (Seq<char>, bool)>, ids: Seq<Seq<char>>, texts: Seq<String>) -> bool {
    &&& ids.no_duplicates()
    &&& forall|k: Seq<char>| ids.contains(k) <==> (m.dom().contains(k) && !m[k].1)
    &&& ids.len() == texts.len()
    &&& forall|i: int| 0 <= i < ids.len() ==> #[trigger] texts[i]@ == m[ids[i]].0
}

/// Adds element `e` to `state`, replacing the element with its id if any.
fn absorb(state: &mut Vec<DrawnElement>, e: &DrawnElement)
    requires
        unique_keys(element_pairs(old(state)@)),
    ensures
        unique_keys(element_pairs(final(state)@)),
        pairs_to_map(element_pairs(final(state)@)) == pairs_to_map(element_pairs(old(state)@)).insert(
            e.id@,
            (e.text@, e.is_deleted),
        ),
{
    let ghost before = element_pairs(state@);
    let ghost p = (e.id@, (e.text@, e.is_deleted));
    let mut j: usize = 0;
    while j < state.len()
        invariant
            j <= state@.len(),
            before == element_pairs(state@),
            before == element_pairs(old(state)@),
            p == (e.id@, (e.text@, e.is_deleted)),
            unique_keys(before),
            forall|k: int| 0 <= k < j ==> state@[k].id@ != e.id@,
        decreases state@.len() - j,
    {
        if state[j].id == e.id {
            proof {
                lemma_update(before, j as int, (e.text@, e.is_deleted));
            }
            state.set(j, DrawnElement { id: e.id.clone(), text: e.text.clone(), is_deleted: e.is_deleted });
            assert(element_pairs(state@) =~= before.update(j as int, (before[j as int].0, (e.text@, e.is_deleted))));
            return;
        }
        j = j + 1;
    }
    assert(!has_key(before, e.id@));
    proof {
        lemma_push(before, p);
        lemma_push_unique(before, p);
    }
    state.push(DrawnElement { id: e.id.clone(), text: e.text.clone(), is_deleted: e.is_deleted });
    assert(element_pairs(state@) =~= before.push(p));
}

/// The texts of the elements a board is saved with when its room closes:
/// one per element id, its latest text, leaving out erased elements.
pub fn merge_board_state(saved: &Vec<DrawnElement>, drawn: &Vec<DrawnElement>) -> (r: Vec<String>)
    ensures
        exists|ids: Seq<Seq<char>>| #[trigger] lists_live(merged_state(saved@, drawn@), ids, r@),
{
    let mut state: Vec<DrawnElement> = Vec::new();
    assert(element_pairs(state@) =~= element_pairs(saved@.subrange(0, 0)));
    let mut n: usize = 0;
    while n < saved.len()
        invariant
            n <= saved@.len(),
            unique_keys(element_pairs(state@)),
            pairs_to_map(element_pairs(state@)) == pairs_to_map(element_pairs(saved@.subrange(0, n as int))),
        decreases saved@.len() - n,
    {
        absorb(&mut state, &saved[n]);
        proof {
            let e = saved@[n as int];
            lemma_push(element_pairs(saved@.subrange(0, n as int)), (e.id@, (e.text@, e.is_deleted)));
            assert(element_pairs(saved@.subrange(0, n + 1)) =~= element_pairs(saved@.subrange(0, n as int)).push(
                (e.id@, (e.text@, e.is_deleted)),
            ));
        }
        n = n + 1;
    }
    assert(saved@.subrange(0, n as int) =~= saved@ + drawn@.subrange(0, 0));
    let mut n: usize = 0;
    while n < drawn.len()
        invariant
            n <= drawn@.len(),
            unique_keys(element_pairs(state@)),
            pairs_to_map(element_pairs(state@)) == pairs_to_map(element_pairs(saved@ + drawn@.subrange(0, n as int))),
        decreases drawn@.len() - n,
    {
        absorb(&mut state, &drawn[n]);
        proof {
            let e = drawn@[n as int];
            lemma_push(element_pairs(saved@ + drawn@.subrange(0, n as int)), (e.id@, (e.text@, e.is_deleted)));
            assert(element_pairs(saved@ + drawn@.subrange(0, n + 1)) =~= element_pairs(
                saved@ + drawn@.subrange(0, n as int),
            ).push((e.id@, (e.text@, e.is_deleted))));
        }
        n = n + 1;
    }
    assert(saved@ + drawn@.subrange(0, n as int) =~= saved@ + drawn@);
    let ghost es = element_pairs(state@);
    let ghost m = pairs_to_map(es);
    let mut r: Vec<String> = Vec::new();
    let ghost mut ids: Seq<Seq<char>> = Seq::empty();
    let ghost mut idx: Seq<int> = Seq::empty();
    let mut i: usize = 0;
    while i < state.len()
        invariant
            i <= state@.len(),
            es == element_pairs(state@),
            unique_keys(es),
            m == pairs_to_map(es),
            ids.len() == r@.len(),
            idx.len() == ids.len(),
            forall|a: int| 0 <= a < idx.len() ==> 0 <= #[trigger] idx[a] < i && es[idx[a]].0 == ids[a],
            forall|a: int, b: int| 0 <= a < b < idx.len() ==> idx[a] < idx[b],
            forall|a: int| 0 <= a < ids.len() ==> #[trigger] r@[a]@ == m[ids[a]].0,
            forall|k: Seq<char>| ids.contains(k) <==> (exists|c: int| 0 <= c < i && es[c].0 == k && !es[c].1.1),
        decreases state@.len() - i,
    {
        proof {
            lemma_value(es, i as int);
        }
        if !state[i].is_deleted {
            r.push(state[i].text.clone());
            proof {
                let k = es[i as int].0;
                assert(ids.push(k).last() == k);
                assert forall|x: Seq<char>| ids.push(k).contains(x) <==> (exists|c: int| 0 <= c < i + 1 && es[c].0 == x && !es[c].1.1) by {
                    if ids.push(k).contains(x) && x != k {
                        let a = choose|a: int| 0 <= a < ids.push(k).len() && ids.push(k)[a] == x;
                        assert(ids[a] == x);
                        assert(ids.contains(x));
                    }
                    if x == k {
                        assert(ids.push(k)[ids.len() as int] == x);
                    }
                    if exists|c: int| 0 <= c < i + 1 && es[c].0 == x && !es[c].1.1 {
                        let c = choose|c: int| 0 <= c < i + 1 && es[c].0 == x && !es[c].1.1;
                        if c < i {
                            assert(ids.contains(x));
                            let a = choose|a: int| 0 <= a < ids.len() && ids[a] == x;
                            assert(ids.push(k)[a] == x);
                        }
                    }
                }
                ids = ids.push(k);
                idx = idx.push(i as int);
            }
        } else {
            proof {
                assert forall|x: Seq<char>| ids.contains(x) <==> (exists|c: int| 0 <= c < i + 1 && es[c].0 == x && !es[c].1.1) by {
                    if exists|c: int| 0 <= c < i + 1 && es[c].0 == x && !es[c].1.1 {
                        let c = choose|c: int| 0 <= c < i + 1 && es[c].0 == x && !es[c].1.1;
                        assert(c != i);
                    }
                }
            }
        }
        i = i + 1;
    }
    proof {
        assert(ids.no_duplicates()) by {
            assert forall|a: int, b: int| 0 <= a < ids.len() && 0 <= b < ids.len() && a != b implies ids[a] != ids[b] by {
                assert(idx[a] != idx[b]);
            }
        }
        assert forall|k: Seq<char>| ids.contains(k) <==> (m.dom().contains(k) && !m[k].1) by {
            lemma_dom(es, k);
            if m.dom().contains(k) {
                let c = choose|c: int| 0 <= c < es.len() && es[c].0 == k;
                lemma_value(es, c);
            }
            if ids.contains(k) {
                let c = choose|c: int| 0 <= c < state@.len() && es[c].0 == k && !es[c].1.1;
                lemma_value(es, c);
            }
        }
        assert(merged_state(saved@, drawn@) == m);
        assert(lists_live(m, ids, r@));
    }
    r
}

} // verus!
