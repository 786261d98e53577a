use vstd::prelude::*;
use std::collections::HashSet;
use crate::bitboard::{after_move, init_bitboard, initial_board, kind_at, Side};
use crate::game_room::{side_for_position, side_in, updates_for, GameRoom, RoomView};
use crate::messages::{
    ClientMove, Connect, CreateRoom, Disconnect, ErrorKind, ErrorMessage, JoinQueue, JoinRoom,
    Outbound, Push, RoomId, RoomJoined,
};

verus! {

broadcast use vstd::std_specs::hash::group_hash_axioms;

/// The registry as a value: registered connection ids, rooms in order of
/// creation, the matchmaking queue, and the last id handed out.
pub struct ServerView {
    pub sessions: Set<usize>,
    pub rooms: Seq<RoomView>,
    pub waiting: Seq<usize>,
    pub counter: usize,
}

/// No two rooms share an id.
pub open spec fn ids_unique(rooms: Seq<RoomView>) -> bool {
    forall|a: int, b: int|
        0 <= a < rooms.len() && 0 <= b < rooms.len() && a != b ==> rooms[a].id != rooms[b].id
}

/// The position of the room with id `rid`, or -1.
pub open spec fn room_index(rooms: Seq<RoomView>, rid: RoomId) -> int {
    if exists|i: int| 0 <= i < rooms.len() && rooms[i].id == rid {
        choose|i: int| 0 <= i < rooms.len() && rooms[i].id == rid
    } else {
        -1
    }
}

/// Stores a room: it takes the place of a room with the same id, or goes last.
pub open spec fn put_room(rooms: Seq<RoomView>, r: RoomView) -> Seq<RoomView> {
    let i = room_index(rooms, r.id);
    if i >= 0 {
        rooms.update(i, r)
    } else {
        rooms.push(r)
    }
}

/// A room with a fresh board, white to move.
pub open spec fn fresh_room(rid: RoomId, players: Seq<usize>) -> RoomView {
    RoomView { id: rid, players, bitboard: initial_board(), turn: Side::White }
}

/// The push that tells connection `to` it joined room `rid` at position `k`.
pub open spec fn joined_push(to: usize, rid: RoomId, k: int) -> Outbound {
    Outbound { to, push: Push::Joined(RoomJoined { room_id: rid, color: side_for_position(k) }) }
}

impl ServerView {
    pub open spec fn registered(self, id: usize) -> bool {
        self.sessions.contains(id)
    }

    /// An error for connection `id`: pushed only while it is registered.
    pub open spec fn error_to(self, id: usize, e: ErrorKind) -> Seq<Outbound> {
        if self.registered(id) {
            seq![Outbound { to: id, push: Push::Error(ErrorMessage { error: e }) }]
        } else {
            seq![]
        }
    }

    pub open spec fn after_connect(self) -> ServerView {
        ServerView {
            sessions: self.sessions.insert((self.counter + 1) as usize),
            counter: (self.counter + 1) as usize,
            ..self
        }
    }

    pub open spec fn after_disconnect(self, id: usize) -> ServerView {
        ServerView { sessions: self.sessions.remove(id), ..self }
    }

    pub open spec fn create_room(self, id: usize, rid: RoomId) -> (ServerView, Seq<Outbound>) {
        if self.registered(id) {
            (
                ServerView { rooms: put_room(self.rooms, fresh_room(rid, seq![id])), ..self },
                seq![joined_push(id, rid, 0)],
            )
        } else {
            (self, seq![])
        }
    }

    pub open spec fn join_room(self, id: usize, rid: RoomId) -> (ServerView, Seq<Outbound>) {
        let i = room_index(self.rooms, rid);
        if i < 0 {
            (self, self.error_to(id, ErrorKind::RoomNotFound))
        } else if self.rooms[i].players.len() >= 2 {
            (self, self.error_to(id, ErrorKind::RoomFull))
        } else if self.registered(id) {
            let room = self.rooms[i];
            (
                ServerView {
                    rooms: self.rooms.update(i, RoomView { players: room.players.push(id), ..room }),
                    ..self
                },
                seq![joined_push(id, rid, room.players.len() as int)],
            )
        } else {
            (self, seq![])
        }
    }

    pub open spec fn join_queue(self, id: usize, rid: RoomId) -> (ServerView, Seq<Outbound>) {
        let w = self.waiting.push(id);
        if !self.registered(id) || self.waiting.contains(id) {
            (self, seq![])
        } else if w.len() >= 2 {
            (
                ServerView {
                    waiting: w.subrange(2, w.len() as int),
                    rooms: put_room(self.rooms, fresh_room(rid, seq![w[0], w[1]])),
                    ..self
                },
                seq![joined_push(w[0], rid, 0), joined_push(w[1], rid, 1)],
            )
        } else {
            (ServerView { waiting: w, ..self }, seq![])
        }
    }

    pub open spec fn client_move(self, id: usize, rid: RoomId, m: crate::bitboard::MoveData) -> (
        ServerView,
        Seq<Outbound>,
    ) {
        let i = room_index(self.rooms, rid);
        let room = self.rooms[i];
        if i < 0 {
            (self, self.error_to(id, ErrorKind::RoomNotFound))
        } else {
            match side_in(room.players, id) {
                None => (self, self.error_to(id, ErrorKind::PlayerNotInRoom)),
                Some(side) => if side != room.turn {
                    (self, self.error_to(id, ErrorKind::NotYourTurn))
                } else if m.from >= 64 || m.to >= 64 || kind_at(room.bitboard, m.from as u64) is None {
                    (self, self.error_to(id, ErrorKind::InvalidMove))
                } else {
                    let b = after_move(room.bitboard, m.from as u64, m.to as u64);
                    let t = room.turn.flipped();
                    (
                        ServerView {
                            rooms: self.rooms.update(i, RoomView { bitboard: b, turn: t, ..room }),
                            ..self
                        },
                        updates_for(room.players, b, t),
                    )
                },
            }
        }
    }
}

/// Disconnecting twice is the same as disconnecting once, and neither produces a push.
pub proof fn lemma_disconnect_idempotent(v: ServerView, id: usize)
    ensures
        v.after_disconnect(id).after_disconnect(id) == v.after_disconnect(id),
        !v.after_disconnect(id).registered(id),
{
    assert(v.after_disconnect(id).sessions.remove(id) =~= v.sessions.remove(id));
}

/// With an empty queue, two distinct registered connections that join it in turn
/// are paired in one room: the first as white, the second as black, and the queue
/// is empty again. When the room id is not in use, the room is added after the
/// others, which stay as they were, and the registrations are unchanged.
pub proof fn lemma_queue_pairs_in_order(v: ServerView, a: usize, b: usize, rid1: RoomId, rid2: RoomId)
    requires
        v.waiting.len() == 0,
        v.registered(a),
        v.registered(b),
        a != b,
    ensures
        v.join_queue(a, rid1).1 == Seq::<Outbound>::empty(),
        v.join_queue(a, rid1).0.join_queue(b, rid2).0.waiting.len() == 0,
        v.join_queue(a, rid1).0.join_queue(b, rid2).0.sessions == v.sessions,
        v.join_queue(a, rid1).0.join_queue(b, rid2).0.rooms == put_room(
            v.rooms,
            fresh_room(rid2, seq![a, b]),
        ),
        (forall|k: int| 0 <= k < v.rooms.len() ==> v.rooms[k].id != rid2) ==> v.join_queue(
            a,
            rid1,
        ).0.join_queue(b, rid2).0.rooms == v.rooms.push(fresh_room(rid2, seq![a, b])),
        v.join_queue(a, rid1).0.join_queue(b, rid2).1 == seq![
            joined_push(a, rid2, 0),
            joined_push(b, rid2, 1),
        ],
        side_for_position(0) == Side::White,
        side_for_position(1) == Side::Black,
{
    let v1 = v.join_queue(a, rid1).0;
    assert(v1.waiting =~= seq![a]);
    assert(!v1.waiting.contains(b)) by {
        if v1.waiting.contains(b) {
            assert(v1.waiting[0] == b);
        }
    }
    assert(v1.join_queue(b, rid2).0.waiting =~= Seq::<usize>::empty());
}

/// A registered connection that creates a room under an id not yet in use gets a
/// new room after the others, with itself as white on a fresh board, and is told
/// so; nothing else changes.
pub proof fn lemma_create_room_fresh(v: ServerView, id: usize, rid: RoomId)
    requires
        v.registered(id),
        forall|k: int| 0 <= k < v.rooms.len() ==> v.rooms[k].id != rid,
    ensures
        v.create_room(id, rid).0 == (ServerView {
            rooms: v.rooms.push(fresh_room(rid, seq![id])),
            ..v
        }),
        v.create_room(id, rid).1 == seq![joined_push(id, rid, 0)],
        side_for_position(0) == Side::White,
{
}

/// A room that already has two participants turns every join away with "Room is
/// full" and stays as it was.
pub proof fn lemma_full_room_rejects(v: ServerView, id: usize, i: int)
    requires
        ids_unique(v.rooms),
        0 <= i < v.rooms.len(),
        v.rooms[i].players.len() == 2,
    ensures
        v.join_room(id, v.rooms[i].id).0 == v,
        v.join_room(id, v.rooms[i].id).1 == v.error_to(id, ErrorKind::RoomFull),
{
    lemma_room_index(v.rooms, v.rooms[i].id, i);
}

/// A move request changes nothing unless it is accepted; an accepted one moves the
/// piece and flips that room's turn exactly once, and touches no other room.
pub proof fn lemma_turn_flips_only_on_accepted_move(
    v: ServerView,
    id: usize,
    i: int,
    m: crate::bitboard::MoveData,
)
    requires
        ids_unique(v.rooms),
        0 <= i < v.rooms.len(),
    ensures
        ({
            let room = v.rooms[i];
            let after = v.client_move(id, room.id, m).0;
            let accepted = side_in(room.players, id) == Some(room.turn) && m.from < 64 && m.to < 64
                && kind_at(room.bitboard, m.from as u64) is Some;
            &&& accepted ==> after.rooms == v.rooms.update(
                i,
                RoomView {
                    bitboard: after_move(room.bitboard, m.from as u64, m.to as u64),
                    turn: room.turn.flipped(),
                    ..room
                },
            )
            &&& !accepted ==> after == v
        }),
{
    lemma_room_index(v.rooms, v.rooms[i].id, i);
}

/// Relies on uuid::Uuid::new_v4 for a random id, read as its 128 bits.
#[verifier::external_body]
fn new_room_id() -> (r: RoomId) {
    RoomId(uuid::Uuid::new_v4().as_u128())
}

/// The single coordinator: connections, rooms and the matchmaking queue.
pub struct Server {
    pub sessions: HashSet<usize>,
    pub rooms: Vec<GameRoom>,
    pub waiting_players: Vec<usize>,
    pub session_id_counter: usize,
}

impl View for Server {
    type V = ServerView;

    open spec fn view(&self) -> ServerView {
        ServerView {
            sessions: self.sessions@,
            rooms: self.rooms@.map_values(|r: GameRoom| r@),
            waiting: self.waiting_players@,
            counter: self.session_id_counter,
        }
    }
}

/// With unique ids, the room found for an id is the one that carries it.
pub proof fn lemma_room_index(rooms: Seq<RoomView>, rid: RoomId, i: int)
    requires
        ids_unique(rooms),
        0 <= i < rooms.len(),
        rooms[i].id == rid,
    ensures
        room_index(rooms, rid) == i,
{
}

proof fn lemma_put_room_unique(rooms: Seq<RoomView>, r: RoomView)
    requires
        ids_unique(rooms),
    ensures
        ids_unique(put_room(rooms, r)),
        put_room(rooms, r).contains(r),
        forall|k: int| 0 <= k < put_room(rooms, r).len() ==> #[trigger] put_room(rooms, r)[k] == r
            || rooms.contains(put_room(rooms, r)[k]),
{
    let i = room_index(rooms, r.id);
    if i >= 0 {
        assert(put_room(rooms, r)[i] == r);
        assert forall|k: int| 0 <= k < put_room(rooms, r).len() implies #[trigger] put_room(
            rooms,
            r,
        )[k] == r || rooms.contains(put_room(rooms, r)[k]) by {
            if k != i {
                assert(rooms[k] == put_room(rooms, r)[k]);
            }
        }
    } else {
        let p = put_room(rooms, r);
        assert(p[rooms.len() as int] == r);
        assert forall|k: int| 0 <= k < p.len() implies #[trigger] p[k] == r || rooms.contains(p[k]) by {
            if k < rooms.len() {
                assert(rooms[k] == p[k]);
            }
        }
    }
}

impl Server {
    /// The registry's invariant: every registered id was handed out, room ids are
    /// unique, every room has a well-formed board and at most two participants,
    /// and the queue never holds two waiting connections.
    pub open spec fn wf(self) -> bool {
        &&& forall|s: usize| self@.sessions.contains(s) ==> 1 <= s <= self.session_id_counter
        &&& ids_unique(self@.rooms)
        &&& forall|i: int| 0 <= i < self@.rooms.len() ==> #[trigger] self@.rooms[i].bitboard.wf()
        &&& forall|i: int| 0 <= i < self@.rooms.len() ==> #[trigger] self@.rooms[i].players.len() <= 2
        &&& self@.waiting.len() <= 1
        &&& self@.waiting.no_duplicates()
    }

    /// An empty registry.
    pub fn new() -> (r: Server)
        ensures
            r.wf(),
            r@ == (ServerView { sessions: Set::empty(), rooms: seq![], waiting: seq![], counter: 0 }),
    {
        let r = Server {
            sessions: HashSet::new(),
            rooms: Vec::new(),
            waiting_players: Vec::new(),
            session_id_counter: 0,
        };
        assert(r@.rooms =~= seq![]);
        r
    }

    fn generate_session_id(&mut self) -> (r: usize)
        requires
            old(self).session_id_counter < usize::MAX,
        ensures
            r == old(self).session_id_counter + 1,
            *final(self) == (Server { session_id_counter: r, ..*old(self) }),
    {
        self.session_id_counter = self.session_id_counter + 1;
        self.session_id_counter
    }

    /// Registers a connection under the next id, counting from 1.
    pub fn connect(&mut self, msg: Connect) -> (r: usize)
        requires
            old(self).wf(),
            old(self).session_id_counter < usize::MAX,
        ensures
            final(self).wf(),
            r == old(self).session_id_counter + 1,
            !old(self)@.registered(r),
            final(self)@ == old(self)@.after_connect(),
    {
        let id = self.generate_session_id();
        self.sessions.insert(id);
        proof {
            assert forall|s: usize| self@.sessions.contains(s) implies 1 <= s
                <= self.session_id_counter by {
                if s != id {
                    assert(old(self)@.sessions.contains(s));
                }
            }
        }
        id
    }

    /// Removes a registration; an unknown id is left alone.
    pub fn disconnect(&mut self, msg: Disconnect)
        requires
            old(self).wf(),
        ensures
            final(self).wf(),
            final(self)@ == old(self)@.after_disconnect(msg.id),
    {
        self.sessions.remove(&msg.id);
        proof {
            assert forall|s: usize| self@.sessions.contains(s) implies 1 <= s
                <= self.session_id_counter by {
                assert(old(self)@.sessions.contains(s));
            }
        }
    }

    /// The error push for connection `id`, if it is registered.
    fn error_for(&self, id: usize, e: ErrorKind) -> (r: Vec<Outbound>)
        ensures
            r@ == self@.error_to(id, e),
    {
        let mut out: Vec<Outbound> = Vec::new();
        if self.sessions.contains(&id) {
            out.push(Outbound { to: id, push: Push::Error(ErrorMessage { error: e }) });
        }
        assert(out@ =~= self@.error_to(id, e));
        out
    }

    /// The position of the room with id `rid`.
    fn find_room(&self, rid: RoomId) -> (r: Option<usize>)
        requires
            self.wf(),
        ensures
            match r {
                Some(i) => i < self.rooms@.len() && room_index(self@.rooms, rid) == i,
                None => room_index(self@.rooms, rid) == -1,
            },
    {
        let mut i: usize = 0;
        while i < self.rooms.len()
            invariant
                self.wf(),
                i <= self.rooms@.len(),
                forall|j: int| 0 <= j < i ==> self@.rooms[j].id != rid,
            decreases self.rooms@.len() - i,
        {
            if self.rooms[i].id == rid {
                proof {
                    lemma_room_index(self@.rooms, rid, i as int);
                }
                return Some(i);
            }
            i = i + 1;
        }
        None
    }

    /// Stores a room, replacing one with the same id.
    fn put_room(&mut self, room: GameRoom)
        requires
            old(self).wf(),
            room@.bitboard.wf(),
            room@.players.len() <= 2,
        ensures
            final(self).wf(),
            final(self)@ == (ServerView { rooms: put_room(old(self)@.rooms, room@), ..old(self)@ }),
    {
        let ghost rv = room@;
        proof {
            lemma_put_room_unique(self@.rooms, rv);
        }
        match self.find_room(room.id) {
            Some(i) => {
                self.rooms.set(i, room);
                assert(self@.rooms =~= old(self)@.rooms.update(i as int, rv));
            },
            None => {
                self.rooms.push(room);
                assert(self@.rooms =~= old(self)@.rooms.push(rv));
            },
        }
        assert forall|k: int| 0 <= k < self@.rooms.len() implies #[trigger] self@.rooms[k].bitboard.wf()
            && self@.rooms[k].players.len() <= 2 by {
            let p = put_room(old(self)@.rooms, rv);
            assert(p[k] == rv || old(self)@.rooms.contains(p[k]));
        }
    }

    /// Creates a room with the given id and connection `msg.id` as white, if that
    /// connection is registered.
    pub fn create_room_with_id(&mut self, msg: CreateRoom, room_id: RoomId) -> (r: Vec<Outbound>)
        requires
            old(self).wf(),
        ensures
            final(self).wf(),
            final(self)@ == old(self)@.create_room(msg.id, room_id).0,
            r@ == old(self)@.create_room(msg.id, room_id).1,
    {
        let mut out: Vec<Outbound> = Vec::new();
        if self.sessions.contains(&msg.id) {
            let mut room = GameRoom::new(room_id, init_bitboard());
            let joined = room.add_player(msg.id);
            assert(room@.players =~= seq![msg.id]);
            self.put_room(room);
            out.push(Outbound { to: msg.id, push: Push::Joined(joined) });
            assert(out@ =~= old(self)@.create_room(msg.id, room_id).1);
        } else {
            assert(out@ =~= seq![]);
        }
        out
    }

    /// Creates a room under a fresh random id with connection `msg.id` as white.
    pub fn create_room(&mut self, msg: CreateRoom) -> (r: Vec<Outbound>)
        requires
            old(self).wf(),
        ensures
            final(self).wf(),
            exists|rid: RoomId|
                final(self)@ == old(self)@.create_room(msg.id, rid).0 && r@ == old(self)@.create_room(
                    msg.id,
                    rid,
                ).1,
    {
        let room_id = new_room_id();
        self.create_room_with_id(msg, room_id)
    }
    /// Adds connection `msg.id` to the room `msg.room_id`: an error when the room
    /// is unknown or already has two participants.
    pub fn join_room(&mut self, msg: JoinRoom) -> (r: Vec<Outbound>)
        requires
            old(self).wf(),
        ensures
            final(self).wf(),
            final(self)@ == old(self)@.join_room(msg.id, msg.room_id).0,
            r@ == old(self)@.join_room(msg.id, msg.room_id).1,
    {
        match self.find_room(msg.room_id) {
            None => self.error_for(msg.id, ErrorKind::RoomNotFound),
            Some(i) => {
                if self.rooms[i].players.len() < 2 {
                    let mut out: Vec<Outbound> = Vec::new();
                    if self.sessions.contains(&msg.id) {
                        let joined = self.rooms[i].add_player(msg.id);
                        out.push(Outbound { to: msg.id, push: Push::Joined(joined) });
                        let ghost nr = RoomView {
                            players: old(self)@.rooms[i as int].players.push(msg.id),
                            ..old(self)@.rooms[i as int]
                        };
                        assert(self@.rooms =~= old(self)@.rooms.update(i as int, nr));
                        assert(out@ =~= old(self)@.join_room(msg.id, msg.room_id).1);
                        assert forall|k: int| 0 <= k < self@.rooms.len() implies #[trigger] self@.rooms[k].players.len() <= 2 by {
                            if k != i {
                                assert(self@.rooms[k] == old(self)@.rooms[k]);
                            }
                        }
                        assert forall|k: int| 0 <= k < self@.rooms.len() implies #[trigger] self@.rooms[k].bitboard.wf() by {
                            if k != i {
                                assert(self@.rooms[k] == old(self)@.rooms[k]);
                            }
                        }
                    } else {
                        assert(out@ =~= seq![]);
                    }
                    out
                } else {
                    self.error_for(msg.id, ErrorKind::RoomFull)
                }
            },
        }
    }

    /// Appends connection `msg.id` to the queue unless it already waits there; once
    /// two wait, pairs them in a new room with the given id, the one that waited
    /// longer as white.
    pub fn join_queue_with_id(&mut self, msg: JoinQueue, room_id: RoomId) -> (r: Vec<Outbound>)
        requires
            old(self).wf(),
        ensures
            final(self).wf(),
            final(self)@ == old(self)@.join_queue(msg.id, room_id).0,
            r@ == old(self)@.join_queue(msg.id, room_id).1,
    {
        let mut out: Vec<Outbound> = Vec::new();
        let already_waiting = self.waiting_players.len() > 0 && self.waiting_players[0] == msg.id;
        proof {
            if self@.waiting.contains(msg.id) {
                assert(self@.waiting[0] == msg.id);
            }
        }
        if self.sessions.contains(&msg.id) && !already_waiting {
            self.waiting_players.push(msg.id);
            if self.waiting_players.len() >= 2 {
                let ghost w = self.waiting_players@;
                let id1 = self.waiting_players.remove(0);
                let id2 = self.waiting_players.remove(0);
                assert(self.waiting_players@ =~= w.subrange(2, w.len() as int));
                assert(self@.waiting.len() == 0);
                let mut room = GameRoom::new(room_id, init_bitboard());
                let joined1 = room.add_player(id1);
                let joined2 = room.add_player(id2);
                assert(room@.players =~= seq![w[0], w[1]]);
                self.put_room(room);
                out.push(Outbound { to: id1, push: Push::Joined(joined1) });
                out.push(Outbound { to: id2, push: Push::Joined(joined2) });
                assert(out@ =~= old(self)@.join_queue(msg.id, room_id).1);
            } else {
                assert(self@.waiting =~= seq![msg.id]);
                assert(out@ =~= seq![]);
            }
        } else {
            assert(out@ =~= seq![]);
        }
        assert forall|s: usize| self@.sessions.contains(s) implies 1 <= s
            <= self.session_id_counter by {
            assert(old(self)@.sessions.contains(s));
        }
        out
    }

    /// Queues connection `msg.id`, pairing under a fresh random room id.
    pub fn join_queue(&mut self, msg: JoinQueue) -> (r: Vec<Outbound>)
        requires
            old(self).wf(),
        ensures
            final(self).wf(),
            exists|rid: RoomId|
                final(self)@ == old(self)@.join_queue(msg.id, rid).0 && r@ == old(self)@.join_queue(
                    msg.id,
                    rid,
                ).1,
    {
        let room_id = new_room_id();
        self.join_queue_with_id(msg, room_id)
    }

    /// Applies a move for connection `msg.id` when it is that connection's turn in
    /// room `msg.room_id`, then hands the turn over and sends both participants the
    /// new state; otherwise an error for the sender, with nothing changed.
    pub fn client_move(&mut self, msg: ClientMove) -> (r: Vec<Outbound>)
        requires
            old(self).wf(),
        ensures
            final(self).wf(),
            final(self)@ == old(self)@.client_move(msg.id, msg.room_id, msg.move_data).0,
            r@ == old(self)@.client_move(msg.id, msg.room_id, msg.move_data).1,
    {
        match self.find_room(msg.room_id) {
            None => self.error_for(msg.id, ErrorKind::RoomNotFound),
            Some(i) => {
                match self.rooms[i].get_player_color(msg.id) {
                    None => self.error_for(msg.id, ErrorKind::PlayerNotInRoom),
                    Some(side) => {
                        if side != self.rooms[i].turn {
                            self.error_for(msg.id, ErrorKind::NotYourTurn)
                        } else if msg.move_data.from >= 64 || msg.move_data.to >= 64 {
                            self.error_for(msg.id, ErrorKind::InvalidMove)
                        } else {
                            let ghost r0 = old(self)@.rooms[i as int];
                            let valid_move = self.rooms[i].apply_move(&msg.move_data);
                            if valid_move {
                                self.rooms[i].switch_turn();
                                let ghost nr = RoomView {
                                    bitboard: after_move(
                                        r0.bitboard,
                                        msg.move_data.from as u64,
                                        msg.move_data.to as u64,
                                    ),
                                    turn: r0.turn.flipped(),
                                    ..r0
                                };
                                assert(self@.rooms =~= old(self)@.rooms.update(i as int, nr));
                                assert forall|k: int| 0 <= k < self@.rooms.len() implies #[trigger] self@.rooms[k].players.len() <= 2 by {
                                    if k != i {
                                        assert(self@.rooms[k] == old(self)@.rooms[k]);
                                    }
                                }
                                assert forall|k: int| 0 <= k < self@.rooms.len() implies #[trigger] self@.rooms[k].bitboard.wf() by {
                                    if k != i {
                                        assert(self@.rooms[k] == old(self)@.rooms[k]);
                                    }
                                }
                                self.rooms[i].broadcast_update()
                            } else {
                                assert(self@.rooms =~= old(self)@.rooms);
                                self.error_for(msg.id, ErrorKind::InvalidMove)
                            }
                        }
                    },
                }
            },
        }
    }
}

} // verus!
