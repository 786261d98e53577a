use vstd::prelude::*;
use vstd::string::StrSliceExecFns;
use crate::bitboard::{MoveData, Side};
use crate::messages::{
    ClientMessage, ClientMove, CreateRoom, Disconnect, ErrorKind, ErrorMessage, JoinQueue,
    JoinRoom, RoomId, RoomJoined,
};

verus! {

/// How often the liveness timer fires, in milliseconds.
pub const HEARTBEAT_INTERVAL_MS: u64 = 5000;

/// How long a connection may stay silent before it is dropped, in milliseconds.
pub const CLIENT_TIMEOUT_MS: u64 = 10000;

/// What a session asks of the registry.
#[derive(Clone, Copy, PartialEq, Eq, Structural, Debug)]
pub enum Intent {
    Disconnect(Disconnect),
    CreateRoom(CreateRoom),
    JoinRoom(JoinRoom),
    JoinQueue(JoinQueue),
    ClientMove(ClientMove),
}

/// What a session does with an inbound frame.
#[derive(Clone, Copy, PartialEq, Eq, Structural, Debug)]
pub enum SessionAction {
    /// Send this intent to the registry.
    Forward(Intent),
    /// Answer the client directly with this error.
    Reply(ErrorMessage),
    /// Do nothing.
    Ignore,
}

/// What a session does when its liveness timer fires.
#[derive(Clone, Copy, PartialEq, Eq, Structural, Debug)]
pub enum HeartbeatAction {
    /// Send a liveness probe.
    Ping,
    /// Stop the connection, telling the registry if it has not been told yet.
    Stop(Option<Disconnect>),
}

/// What `uuid::Uuid::parse_str` makes of a text: the 128 bits, or nothing.
pub uninterp spec fn uuid_parse(s: Seq<char>) -> Option<u128>;

/// Relies on uuid::Uuid::parse_str to read a room id from its text; the outcome
/// depends on the text alone, and the empty text is refused.
#[verifier::external_body]
fn parse_room_id(s: &str) -> (r: Option<RoomId>)
    ensures
        r == (match uuid_parse(s@) {
            Some(v) => Some(RoomId(v)),
            None => None,
        }),
        s@.len() == 0 ==> r is None,
{
    match uuid::Uuid::parse_str(s) {
        Ok(u) => Some(RoomId(u.as_u128())),
        Err(_) => None,
    }
}

/// Whether two texts are the same characters.
pub fn same_text(a: &str, b: &str) -> (r: bool)
    ensures
        r == (a@ == b@),
{
    let n = a.unicode_len();
    if n != b.unicode_len() {
        return false;
    }
    let mut i: usize = 0;
    while i < n
        invariant
            n == a@.len(),
            n == b@.len(),
            i <= n,
            forall|j: int| 0 <= j < i ==> a@[j] == b@[j],
        decreases n - i,
    {
        if a.get_char(i) != b.get_char(i) {
            return false;
        }
        i = i + 1;
    }
    assert(a@ =~= b@);
    true
}

pub open spec fn opt_text(o: Option<String>) -> Option<Seq<char>> {
    match o {
        Some(s) => Some(s@),
        None => None,
    }
}

/// Whether both squares of a move are on the board.
pub open spec fn on_board(m: MoveData) -> bool {
    m.from < 64 && m.to < 64
}

/// One connection's state: when it was last heard from, its registry id, the
/// room and side it was told of, and whether the registry was told it closed.
#[derive(Clone, Copy, PartialEq, Eq, Structural, Debug)]
pub struct MyWebSocket {
    pub hb: u64,
    pub id: usize,
    pub room_id: Option<RoomId>,
    pub color: Option<Side>,
    pub closed: bool,
}

impl MyWebSocket {
    /// What a join request with the parsed room id turns into.
    pub open spec fn join_action(self, parsed: Option<RoomId>) -> SessionAction {
        match parsed {
            Some(rid) => SessionAction::Forward(Intent::JoinRoom(JoinRoom { id: self.id, room_id: rid })),
            None => SessionAction::Reply(ErrorMessage { error: ErrorKind::InvalidRoomId }),
        }
    }

    /// What a move request turns into.
    pub open spec fn move_action(self, m: Option<MoveData>) -> SessionAction {
        match self.room_id {
            None => SessionAction::Reply(ErrorMessage { error: ErrorKind::NotInRoom }),
            Some(rid) => match m {
                Some(md) => if on_board(md) {
                    SessionAction::Forward(
                        Intent::ClientMove(ClientMove { id: self.id, room_id: rid, move_data: md }),
                    )
                } else {
                    SessionAction::Reply(ErrorMessage { error: ErrorKind::InvalidMoveData })
                },
                None => SessionAction::Reply(ErrorMessage { error: ErrorKind::InvalidMoveData }),
            },
        }
    }

    /// What a decoded frame turns into; `None` stands for a frame that did not decode.
    pub open spec fn frame_action(
        self,
        decoded: Option<(Seq<char>, Option<Seq<char>>, Option<MoveData>)>,
    ) -> SessionAction {
        match decoded {
            None => SessionAction::Reply(ErrorMessage { error: ErrorKind::InvalidMessage }),
            Some((kind, room_text, m)) => if kind == "create_room"@ {
                SessionAction::Forward(Intent::CreateRoom(CreateRoom { id: self.id }))
            } else if kind == "join_room"@ {
                match room_text {
                    Some(t) => self.join_action(
                        match uuid_parse(t) {
                            Some(v) => Some(RoomId(v)),
                            None => None,
                        },
                    ),
                    None => SessionAction::Reply(ErrorMessage { error: ErrorKind::InvalidRoomId }),
                }
            } else if kind == "join_queue"@ {
                SessionAction::Forward(Intent::JoinQueue(JoinQueue { id: self.id }))
            } else if kind == "move"@ {
                self.move_action(m)
            } else {
                SessionAction::Ignore
            },
        }
    }

    /// A session that has just been heard from at time `now`.
    pub fn new(now: u64) -> (r: MyWebSocket)
        ensures
            r == (MyWebSocket { hb: now, id: 0, room_id: None, color: None, closed: false }),
    {
        MyWebSocket { hb: now, id: 0, room_id: None, color: None, closed: false }
    }

    /// Records the id that the registry assigned.
    pub fn on_connected(&mut self, id: usize)
        ensures
            *final(self) == (MyWebSocket { id, ..*old(self) }),
    {
        self.id = id;
    }

    /// Takes the registry's answer to the connect request: with an id, records it
    /// and returns `true` (the session goes on); without one, returns `false` (the
    /// session stops).
    pub fn on_connect_reply(&mut self, reply: Option<usize>) -> (r: bool)
        ensures
            match reply {
                Some(id) => r && *final(self) == (MyWebSocket { id, ..*old(self) }),
                None => !r && *final(self) == *old(self),
            },
    {
        match reply {
            Some(id) => {
                self.on_connected(id);
                true
            },
            None => false,
        }
    }

    /// Records a liveness signal (a probe or a reply) heard at time `now`.
    pub fn on_liveness(&mut self, now: u64)
        ensures
            *final(self) == (MyWebSocket { hb: now, ..*old(self) }),
    {
        self.hb = now;
    }

    /// Records the room and side that the registry reported.
    pub fn on_room_joined(&mut self, msg: &RoomJoined)
        ensures
            *final(self) == (MyWebSocket {
                room_id: Some(msg.room_id),
                color: Some(msg.color),
                ..*old(self)
            }),
    {
        self.room_id = Some(msg.room_id);
        self.color = Some(msg.color);
    }

    /// Enters the closed state: the registry is told the first time only.
    pub fn close(&mut self) -> (r: Option<Disconnect>)
        ensures
            final(self).closed,
            *final(self) == (MyWebSocket { closed: true, ..*old(self) }),
            r == (if old(self).closed {
                None
            } else {
                Some(Disconnect { id: old(self).id })
            }),
    {
        if self.closed {
            None
        } else {
            self.closed = true;
            Some(Disconnect { id: self.id })
        }
    }

    /// The timer fired at `now`: stop when silent for longer than the timeout,
    /// else probe.
    pub fn heartbeat(&mut self, now: u64) -> (r: HeartbeatAction)
        ensures
            if now > old(self).hb && now - old(self).hb > CLIENT_TIMEOUT_MS {
                &&& *final(self) == (MyWebSocket { closed: true, ..*old(self) })
                &&& r == HeartbeatAction::Stop(
                    if old(self).closed {
                        None
                    } else {
                        Some(Disconnect { id: old(self).id })
                    },
                )
            } else {
                *final(self) == *old(self) && r == HeartbeatAction::Ping
            },
    {
        if now > self.hb && now - self.hb > CLIENT_TIMEOUT_MS {
            let d = self.close();
            HeartbeatAction::Stop(d)
        } else {
            HeartbeatAction::Ping
        }
    }

    /// A join request once its room id text was parsed.
    pub fn join_request(&self, parsed: Option<RoomId>) -> (r: SessionAction)
        ensures
            r == self.join_action(parsed),
    {
        match parsed {
            Some(rid) => SessionAction::Forward(Intent::JoinRoom(JoinRoom { id: self.id, room_id: rid })),
            None => SessionAction::Reply(ErrorMessage { error: ErrorKind::InvalidRoomId }),
        }
    }

    /// A move request.
    pub fn move_request(&self, move_data: Option<MoveData>) -> (r: SessionAction)
        ensures
            r == self.move_action(move_data),
    {
        match self.room_id {
            None => SessionAction::Reply(ErrorMessage { error: ErrorKind::NotInRoom }),
            Some(rid) => match move_data {
                Some(md) => if md.from < 64 && md.to < 64 {
                    SessionAction::Forward(
                        Intent::ClientMove(ClientMove { id: self.id, room_id: rid, move_data: md }),
                    )
                } else {
                    SessionAction::Reply(ErrorMessage { error: ErrorKind::InvalidMoveData })
                },
                None => SessionAction::Reply(ErrorMessage { error: ErrorKind::InvalidMoveData }),
            },
        }
    }

    /// Turns a text frame into an action; `None` stands for a frame that did not decode.
    pub fn handle_text(&self, decoded: &Option<ClientMessage>) -> (r: SessionAction)
        ensures
            r == self.frame_action(
                match decoded {
                    Some(m) => Some((m.kind@, opt_text(m.room_id), m.move_data)),
                    None => None,
                },
            ),
    {
        match decoded {
            None => SessionAction::Reply(ErrorMessage { error: ErrorKind::InvalidMessage }),
            Some(client_msg) => {
                let kind = client_msg.kind.as_str();
                if same_text(kind, "create_room") {
                    SessionAction::Forward(Intent::CreateRoom(CreateRoom { id: self.id }))
                } else if same_text(kind, "join_room") {
                    match &client_msg.room_id {
                        Some(text) => self.join_request(parse_room_id(text.as_str())),
                        None => SessionAction::Reply(ErrorMessage { error: ErrorKind::InvalidRoomId }),
                    }
                } else if same_text(kind, "join_queue") {
                    SessionAction::Forward(Intent::JoinQueue(JoinQueue { id: self.id }))
                } else if same_text(kind, "move") {
                    self.move_request(client_msg.move_data)
                } else {
                    SessionAction::Ignore
                }
            },
        }
    }
}

} // verus!
