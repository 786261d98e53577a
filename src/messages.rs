use vstd::prelude::*;
use crate::bitboard::{bitboard_to_pieces, piece_list, Bitboard, MoveData, PieceInfo, Side};

verus! {

/// A room identifier: the 128 bits of a UUID.
#[derive(Clone, Copy, PartialEq, Eq, Structural, Debug)]
pub struct RoomId(pub u128);

/// Registers a new connection; the registry answers with its id.
#[derive(Clone, Copy, PartialEq, Eq, Structural, Debug)]
pub struct Connect;

/// Removes a connection's registration.
#[derive(Clone, Copy, PartialEq, Eq, Structural, Debug)]
pub struct Disconnect {
    pub id: usize,
}

/// Asks for a new room with the sender as its first participant.
#[derive(Clone, Copy, PartialEq, Eq, Structural, Debug)]
pub struct CreateRoom {
    pub id: usize,
}

/// Asks to join an existing room.
#[derive(Clone, Copy, PartialEq, Eq, Structural, Debug)]
pub struct JoinRoom {
    pub id: usize,
    pub room_id: RoomId,
}

/// Asks to be paired with the next waiting connection.
#[derive(Clone, Copy, PartialEq, Eq, Structural, Debug)]
pub struct JoinQueue {
    pub id: usize,
}

/// Submits a move in a room.
#[derive(Clone, Copy, PartialEq, Eq, Structural, Debug)]
pub struct ClientMove {
    pub id: usize,
    pub room_id: RoomId,
    pub move_data: MoveData,
}

/// Tells a connection which room it joined and which side it plays.
#[derive(Clone, Copy, PartialEq, Eq, Structural, Debug)]
pub struct RoomJoined {
    pub room_id: RoomId,
    pub color: Side,
}

/// The state of a room after a move: its board and whose turn it is.
#[derive(Clone, Copy, PartialEq, Eq, Structural, Debug)]
pub struct UpdateClient {
    pub bitboard: Bitboard,
    pub turn: Side,
}

impl UpdateClient {
    /// The piece list that goes on the wire.
    pub fn pieces(&self) -> (r: Vec<PieceInfo>)
        ensures
            r@ == piece_list(self.bitboard),
    {
        bitboard_to_pieces(&self.bitboard)
    }
}

/// The errors that reach a client.
#[derive(Clone, Copy, PartialEq, Eq, Structural, Debug)]
pub enum ErrorKind {
    RoomNotFound,
    RoomFull,
    PlayerNotInRoom,
    NotYourTurn,
    InvalidMove,
    InvalidRoomId,
    InvalidMoveData,
    NotInRoom,
    InvalidMessage,
}

pub open spec fn error_text(e: ErrorKind) -> Seq<char> {
    match e {
        ErrorKind::RoomNotFound => "Room not found"@,
        ErrorKind::RoomFull => "Room is full"@,
        ErrorKind::PlayerNotInRoom => "Player not found in room"@,
        ErrorKind::NotYourTurn => "Not your turn"@,
        ErrorKind::InvalidMove => "Invalid move"@,
        ErrorKind::InvalidRoomId => "Invalid room ID format"@,
        ErrorKind::InvalidMoveData => "Invalid move data format"@,
        ErrorKind::NotInRoom => "You are not in a room"@,
        ErrorKind::InvalidMessage => "Invalid message format"@,
    }
}

impl ErrorKind {
    /// The text that the client receives.
    pub fn text(&self) -> (r: &'static str)
        ensures
            r@ == error_text(*self),
    {
        match self {
            ErrorKind::RoomNotFound => "Room not found",
            ErrorKind::RoomFull => "Room is full",
            ErrorKind::PlayerNotInRoom => "Player not found in room",
            ErrorKind::NotYourTurn => "Not your turn",
            ErrorKind::InvalidMove => "Invalid move",
            ErrorKind::InvalidRoomId => "Invalid room ID format",
            ErrorKind::InvalidMoveData => "Invalid move data format",
            ErrorKind::NotInRoom => "You are not in a room",
            ErrorKind::InvalidMessage => "Invalid message format",
        }
    }
}

/// An error for one connection.
#[derive(Clone, Copy, PartialEq, Eq, Structural, Debug)]
pub struct ErrorMessage {
    pub error: ErrorKind,
}

/// What the registry pushes to a connection.
#[derive(Clone, Copy, PartialEq, Eq, Structural, Debug)]
pub enum Push {
    Joined(RoomJoined),
    Update(UpdateClient),
    Error(ErrorMessage),
}

/// A push addressed to a connection id.
#[derive(Clone, Copy, PartialEq, Eq, Structural, Debug)]
pub struct Outbound {
    pub to: usize,
    pub push: Push,
}

/// An inbound frame, its JSON already taken apart: the `type` field, and what the
/// `data` field held of the two shapes that the protocol reads.
#[derive(Debug)]
pub struct ClientMessage {
    pub kind: String,
    pub room_id: Option<String>,
    pub move_data: Option<MoveData>,
}

} // verus!
