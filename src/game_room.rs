use vstd::prelude::*;
use crate::bitboard::{after_move, apply_move, kind_at, Bitboard, MoveData, Side};
use crate::messages::{Outbound, Push, RoomId, RoomJoined, UpdateClient};

verus! {

/// A room as a value: its id, its participants in order of joining, its board and
/// whose turn it is.
pub struct RoomView {
    pub id: RoomId,
    pub players: Seq<usize>,
    pub bitboard: Bitboard,
    pub turn: Side,
}

/// The side of the participant at position `k` of the join order.
pub open spec fn side_for_position(k: int) -> Side {
    if k == 0 {
        Side::White
    } else {
        Side::Black
    }
}

/// The side of connection `id` in a room: that of its latest join.
pub open spec fn side_in(players: Seq<usize>, id: usize) -> Option<Side> {
    if exists|k: int| 1 <= k < players.len() && players[k] == id {
        Some(Side::Black)
    } else if players.len() > 0 && players[0] == id {
        Some(Side::White)
    } else {
        None
    }
}

/// One update push per participant, in order of joining.
pub open spec fn updates_for(players: Seq<usize>, bitboard: Bitboard, turn: Side) -> Seq<Outbound> {
    Seq::new(
        players.len(),
        |k: int| Outbound { to: players[k], push: Push::Update(UpdateClient { bitboard, turn }) },
    )
}

/// One game session: its participants, its board and whose turn it is.
pub struct GameRoom {
    pub id: RoomId,
    pub players: Vec<usize>,
    pub bitboard: Bitboard,
    pub turn: Side,
}

impl View for GameRoom {
    type V = RoomView;

    open spec fn view(&self) -> RoomView {
        RoomView { id: self.id, players: self.players@, bitboard: self.bitboard, turn: self.turn }
    }
}

impl GameRoom {
    /// A room with no participants, white to move.
    pub fn new(id: RoomId, bitboard: Bitboard) -> (r: GameRoom)
        ensures
            r@ == (RoomView { id, players: seq![], bitboard, turn: Side::White }),
    {
        GameRoom { id, players: Vec::new(), bitboard, turn: Side::White }
    }

    /// Appends a participant: white if the room was empty, black otherwise. Returns
    /// the push that tells the participant so. The cap of two is the caller's to enforce.
    pub fn add_player(&mut self, session_id: usize) -> (r: RoomJoined)
        ensures
            final(self)@ == (RoomView { players: old(self)@.players.push(session_id), ..old(self)@ }),
            r == (RoomJoined {
                room_id: old(self).id,
                color: side_for_position(old(self)@.players.len() as int),
            }),
    {
        let color = if self.players.len() == 0 {
            Side::White
        } else {
            Side::Black
        };
        self.players.push(session_id);
        RoomJoined { room_id: self.id, color }
    }

    /// The side that connection `session_id` plays here, if it joined.
    pub fn get_player_color(&self, session_id: usize) -> (r: Option<Side>)
        ensures
            r == side_in(self@.players, session_id),
    {
        let n = self.players.len();
        let mut k: usize = 1;
        while k < n
            invariant
                n == self.players@.len(),
                1 <= k,
                forall|j: int| 1 <= j < k && j < n ==> self.players@[j] != session_id,
            decreases n - k,
        {
            if self.players[k] == session_id {
                return Some(Side::Black);
            }
            k = k + 1;
        }
        if n > 0 && self.players[0] == session_id {
            Some(Side::White)
        } else {
            None
        }
    }

    /// Applies a move to the room's board; turn and ownership are not checked here.
    pub fn apply_move(&mut self, move_data: &MoveData) -> (r: bool)
        requires
            move_data.from < 64,
            move_data.to < 64,
        ensures
            r == kind_at(old(self).bitboard, move_data.from as u64).is_some(),
            final(self)@ == (RoomView {
                bitboard: after_move(old(self).bitboard, move_data.from as u64, move_data.to as u64),
                ..old(self)@
            }),
            old(self).bitboard.wf() ==> final(self).bitboard.wf(),
    {
        apply_move(&mut self.bitboard, move_data)
    }

    /// Hands the move to the other side.
    pub fn switch_turn(&mut self)
        ensures
            final(self)@ == (RoomView { turn: old(self).turn.flipped(), ..old(self)@ }),
    {
        self.turn = match self.turn {
            Side::White => Side::Black,
            Side::Black => Side::White,
        };
    }

    /// One update push per participant with the current board and turn.
    pub fn broadcast_update(&self) -> (r: Vec<Outbound>)
        ensures
            r@ == updates_for(self@.players, self.bitboard, self.turn),
    {
        let update_msg = UpdateClient { bitboard: self.bitboard, turn: self.turn };
        let mut out: Vec<Outbound> = Vec::new();
        let mut k: usize = 0;
        while k < self.players.len()
            invariant
                k <= self.players@.len(),
                out@ =~= updates_for(self@.players, self.bitboard, self.turn).subrange(0, k as int),
                update_msg == (UpdateClient { bitboard: self.bitboard, turn: self.turn }),
            decreases self.players@.len() - k,
        {
            out.push(Outbound { to: self.players[k], push: Push::Update(update_msg) });
            k = k + 1;
        }
        assert(out@ =~= updates_for(self@.players, self.bitboard, self.turn));
        out
    }
}

} // verus!
