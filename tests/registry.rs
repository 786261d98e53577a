use chess_relay::bitboard::{MoveData, Side};
use chess_relay::messages::{
    ClientMove, Connect, CreateRoom, Disconnect, ErrorKind, ErrorMessage, JoinQueue, JoinRoom,
    Outbound, Push, RoomId, RoomJoined,
};
use chess_relay::server::Server;

fn joined(to: usize, room: RoomId, color: Side) -> Outbound {
    Outbound { to, push: Push::Joined(RoomJoined { room_id: room, color }) }
}

fn error(to: usize, e: ErrorKind) -> Outbound {
    Outbound { to, push: Push::Error(ErrorMessage { error: e }) }
}

#[test]
fn connection_ids_count_from_one() {
    let mut s = Server::new();
    assert_eq!(s.connect(Connect), 1);
    assert_eq!(s.connect(Connect), 2);
    s.disconnect(Disconnect { id: 2 });
    assert_eq!(s.connect(Connect), 3);
}

#[test]
fn queue_pairs_connections_ten_and_eleven() {
    let mut s = Server::new();
    for _ in 0..11 {
        s.connect(Connect);
    }
    let out = s.join_queue_with_id(JoinQueue { id: 10 }, RoomId(77));
    assert!(out.is_empty());
    assert_eq!(s.waiting_players, vec![10]);
    let out = s.join_queue_with_id(JoinQueue { id: 11 }, RoomId(77));
    assert_eq!(out, vec![joined(10, RoomId(77), Side::White), joined(11, RoomId(77), Side::Black)]);
    assert!(s.waiting_players.is_empty());
    assert_eq!(s.rooms.len(), 1);
    assert_eq!(s.rooms[0].players, vec![10, 11]);
    assert_eq!(s.rooms[0].get_player_color(10), Some(Side::White));
    assert_eq!(s.rooms[0].get_player_color(11), Some(Side::Black));
}

#[test]
fn queue_with_random_room_id() {
    let mut s = Server::new();
    let a = s.connect(Connect);
    let b = s.connect(Connect);
    assert!(s.join_queue(JoinQueue { id: a }).is_empty());
    let out = s.join_queue(JoinQueue { id: b });
    assert_eq!(out.len(), 2);
    assert_eq!(s.rooms.len(), 1);
    assert_eq!(out[0], joined(a, s.rooms[0].id, Side::White));
}

#[test]
fn unregistered_connection_cannot_queue_or_create() {
    let mut s = Server::new();
    assert!(s.join_queue_with_id(JoinQueue { id: 4 }, RoomId(1)).is_empty());
    assert!(s.waiting_players.is_empty());
    assert!(s.create_room_with_id(CreateRoom { id: 4 }, RoomId(1)).is_empty());
    assert!(s.rooms.is_empty());
}

#[test]
fn create_join_and_move_scenario() {
    let mut s = Server::new();
    let a = s.connect(Connect);
    let b = s.connect(Connect);
    let room = RoomId(0x1234);
    assert_eq!(s.create_room_with_id(CreateRoom { id: a }, room), vec![joined(a, room, Side::White)]);
    assert_eq!(s.join_room(JoinRoom { id: b, room_id: room }), vec![joined(b, room, Side::Black)]);

    let out = s.client_move(ClientMove { id: a, room_id: room, move_data: MoveData { from: 12, to: 28 } });
    assert_eq!(out.len(), 2);
    assert_eq!(out[0].to, a);
    assert_eq!(out[1].to, b);
    for o in &out {
        match o.push {
            Push::Update(u) => {
                assert_eq!(u.turn, Side::Black);
                assert_eq!(u.bitboard.pawns & (1 << 12), 0);
                assert_ne!(u.bitboard.pawns & (1 << 28), 0);
            }
            _ => panic!("expected an update"),
        }
    }

    match out[0].push {
        Push::Update(u) => {
            let pieces = u.pieces();
            let pawn = pieces.iter().find(|p| p.position == 28).unwrap();
            assert_eq!(pawn.color, Side::White);
            assert!(pieces.iter().all(|p| p.position != 12));
        }
        _ => panic!("expected an update"),
    }

    let before = s.rooms[0].bitboard;
    let out = s.client_move(ClientMove { id: b, room_id: room, move_data: MoveData { from: 12, to: 28 } });
    assert_eq!(out, vec![error(b, ErrorKind::InvalidMove)]);
    assert_eq!(s.rooms[0].bitboard, before);
    assert_eq!(s.rooms[0].turn, Side::Black);
}

#[test]
fn third_join_finds_the_room_full() {
    let mut s = Server::new();
    let a = s.connect(Connect);
    let b = s.connect(Connect);
    let c = s.connect(Connect);
    let room = RoomId(9);
    s.create_room_with_id(CreateRoom { id: a }, room);
    s.join_room(JoinRoom { id: b, room_id: room });
    let out = s.join_room(JoinRoom { id: c, room_id: room });
    assert_eq!(out, vec![error(c, ErrorKind::RoomFull)]);
    assert_eq!(s.rooms[0].players.len(), 2);
}

#[test]
fn join_of_unknown_room_is_an_error() {
    let mut s = Server::new();
    let a = s.connect(Connect);
    assert_eq!(s.join_room(JoinRoom { id: a, room_id: RoomId(3) }), vec![error(a, ErrorKind::RoomNotFound)]);
    assert!(s.join_room(JoinRoom { id: 40, room_id: RoomId(3) }).is_empty());
}

#[test]
fn move_errors() {
    let mut s = Server::new();
    let a = s.connect(Connect);
    let b = s.connect(Connect);
    let c = s.connect(Connect);
    let room = RoomId(2);
    s.create_room_with_id(CreateRoom { id: a }, room);
    s.join_room(JoinRoom { id: b, room_id: room });
    let m = MoveData { from: 52, to: 36 };
    assert_eq!(s.client_move(ClientMove { id: a, room_id: RoomId(8), move_data: m }), vec![error(a, ErrorKind::RoomNotFound)]);
    assert_eq!(s.client_move(ClientMove { id: c, room_id: room, move_data: m }), vec![error(c, ErrorKind::PlayerNotInRoom)]);
    assert_eq!(s.client_move(ClientMove { id: b, room_id: room, move_data: m }), vec![error(b, ErrorKind::NotYourTurn)]);
    assert_eq!(
        s.client_move(ClientMove { id: a, room_id: room, move_data: MoveData { from: 64, to: 1 } }),
        vec![error(a, ErrorKind::InvalidMove)]
    );
    assert_eq!(s.rooms[0].turn, Side::White);
}

#[test]
fn repeated_disconnect_is_a_no_op() {
    let mut s = Server::new();
    let a = s.connect(Connect);
    s.disconnect(Disconnect { id: a });
    assert!(!s.sessions.contains(&a));
    s.disconnect(Disconnect { id: a });
    assert!(!s.sessions.contains(&a));
    s.disconnect(Disconnect { id: 99 });
    assert!(s.sessions.is_empty());
    assert_eq!(s.session_id_counter, 1);
}

#[test]
fn random_room_ids_differ() {
    let mut s = Server::new();
    let a = s.connect(Connect);
    s.create_room(CreateRoom { id: a });
    s.create_room(CreateRoom { id: a });
    assert_eq!(s.rooms.len(), 2);
    assert_ne!(s.rooms[0].id, s.rooms[1].id);
}

#[test]
fn queueing_twice_does_not_pair_a_connection_with_itself() {
    let mut s = Server::new();
    let a = s.connect(Connect);
    let b = s.connect(Connect);
    assert!(s.join_queue_with_id(JoinQueue { id: a }, RoomId(1)).is_empty());
    assert!(s.join_queue_with_id(JoinQueue { id: a }, RoomId(1)).is_empty());
    assert_eq!(s.waiting_players, vec![a]);
    assert!(s.rooms.is_empty());
    let out = s.join_queue_with_id(JoinQueue { id: b }, RoomId(1));
    assert_eq!(out, vec![joined(a, RoomId(1), Side::White), joined(b, RoomId(1), Side::Black)]);
    assert!(s.waiting_players.is_empty());
}
