use chess_relay::bitboard::{MoveData, Side};
use chess_relay::messages::{
    ClientMessage, ClientMove, CreateRoom, Disconnect, ErrorKind, ErrorMessage, JoinQueue, JoinRoom,
    RoomId, RoomJoined,
};
use chess_relay::websocket::{same_text, HeartbeatAction, Intent, MyWebSocket, SessionAction};

fn msg(kind: &str, room_id: Option<&str>, move_data: Option<MoveData>) -> Option<ClientMessage> {
    Some(ClientMessage { kind: kind.to_string(), room_id: room_id.map(|s| s.to_string()), move_data })
}

fn reply(e: ErrorKind) -> SessionAction {
    SessionAction::Reply(ErrorMessage { error: e })
}

fn session() -> MyWebSocket {
    let mut ws = MyWebSocket::new(0);
    ws.on_connected(7);
    ws
}

#[test]
fn create_and_queue_frames_forward_intents() {
    let ws = session();
    assert_eq!(ws.handle_text(&msg("create_room", None, None)), SessionAction::Forward(Intent::CreateRoom(CreateRoom { id: 7 })));
    assert_eq!(ws.handle_text(&msg("join_queue", None, None)), SessionAction::Forward(Intent::JoinQueue(JoinQueue { id: 7 })));
}

#[test]
fn join_frame_parses_the_room_id() {
    let ws = session();
    let action = ws.handle_text(&msg("join_room", Some("67e55044-10b1-426f-9247-bb680e5fe0c8"), None));
    assert_eq!(
        action,
        SessionAction::Forward(Intent::JoinRoom(JoinRoom {
            id: 7,
            room_id: RoomId(0x67e5504410b1426f9247bb680e5fe0c8),
        }))
    );
}

#[test]
fn join_frame_with_bad_room_id() {
    let ws = session();
    assert_eq!(ws.handle_text(&msg("join_room", Some("not-a-uuid"), None)), reply(ErrorKind::InvalidRoomId));
    assert_eq!(ws.handle_text(&msg("join_room", Some(""), None)), reply(ErrorKind::InvalidRoomId));
    assert_eq!(ws.handle_text(&msg("join_room", None, None)), reply(ErrorKind::InvalidRoomId));
}

#[test]
fn move_frame_needs_a_room() {
    let mut ws = session();
    let m = MoveData { from: 12, to: 28 };
    assert_eq!(ws.handle_text(&msg("move", None, Some(m))), reply(ErrorKind::NotInRoom));
    ws.on_room_joined(&RoomJoined { room_id: RoomId(3), color: Side::White });
    assert_eq!(ws.room_id, Some(RoomId(3)));
    assert_eq!(ws.color, Some(Side::White));
    assert_eq!(
        ws.handle_text(&msg("move", None, Some(m))),
        SessionAction::Forward(Intent::ClientMove(ClientMove { id: 7, room_id: RoomId(3), move_data: m }))
    );
    assert_eq!(ws.handle_text(&msg("move", None, None)), reply(ErrorKind::InvalidMoveData));
    assert_eq!(ws.handle_text(&msg("move", None, Some(MoveData { from: 64, to: 0 }))), reply(ErrorKind::InvalidMoveData));
}

#[test]
fn unknown_and_malformed_frames() {
    let ws = session();
    assert_eq!(ws.handle_text(&msg("resign", None, None)), SessionAction::Ignore);
    assert_eq!(ws.handle_text(&None), reply(ErrorKind::InvalidMessage));
}

#[test]
fn heartbeat_probes_then_times_out() {
    let mut ws = session();
    assert_eq!(ws.heartbeat(5_000), HeartbeatAction::Ping);
    assert_eq!(ws.heartbeat(10_000), HeartbeatAction::Ping);
    ws.on_liveness(9_000);
    assert_eq!(ws.heartbeat(15_000), HeartbeatAction::Ping);
    assert_eq!(ws.heartbeat(19_001), HeartbeatAction::Stop(Some(Disconnect { id: 7 })));
    assert!(ws.closed);
}

#[test]
fn disconnect_is_sent_once() {
    let mut ws = session();
    assert_eq!(ws.close(), Some(Disconnect { id: 7 }));
    assert_eq!(ws.close(), None);
    assert_eq!(ws.heartbeat(100_000), HeartbeatAction::Stop(None));
}

#[test]
fn error_texts() {
    assert_eq!(ErrorKind::RoomNotFound.text(), "Room not found");
    assert_eq!(ErrorKind::RoomFull.text(), "Room is full");
    assert_eq!(ErrorKind::PlayerNotInRoom.text(), "Player not found in room");
    assert_eq!(ErrorKind::NotYourTurn.text(), "Not your turn");
    assert_eq!(ErrorKind::InvalidMove.text(), "Invalid move");
    assert_eq!(ErrorKind::InvalidRoomId.text(), "Invalid room ID format");
    assert_eq!(ErrorKind::InvalidMessage.text(), "Invalid message format");
    assert_eq!(ErrorKind::NotInRoom.text(), "You are not in a room");
}

#[test]
fn text_comparison() {
    assert!(same_text("move", "move"));
    assert!(!same_text("move", "mov"));
    assert!(!same_text("move", "mode"));
    assert!(same_text("", ""));
}

#[test]
fn connect_reply_records_the_id() {
    let mut ws = MyWebSocket::new(0);
    assert!(!ws.on_connect_reply(None));
    assert_eq!(ws.id, 0);
    assert!(ws.on_connect_reply(Some(12)));
    assert_eq!(ws.id, 12);
}
