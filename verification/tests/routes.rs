use task_board::api::board_routes::{
    clear_board, clear_board_lookup, create_board, create_board_admission, delete_board,
    get_board, list_boards, update_board,
};
use task_board::api::box_routes::{
    create_box, delete_box, delete_box_lookup, list_all_boxes, list_boxes, update_box,
};
use task_board::api::config_routes::{get_config, ClientConfig};
use task_board::api::ws::{handle_socket_event, SocketAction, SocketEvent};
use task_board::api::{DbError, Reply, ReplyBody, StateChange, Status};
use task_board::boards::Board;
use task_board::boxes::PhraseBox;
use task_board::config::AppSettings;

fn board(id: i32) -> Board {
    Board {
        id,
        slot: 1,
        title: "Today".to_string(),
        color: "#ff8800".to_string(),
        created_at: 1_700_000_000_000_000,
        updated_at: 1_700_000_000_000_001,
    }
}

fn phrase_box(board_id: i32) -> PhraseBox {
    PhraseBox {
        id: 0x1234_5678_9abc_def0_1234_5678_9abc_def0,
        board_id,
        text: "buy milk".to_string(),
        color_bg: "#fff".to_string(),
        color_text: "#000".to_string(),
        pos_x: 40.0f64.to_bits(),
        pos_y: 52.5f64.to_bits(),
        z_index: 0,
        created_at: 5,
        updated_at: 6,
    }
}

fn db_err() -> DbError {
    DbError { message: "Failed to fetch boards".to_string() }
}

fn server_error() -> Reply {
    Reply {
        status: Status::InternalServerError,
        body: ReplyBody::Text("Failed to fetch boards".to_string()),
        event: None,
    }
}

fn not_found() -> Reply {
    Reply { status: Status::NotFound, body: ReplyBody::Empty, event: None }
}

#[test]
fn status_codes() {
    assert_eq!(Status::Success.code(), 200);
    assert_eq!(Status::Created.code(), 201);
    assert_eq!(Status::NoContent.code(), 204);
    assert_eq!(Status::NotFound.code(), 404);
    assert_eq!(Status::Conflict.code(), 409);
    assert_eq!(Status::InternalServerError.code(), 500);
}

#[test]
fn listing_boards() {
    let r = list_boards(Ok(vec![board(1), board(2)]));
    assert_eq!(r, Reply { status: Status::Success, body: ReplyBody::Boards(vec![board(1), board(2)]), event: None });
    assert_eq!(list_boards(Err(db_err())), server_error());
}

#[test]
fn board_limit_is_enforced() {
    let r = create_board_admission(Ok(5), 5).unwrap();
    assert_eq!(r, Reply { status: Status::Conflict, body: ReplyBody::Text("Board limit of 5 reached".to_string()), event: None });
    let r = create_board_admission(Ok(7), 5).unwrap();
    assert_eq!(r.status.code(), 409);
    assert_eq!(create_board_admission(Ok(4), 5), None);
    assert_eq!(create_board_admission(Ok(0), 1), None);
    assert_eq!(create_board_admission(Ok(0), 0).unwrap().body, ReplyBody::Text("Board limit of 0 reached".to_string()));
    assert_eq!(create_board_admission(Err(db_err()), 5), Some(server_error()));
    let r = create_board_admission(Ok(4294967295), 4294967295).unwrap();
    assert_eq!(r.body, ReplyBody::Text("Board limit of 4294967295 reached".to_string()));
}

#[test]
fn creating_a_board_broadcasts_it() {
    let r = create_board(Ok(board(3)));
    assert_eq!(r, Reply { status: Status::Created, body: ReplyBody::Board(board(3)), event: Some(StateChange::BoardCreated(board(3))) });
    assert_eq!(create_board(Err(db_err())), server_error());
}

#[test]
fn getting_a_board() {
    assert_eq!(get_board(Ok(Some(board(1)))), Reply { status: Status::Success, body: ReplyBody::Board(board(1)), event: None });
    assert_eq!(get_board(Ok(None)), not_found());
    assert_eq!(get_board(Err(db_err())), server_error());
}

#[test]
fn updating_a_board_broadcasts_it() {
    assert_eq!(update_board(Ok(Some(board(2)))), Reply { status: Status::Success, body: ReplyBody::Board(board(2)), event: Some(StateChange::BoardUpdated(board(2))) });
    assert_eq!(update_board(Ok(None)), not_found());
    assert_eq!(update_board(Err(db_err())), server_error());
}

#[test]
fn deleting_a_board() {
    assert_eq!(delete_board(Ok(true), 4), Reply { status: Status::NoContent, body: ReplyBody::Empty, event: Some(StateChange::BoardDeleted { board_id: 4 }) });
    assert_eq!(delete_board(Ok(false), 4), not_found());
    assert_eq!(delete_board(Err(db_err()), 4), server_error());
}

#[test]
fn clearing_a_board() {
    assert_eq!(clear_board_lookup(Ok(Some(board(1)))), None);
    assert_eq!(clear_board_lookup(Ok(None)), Some(not_found()));
    assert_eq!(clear_board_lookup(Err(db_err())), Some(server_error()));
    for n in [0u64, 1, 40] {
        assert_eq!(clear_board(Ok(n), 9), Reply { status: Status::NoContent, body: ReplyBody::Empty, event: Some(StateChange::BoardCleared { board_id: 9 }) });
    }
    assert_eq!(clear_board(Err(db_err()), 9), server_error());
}

#[test]
fn listing_boxes() {
    assert_eq!(list_boxes(Ok(vec![phrase_box(1)])), Reply { status: Status::Success, body: ReplyBody::PhraseBoxes(vec![phrase_box(1)]), event: None });
    assert_eq!(list_boxes(Ok(vec![])), Reply { status: Status::Success, body: ReplyBody::PhraseBoxes(vec![]), event: None });
    assert_eq!(list_all_boxes(Ok(vec![phrase_box(1), phrase_box(2)])), Reply { status: Status::Success, body: ReplyBody::PhraseBoxes(vec![phrase_box(1), phrase_box(2)]), event: None });
    assert_eq!(list_boxes(Err(db_err())), server_error());
    assert_eq!(list_all_boxes(Err(db_err())), server_error());
}

#[test]
fn creating_and_updating_boxes_broadcasts_them() {
    assert_eq!(create_box(Ok(phrase_box(2))), Reply { status: Status::Created, body: ReplyBody::PhraseBox(phrase_box(2)), event: Some(StateChange::BoxCreated(phrase_box(2))) });
    assert_eq!(create_box(Err(db_err())), server_error());
    assert_eq!(update_box(Ok(Some(phrase_box(3)))), Reply { status: Status::Success, body: ReplyBody::PhraseBox(phrase_box(3)), event: Some(StateChange::BoxUpdated(phrase_box(3))) });
    assert_eq!(update_box(Ok(None)), not_found());
    assert_eq!(update_box(Err(db_err())), server_error());
}

#[test]
fn deleting_a_box_names_its_board() {
    assert_eq!(delete_box_lookup(Ok(Some(7))), Ok(7));
    assert_eq!(delete_box_lookup(Ok(None)), Err(not_found()));
    assert_eq!(delete_box_lookup(Err(db_err())), Err(server_error()));
    let id = 0xdead_beef_u128;
    assert_eq!(delete_box(Ok(true), id, 7), Reply { status: Status::NoContent, body: ReplyBody::Empty, event: Some(StateChange::BoxDeleted { id, board_id: 7 }) });
    assert_eq!(delete_box(Ok(false), id, 7), not_found());
    assert_eq!(delete_box(Err(db_err()), id, 7), server_error());
}

#[test]
fn failed_or_missing_mutations_broadcast_nothing() {
    let replies = vec![
        create_board(Err(db_err())),
        update_board(Ok(None)),
        delete_board(Ok(false), 1),
        clear_board(Err(db_err()), 1),
        create_box(Err(db_err())),
        update_box(Ok(None)),
        delete_box(Ok(false), 1, 1),
    ];
    for r in replies {
        assert!(r.event.is_none());
        assert!(r.status.code() >= 400);
    }
}

#[test]
fn client_config_copies_the_settings() {
    let settings = AppSettings {
        default_canvas_width: "1024".to_string(),
        default_canvas_height: "768.5".to_string(),
        delete_tap_count: 2,
        max_boards: 5,
        separate_add_tab: true,
    };
    assert_eq!(get_config(&settings), ClientConfig {
        delete_tap_count: 2,
        default_canvas_width: "1024".to_string(),
        default_canvas_height: "768.5".to_string(),
        separate_add_tab: true,
    });
}

#[test]
fn socket_decisions() {
    assert_eq!(handle_socket_event(SocketEvent::Change(Some("{\"event\":\"BoardCleared\",\"data\":{\"board_id\":1}}".to_string()))),
        SocketAction::SendText("{\"event\":\"BoardCleared\",\"data\":{\"board_id\":1}}".to_string()));
    assert_eq!(handle_socket_event(SocketEvent::Change(None)), SocketAction::Continue);
    assert_eq!(handle_socket_event(SocketEvent::Lagged(12)), SocketAction::Continue);
    assert_eq!(handle_socket_event(SocketEvent::ChannelClosed), SocketAction::Disconnect);
    assert_eq!(handle_socket_event(SocketEvent::Sent), SocketAction::Continue);
    assert_eq!(handle_socket_event(SocketEvent::SendFailed), SocketAction::Disconnect);
    assert_eq!(handle_socket_event(SocketEvent::ClientFrame), SocketAction::Continue);
    assert_eq!(handle_socket_event(SocketEvent::ClientGone), SocketAction::Disconnect);
    assert_eq!(handle_socket_event(SocketEvent::OtherLoopEnded), SocketAction::Disconnect);
}
