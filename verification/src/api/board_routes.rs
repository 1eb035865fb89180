//! Decisions of the board endpoints.

use vstd::prelude::*;
use vstd::string::*;

use crate::api::{
    is_not_found, is_server_error, not_found, server_error, DbError, Reply, ReplyBody,
    StateChange, Status,
};
use crate::boards::Board;
use crate::text;

verus! {

/// `GET /api/boards`: the boards, or the database error.
pub fn list_boards(result: Result<Vec<Board>, DbError>) -> (r: Reply)
    ensures
        r.event is None,
        match result {
            Ok(boards) => r.status == Status::Success && r.body == ReplyBody::Boards(boards),
            Err(e) => is_server_error(r, e),
        },
{
    match result {
        Ok(boards) => Reply { status: Status::Success, body: ReplyBody::Boards(boards), event: None },
        Err(e) => server_error(e),
    }
}

/// The text of the refusal when `max` boards exist already.
pub open spec fn board_limit_text(max: u32) -> Seq<char> {
    "Board limit of "@ + text::decimal_text(max as nat) + " reached"@
}

/// `r` refuses a new board because `max` boards exist: 409 with the limit's text.
pub open spec fn is_board_limit_refusal(r: Reply, max: u32) -> bool {
    &&& r.status == Status::Conflict
    &&& r.event is None
    &&& match r.body {
        ReplyBody::Text(t) => t@ == board_limit_text(max),
        _ => false,
    }
}

/// `POST /api/boards`, first step: given how many boards exist, refuse with 409 when
/// the limit `max_boards` is reached, or with 500 when counting failed; `None` lets the
/// board be created.
pub fn create_board_admission(count: Result<i64, DbError>, max_boards: u32) -> (r: Option<Reply>)
    ensures
        match count {
            Ok(n) => if n >= max_boards {
                r matches Some(reply) && is_board_limit_refusal(reply, max_boards)
            } else {
                r is None
            },
            Err(e) => r matches Some(reply) && is_server_error(reply, e),
        },
{
    match count {
        Ok(n) => {
            if n >= max_boards as i64 {
                let mut t = String::from_str("Board limit of ");
                text::push_decimal(&mut t, max_boards as u64);
                t.append(" reached");
                Some(Reply { status: Status::Conflict, body: ReplyBody::Text(t), event: None })
            } else {
                None
            }
        },
        Err(e) => Some(server_error(e)),
    }
}

/// `POST /api/boards`, second step: 201 with the new board, broadcast as created.
pub fn create_board(result: Result<Board, DbError>) -> (r: Reply)
    ensures
        crate::api::broadcasts_iff_success(r),
        match result {
            Ok(b) => r.status == Status::Created && r.body == ReplyBody::Board(b)
                && r.event == Some(StateChange::BoardCreated(b)),
            Err(e) => is_server_error(r, e),
        },
{
    match result {
        Ok(b) => {
            let event = StateChange::BoardCreated(b.duplicate());
            Reply { status: Status::Created, body: ReplyBody::Board(b), event: Some(event) }
        },
        Err(e) => server_error(e),
    }
}


/// `GET /api/boards/:id`: the board, 404 when there is none.
pub fn get_board(result: Result<Option<Board>, DbError>) -> (r: Reply)
    ensures
        r.event is None,
        match result {
            Ok(Some(b)) => r.status == Status::Success && r.body == ReplyBody::Board(b),
            Ok(None) => is_not_found(r),
            Err(e) => is_server_error(r, e),
        },
{
    match result {
        Ok(Some(b)) => Reply { status: Status::Success, body: ReplyBody::Board(b), event: None },
        Ok(None) => not_found(),
        Err(e) => server_error(e),
    }
}

/// `PATCH /api/boards/:id`: the updated board, broadcast as updated; 404 when there is
/// no such board.
pub fn update_board(result: Result<Option<Board>, DbError>) -> (r: Reply)
    ensures
        crate::api::broadcasts_iff_success(r),
        match result {
            Ok(Some(b)) => r.status == Status::Success && r.body == ReplyBody::Board(b)
                && r.event == Some(StateChange::BoardUpdated(b)),
            Ok(None) => is_not_found(r),
            Err(e) => is_server_error(r, e),
        },
{
    match result {
        Ok(Some(b)) => {
            let event = StateChange::BoardUpdated(b.duplicate());
            Reply { status: Status::Success, body: ReplyBody::Board(b), event: Some(event) }
        },
        Ok(None) => not_found(),
        Err(e) => server_error(e),
    }
}

/// `DELETE /api/boards/:id`: 204 and a broadcast when the board `id` was deleted, 404
/// when there was none.
pub fn delete_board(result: Result<bool, DbError>, id: i32) -> (r: Reply)
    ensures
        crate::api::broadcasts_iff_success(r),
        match result {
            Ok(true) => r.status == Status::NoContent && r.body == ReplyBody::Empty
                && r.event == Some(StateChange::BoardDeleted { board_id: id }),
            Ok(false) => is_not_found(r),
            Err(e) => is_server_error(r, e),
        },
{
    match result {
        Ok(true) => Reply {
            status: Status::NoContent,
            body: ReplyBody::Empty,
            event: Some(StateChange::BoardDeleted { board_id: id }),
        },
        Ok(false) => not_found(),
        Err(e) => server_error(e),
    }
}

/// `DELETE /api/boards/:board_id/boxes/clear`, first step: given the lookup of the
/// board, 404 when it does not exist, 500 when the lookup failed; `None` lets the
/// boxes be deleted.
pub fn clear_board_lookup(result: Result<Option<Board>, DbError>) -> (r: Option<Reply>)
    ensures
        match result {
            Ok(Some(_)) => r is None,
            Ok(None) => r matches Some(reply) && is_not_found(reply),
            Err(e) => r matches Some(reply) && is_server_error(reply, e),
        },
{
    match result {
        Ok(Some(_)) => None,
        Ok(None) => Some(not_found()),
        Err(e) => Some(server_error(e)),
    }
}

/// `DELETE /api/boards/:board_id/boxes/clear`, second step: 204 and a broadcast once the
/// boxes of `board_id` are deleted, however many there were.
pub fn clear_board(result: Result<u64, DbError>, board_id: i32) -> (r: Reply)
    ensures
        crate::api::broadcasts_iff_success(r),
        match result {
            Ok(_) => r.status == Status::NoContent && r.body == ReplyBody::Empty
                && r.event == Some(StateChange::BoardCleared { board_id }),
            Err(e) => is_server_error(r, e),
        },
{
    match result {
        Ok(_) => Reply {
            status: Status::NoContent,
            body: ReplyBody::Empty,
            event: Some(StateChange::BoardCleared { board_id }),
        },
        Err(e) => server_error(e),
    }
}

/// The refusal of a board over the limit is a 409 that broadcasts nothing, and its
/// text is `Board limit of `, the limit in decimal (which reads back as the limit), and
/// ` reached`.
pub proof fn lemma_board_limit_refusal(r: Reply, max: u32)
    ensures
        board_limit_text(max).len() == 23 + text::decimal_text(max as nat).len(),
        board_limit_text(max).subrange(0, 15) == "Board limit of "@,
        text::unsigned_value(
            board_limit_text(max).subrange(15, 15 + text::decimal_text(max as nat).len() as int),
            u32::MAX as nat,
        ) == Some(max as nat),
        board_limit_text(max).subrange(15 + text::decimal_text(max as nat).len() as int, board_limit_text(max).len() as int)
            == " reached"@,
        is_board_limit_refusal(r, max) ==> crate::api::status_code(r.status) == 409 && r.event is None,
{
    reveal_strlit("Board limit of ");
    reveal_strlit(" reached");
    let d = text::decimal_text(max as nat);
    let t = board_limit_text(max);
    assert(t.subrange(0, 15) =~= "Board limit of "@);
    assert(t.subrange(15, 15 + d.len() as int) =~= d);
    assert(t.subrange(15 + d.len() as int, t.len() as int) =~= " reached"@);
    text::lemma_decimal_round_trip(max as nat, u32::MAX as nat);
}

} // verus!
