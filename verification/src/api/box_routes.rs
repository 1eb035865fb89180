//! Decisions of the phrase-box endpoints.

use vstd::prelude::*;

use crate::api::{
    is_not_found, is_server_error, not_found, server_error, DbError, Reply, ReplyBody,
    StateChange, Status,
};
use crate::boxes::PhraseBox;

verus! {

/// `GET /api/boards/:board_id/boxes`: the boxes of the board, or the database error.
pub fn list_boxes(result: Result<Vec<PhraseBox>, DbError>) -> (r: Reply)
    ensures
        r.event is None,
        match result {
            Ok(boxes) => r.status == Status::Success && r.body == ReplyBody::PhraseBoxes(boxes),
            Err(e) => is_server_error(r, e),
        },
{
    match result {
        Ok(boxes) => Reply { status: Status::Success, body: ReplyBody::PhraseBoxes(boxes), event: None },
        Err(e) => server_error(e),
    }
}

/// `GET /api/boxes`: every box of every board, or the database error.
pub fn list_all_boxes(result: Result<Vec<PhraseBox>, DbError>) -> (r: Reply)
    ensures
        r.event is None,
        match result {
            Ok(boxes) => r.status == Status::Success && r.body == ReplyBody::PhraseBoxes(boxes),
            Err(e) => is_server_error(r, e),
        },
{
    list_boxes(result)
}

/// `POST /api/boards/:board_id/boxes`: 201 with the new box, broadcast as created.
pub fn create_box(result: Result<PhraseBox, DbError>) -> (r: Reply)
    ensures
        crate::api::broadcasts_iff_success(r),
        match result {
            Ok(b) => r.status == Status::Created && r.body == ReplyBody::PhraseBox(b)
                && r.event == Some(StateChange::BoxCreated(b)),
            Err(e) => is_server_error(r, e),
        },
{
    match result {
        Ok(b) => {
            let event = StateChange::BoxCreated(b.duplicate());
            Reply { status: Status::Created, body: ReplyBody::PhraseBox(b), event: Some(event) }
        },
        Err(e) => server_error(e),
    }
}

/// `PATCH /api/boxes/:id`: the updated box, broadcast as updated; 404 when there is no
/// such box.
pub fn update_box(result: Result<Option<PhraseBox>, DbError>) -> (r: Reply)
    ensures
        crate::api::broadcasts_iff_success(r),
        match result {
            Ok(Some(b)) => r.status == Status::Success && r.body == ReplyBody::PhraseBox(b)
                && r.event == Some(StateChange::BoxUpdated(b)),
            Ok(None) => is_not_found(r),
            Err(e) => is_server_error(r, e),
        },
{
    match result {
        Ok(Some(b)) => {
            let event = StateChange::BoxUpdated(b.duplicate());
            Reply { status: Status::Success, body: ReplyBody::PhraseBox(b), event: Some(event) }
        },
        Ok(None) => not_found(),
        Err(e) => server_error(e),
    }
}

/// `DELETE /api/boxes/:id`, first step: given the lookup of the box's board, the board's
/// id to go on with, or the reply: 404 when there is no such box, 500 when the lookup
/// failed.
pub fn delete_box_lookup(result: Result<Option<i32>, DbError>) -> (r: Result<i32, Reply>)
    ensures
        match result {
            Ok(Some(board_id)) => r == Ok::<i32, Reply>(board_id),
            Ok(None) => r matches Err(reply) && is_not_found(reply),
            Err(e) => r matches Err(reply) && is_server_error(reply, e),
        },
{
    match result {
        Ok(Some(board_id)) => Ok(board_id),
        Ok(None) => Err(not_found()),
        Err(e) => Err(server_error(e)),
    }
}

/// `DELETE /api/boxes/:id`, second step: 204 and a broadcast naming the box and its
/// board when the box was deleted, 404 when it was gone already.
pub fn delete_box(result: Result<bool, DbError>, id: u128, board_id: i32) -> (r: Reply)
    ensures
        crate::api::broadcasts_iff_success(r),
        match result {
            Ok(true) => r.status == Status::NoContent && r.body == ReplyBody::Empty
                && r.event == Some(StateChange::BoxDeleted { id, board_id }),
            Ok(false) => is_not_found(r),
            Err(e) => is_server_error(r, e),
        },
{
    match result {
        Ok(true) => Reply {
            status: Status::NoContent,
            body: ReplyBody::Empty,
            event: Some(StateChange::BoxDeleted { id, board_id }),
        },
        Ok(false) => not_found(),
        Err(e) => server_error(e),
    }
}

} // verus!
