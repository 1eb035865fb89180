//! The decisions of the HTTP and WebSocket endpoints: from what the database answered
//! to the reply a client gets and the change that is broadcast to every client.

pub mod board_routes;
pub mod box_routes;
pub mod config_routes;
pub mod ws;

use vstd::prelude::*;

use crate::boards::Board;
use crate::boxes::PhraseBox;

verus! {

/// The HTTP statuses the endpoints answer with.
#[derive(Debug, Clone, Copy, PartialEq, Eq)]
pub enum Status {
    Success,
    Created,
    NoContent,
    NotFound,
    Conflict,
    InternalServerError,
}

/// The numeric HTTP code of a status.
pub open spec fn status_code(s: Status) -> u16 {
    match s {
        Status::Success => 200,
        Status::Created => 201,
        Status::NoContent => 204,
        Status::NotFound => 404,
        Status::Conflict => 409,
        Status::InternalServerError => 500,
    }
}

/// A 2xx status.
pub open spec fn is_success(s: Status) -> bool {
    s is Success || s is Created || s is NoContent
}

impl Status {
    /// The numeric HTTP code.
    pub fn code(&self) -> (c: u16)
        ensures
            c == status_code(*self),
    {
        match self {
            Status::Success => 200,
            Status::Created => 201,
            Status::NoContent => 204,
            Status::NotFound => 404,
            Status::Conflict => 409,
            Status::InternalServerError => 500,
        }
    }
}

/// A failed database call, with the text of the error.
#[derive(Debug, Clone, PartialEq, Eq)]
pub struct DbError {
    pub message: String,
}

/// Lightweight event broadcast over WebSocket.
#[derive(Debug, Clone, PartialEq, Eq)]
pub enum StateChange {
    /// A box was created; the new record.
    BoxCreated(PhraseBox),
    /// A box was changed; the record after the change.
    BoxUpdated(PhraseBox),
    /// A box was deleted: its UUID (as its 128-bit value) and the board it was on.
    BoxDeleted { id: u128, board_id: i32 },
    /// A board was created; the new record.
    BoardCreated(Board),
    /// A board was changed; the record after the change.
    BoardUpdated(Board),
    /// A board and its boxes were deleted.
    BoardDeleted { board_id: i32 },
    /// Every box of a board was deleted.
    BoardCleared { board_id: i32 },
}

/// The body of a reply: nothing, plain text, or a record or list sent as JSON.
#[derive(Debug, Clone, PartialEq, Eq)]
pub enum ReplyBody {
    Empty,
    Text(String),
    Board(Board),
    Boards(Vec<Board>),
    PhraseBox(PhraseBox),
    PhraseBoxes(Vec<PhraseBox>),
}

/// What an endpoint answers, and the change it broadcasts, if any.
#[derive(Debug, Clone, PartialEq, Eq)]
pub struct Reply {
    pub status: Status,
    pub body: ReplyBody,
    pub event: Option<StateChange>,
}

/// `r` reports the database error `e`: status 500 with the error's text, nothing broadcast.
pub open spec fn is_server_error(r: Reply, e: DbError) -> bool {
    &&& r.status == Status::InternalServerError
    &&& r.body == ReplyBody::Text(e.message)
    &&& r.event is None
}

/// `r` is a bare 404 that broadcasts nothing.
pub open spec fn is_not_found(r: Reply) -> bool {
    &&& r.status == Status::NotFound
    &&& r.body == ReplyBody::Empty
    &&& r.event is None
}

/// `r` broadcasts a change exactly when it reports success.
pub open spec fn broadcasts_iff_success(r: Reply) -> bool {
    r.event is Some <==> is_success(r.status)
}

/// The reply to a failed database call.
pub fn server_error(e: DbError) -> (r: Reply)
    ensures
        is_server_error(r, e),
{
    Reply { status: Status::InternalServerError, body: ReplyBody::Text(e.message), event: None }
}

/// The reply for a record that does not exist.
pub fn not_found() -> (r: Reply)
    ensures
        is_not_found(r),
{
    Reply { status: Status::NotFound, body: ReplyBody::Empty, event: None }
}

/// The numeric codes of the statuses; exactly the 2xx ones are successes.
pub proof fn lemma_status_codes(s: Status)
    ensures
        status_code(Status::Success) == 200,
        status_code(Status::Created) == 201,
        status_code(Status::NoContent) == 204,
        status_code(Status::NotFound) == 404,
        status_code(Status::Conflict) == 409,
        status_code(Status::InternalServerError) == 500,
        is_success(s) <==> 200 <= status_code(s) < 300,
{
}

/// A reply to a database error is a 500 with the error's text and no broadcast; a
/// reply for a missing record is a bare 404 with no broadcast; a reply that broadcasts
/// only on success broadcasts nothing when it fails.
pub proof fn lemma_failure_replies(r: Reply, e: DbError)
    ensures
        is_server_error(r, e) ==> status_code(r.status) == 500 && r.body == ReplyBody::Text(e.message)
            && r.event is None,
        is_not_found(r) ==> status_code(r.status) == 404 && r.body == ReplyBody::Empty && r.event is None,
        broadcasts_iff_success(r) && status_code(r.status) >= 400 ==> r.event is None,
        broadcasts_iff_success(r) && status_code(r.status) < 300 ==> r.event is Some,
{
}

} // verus!
