//! Board domain types.

use vstd::prelude::*;

verus! {

/// A named, coloured lane that owns a set of boxes.
#[derive(Debug, Clone, PartialEq, Eq)]
pub struct Board {
    pub id: i32,
    /// Slot number (order position, 1-based).
    pub slot: i16,
    pub title: String,
    pub color: String,
    /// Creation time, in microseconds since the Unix epoch (UTC).
    pub created_at: i64,
    /// Time of the last change, in microseconds since the Unix epoch (UTC).
    pub updated_at: i64,
}

impl Board {
    /// A copy of the board.
    pub fn duplicate(&self) -> (d: Board)
        ensures
            d == *self,
    {
        Board {
            id: self.id,
            slot: self.slot,
            title: self.title.clone(),
            color: self.color.clone(),
            created_at: self.created_at,
            updated_at: self.updated_at,
        }
    }
}

/// Payload for creating a new board.
#[derive(Debug, Clone, PartialEq, Eq)]
pub struct CreateBoardRequest {
    pub title: String,
    pub color: Option<String>,
}

/// Payload accepted when updating a board's metadata; absent fields stay as they are.
#[derive(Debug, Clone, PartialEq, Eq)]
pub struct UpdateBoardRequest {
    pub title: Option<String>,
    pub color: Option<String>,
}

} // verus!
