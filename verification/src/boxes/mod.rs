//! Phrase-box domain types.

use vstd::prelude::*;

verus! {

/// A draggable text box living on a board.
///
/// Its position is kept as the bit patterns of the two `f64` coordinates the database
/// stores (`f64::to_bits`); this library carries them and never computes with them.
#[derive(Debug, Clone, PartialEq, Eq)]
pub struct PhraseBox {
    /// The box's UUID, as its 128-bit value.
    pub id: u128,
    pub board_id: i32,
    pub text: String,
    pub color_bg: String,
    pub color_text: String,
    /// Bits of the horizontal position.
    pub pos_x: u64,
    /// Bits of the vertical position.
    pub pos_y: u64,
    pub z_index: i32,
    /// Creation time, in microseconds since the Unix epoch (UTC).
    pub created_at: i64,
    /// Time of the last change, in microseconds since the Unix epoch (UTC).
    pub updated_at: i64,
}

impl PhraseBox {
    /// A copy of the box.
    pub fn duplicate(&self) -> (d: PhraseBox)
        ensures
            d == *self,
    {
        PhraseBox {
            id: self.id,
            board_id: self.board_id,
            text: self.text.clone(),
            color_bg: self.color_bg.clone(),
            color_text: self.color_text.clone(),
            pos_x: self.pos_x,
            pos_y: self.pos_y,
            z_index: self.z_index,
            created_at: self.created_at,
            updated_at: self.updated_at,
        }
    }
}

/// Full board snapshot sent to clients on poll / WS push.
#[derive(Debug, Clone, PartialEq, Eq)]
pub struct BoardSnapshot {
    pub board_id: i32,
    pub boxes: Vec<PhraseBox>,
}

} // verus!
