//! A collaborative drag-and-drop task board: its configuration, its domain types, and
//! the decisions of its HTTP and WebSocket endpoints, with their contracts.

use vstd::prelude::*;

pub mod api;
pub mod boards;
pub mod boxes;
pub mod config;
pub mod text;
