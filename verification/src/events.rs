//! Payloads of the native input signals a view exposes.
//!
//! Cursor coordinates are carried as integer-scaled values in the view's
//! coordinate space; the scale is the embedder's choice and this core only
//! passes the numbers through.

use vstd::prelude::*;

verus! {

/// A mouse button was pressed inside the view.
#[derive(Clone, Copy, Debug, PartialEq, Eq, Structural)]
pub struct MouseDown {
    pub x: i64,
    pub y: i64,
}

/// A mouse button was released inside the view.
#[derive(Clone, Copy, Debug, PartialEq, Eq, Structural)]
pub struct MouseUp {
    pub x: i64,
    pub y: i64,
}

/// The cursor entered the view's bounds.
#[derive(Clone, Copy, Debug, PartialEq, Eq, Structural)]
pub struct MouseEnter {
    pub x: i64,
    pub y: i64,
}

/// The cursor left the view's bounds.
#[derive(Clone, Copy, Debug, PartialEq, Eq, Structural)]
pub struct MouseLeave {
    pub x: i64,
    pub y: i64,
}

} // verus!
