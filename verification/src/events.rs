//! Positions, change events and the error type shared by every operation.

use vstd::prelude::*;

verus! {

/// A position inside the text, as a zero-based byte offset.
///
/// Valid offsets for an insertion run from `0` to the current byte length
/// inclusive; positions are never line/column pairs.
#[derive(Debug, Clone, PartialEq, Eq, Structural)]
pub struct TextPosition {
    pub byte_idx: usize,
}

/// The single error kind for every offset or range violation.
///
/// A mutation or read that fails with this error has changed nothing.
#[derive(Debug, Clone, PartialEq, Eq, Structural)]
pub struct BoundsError;

/// One completed mutation of the buffer, never a batch.
///
/// Both variants speak in byte units.
#[derive(Debug, Clone, PartialEq, Eq, Structural)]
pub enum TextBufferChangedEvent {
    /// A run of `len_bytes` bytes was inserted at `start_byte_idx`.
    Inserted { start_byte_idx: usize, len_bytes: usize },
    /// The bytes `[start_byte_idx, start_byte_idx + len_bytes)` were removed.
    Removed { start_byte_idx: usize, len_bytes: usize },
}

} // verus!
