//! The trusted boundary around `ropey::Rope`.
//!
//! The rope's contents are named by the uninterpreted function [`rope_bytes`];
//! each wrapper below states over that name what the ropey call does, as its
//! source shows it. With ropey's default features switched off, lines are
//! split on line-feed bytes alone, which is what the line-count contract says.

use vstd::prelude::*;
use vstd::string::*;
use vstd::utf8::*;
use crate::model::{cut, newline_count, splice};

verus! {

#[verifier::external_type_specification]
#[verifier::external_body]
pub struct ExRope(ropey::Rope);

/// The text that a rope holds, as its UTF-8 byte sequence.
pub uninterp spec fn rope_bytes(r: ropey::Rope) -> Seq<u8>;

/// Relies on ropey::Rope::from_str: builds a rope holding exactly the given
/// text.
#[verifier::external_body]
pub(crate) fn rope_from_str(text: &str) -> (r: ropey::Rope)
    ensures
        rope_bytes(r) == text.spec_bytes(),
{
    ropey::Rope::from_str(text)
}

/// Relies on ropey::Rope::len_bytes: the total byte count of the contents.
#[verifier::external_body]
pub(crate) fn rope_len_bytes(r: &ropey::Rope) -> (n: usize)
    ensures
        n == rope_bytes(*r).len(),
{
    r.len_bytes()
}

/// Relies on ropey::Rope::len_lines: one more than the number of line breaks;
/// with ropey's default features off, only a line-feed byte breaks a line.
#[verifier::external_body]
pub(crate) fn rope_len_lines(r: &ropey::Rope) -> (n: usize)
    ensures
        n == newline_count(rope_bytes(*r)) + 1,
{
    r.len_lines()
}

/// Relies on ropey::Rope::byte: the byte at the given index.
#[verifier::external_body]
pub(crate) fn rope_byte_at(r: &ropey::Rope, byte_idx: usize) -> (b: u8)
    requires
        byte_idx < rope_bytes(*r).len(),
    ensures
        b == rope_bytes(*r)[byte_idx as int],
{
    r.byte(byte_idx)
}

/// Relies on ropey::Rope::byte_to_char and ropey::Rope::insert: splices the
/// text's bytes into the contents at the given byte offset, which must lie
/// on a character boundary.
#[verifier::external_body]
pub(crate) fn rope_insert(r: &mut ropey::Rope, byte_idx: usize, text: &str)
    requires
        byte_idx <= rope_bytes(*old(r)).len(),
        is_char_boundary(rope_bytes(*old(r)), byte_idx as int),
    ensures
        rope_bytes(*final(r)) == splice(rope_bytes(*old(r)), byte_idx as int, text.spec_bytes()),
        rope_bytes(*final(r)).len() <= usize::MAX,
{
    let char_idx = r.byte_to_char(byte_idx);
    r.insert(char_idx, text);
}

/// Relies on ropey::Rope::byte_to_char and ropey::Rope::remove: deletes the
/// byte range `[start, end)`, whose ends must lie on character boundaries.
#[verifier::external_body]
pub(crate) fn rope_remove(r: &mut ropey::Rope, start: usize, end: usize)
    requires
        start <= end <= rope_bytes(*old(r)).len(),
        is_char_boundary(rope_bytes(*old(r)), start as int),
        is_char_boundary(rope_bytes(*old(r)), end as int),
    ensures
        rope_bytes(*final(r)) == cut(rope_bytes(*old(r)), start as int, end - start),
{
    let char_start = r.byte_to_char(start);
    let char_end = r.byte_to_char(end);
    r.remove(char_start..char_end);
}

/// Relies on ropey::Rope's Display impl (through to_string): the whole
/// contents as one String.
#[verifier::external_body]
pub(crate) fn rope_to_string(r: &ropey::Rope) -> (s: String)
    ensures
        encode_utf8(s@) == rope_bytes(*r),
{
    r.to_string()
}

/// Relies on ropey::Rope::byte_slice and RopeSlice's Display impl: the byte
/// range `[start, end)` of the contents as one String; the range ends must
/// lie on character boundaries.
#[verifier::external_body]
pub(crate) fn rope_byte_range_to_string(r: &ropey::Rope, start: usize, end: usize) -> (s: String)
    requires
        start <= end <= rope_bytes(*r).len(),
        is_char_boundary(rope_bytes(*r), start as int),
        is_char_boundary(rope_bytes(*r), end as int),
    ensures
        encode_utf8(s@) == rope_bytes(*r).subrange(start as int, end as int),
{
    r.byte_slice(start..end).to_string()
}

} // verus!
