//! The text content of one document, held in a rope so that edits on large
//! documents stay sub-linear in cost.

use vstd::prelude::*;
use vstd::string::*;
use vstd::utf8::*;
use crate::events::BoundsError;
use crate::model::{cut, lemma_cut_valid_utf8, lemma_splice_len, lemma_splice_valid_utf8, newline_count, splice};
use crate::rope_api::{
    rope_byte_at, rope_byte_range_to_string, rope_bytes, rope_from_str, rope_insert,
    rope_len_bytes, rope_len_lines, rope_remove, rope_to_string,
};

verus! {

/// A byte-addressed text store.
///
/// Every operation is specified against the store's mathematical model,
/// [`TextStore::bytes`]: the UTF-8 byte sequence of the whole text. An
/// offset is accepted exactly when it is in range and lies on a character
/// boundary; a rejected call returns [`BoundsError`] and changes nothing.
pub struct TextStore {
    rope: ropey::Rope,
}

impl TextStore {
    /// The contents as a byte sequence: the model every contract speaks of.
    pub closed spec fn bytes(self) -> Seq<u8> {
        rope_bytes(self.rope)
    }

    /// Well-formedness: the contents are valid UTF-8. The constructor
    /// establishes it and every operation preserves it.
    pub open spec fn wf(self) -> bool {
        valid_utf8(self.bytes())
    }

    /// Builds a store holding exactly the given text.
    pub fn new(initial_text: &str) -> (s: Self)
        ensures
            s.wf(),
            s.bytes() == initial_text.spec_bytes(),
    {
        proof {
            encode_utf8_valid_utf8(initial_text@);
        }
        TextStore { rope: rope_from_str(initial_text) }
    }

    /// The current length of the text in bytes.
    pub fn len_bytes(&self) -> (n: usize)
        ensures
            n == self.bytes().len(),
    {
        rope_len_bytes(&self.rope)
    }

    /// The current number of lines: one more than the number of line-feed
    /// bytes in the text.
    pub fn len_lines(&self) -> (n: usize)
        ensures
            n == newline_count(self.bytes()) + 1,
    {
        rope_len_lines(&self.rope)
    }

    /// Whether byte offset `pos` lies on a character boundary of the
    /// contents (the end of the text counts as one).
    fn boundary_at(&self, pos: usize) -> (b: bool)
        requires
            self.wf(),
            pos <= self.bytes().len(),
        ensures
            b == is_char_boundary(self.bytes(), pos as int),
    {
        let n = rope_len_bytes(&self.rope);
        if pos == n {
            proof {
                is_char_boundary_start_end_of_seq(self.bytes());
            }
            true
        } else {
            let byte = rope_byte_at(&self.rope, pos);
            proof {
                is_char_boundary_iff_not_is_continuation_byte(self.bytes(), pos as int);
            }
            !(0x80u8 <= byte && byte <= 0xbfu8)
        }
    }

    /// Splices `text` into the contents at byte offset `pos`.
    ///
    /// Succeeds exactly when `pos` is in range (insertion at the very end is
    /// allowed) and on a character boundary; a failed call leaves the store
    /// untouched.
    pub fn insert(&mut self, pos: usize, text: &str) -> (r: Result<(), BoundsError>)
        requires
            old(self).wf(),
        ensures
            final(self).wf(),
            r is Ok <==> pos <= old(self).bytes().len() && is_char_boundary(
                old(self).bytes(),
                pos as int,
            ),
            r is Ok ==> final(self).bytes() == splice(
                old(self).bytes(),
                pos as int,
                text.spec_bytes(),
            ),
            r is Ok ==> old(self).bytes().len() + text.spec_bytes().len() <= usize::MAX,
            r is Err ==> *final(self) == *old(self),
    {
        let n = self.len_bytes();
        if pos > n {
            return Err(BoundsError);
        }
        if !self.boundary_at(pos) {
            return Err(BoundsError);
        }
        proof {
            encode_utf8_valid_utf8(text@);
            lemma_splice_valid_utf8(self.bytes(), pos as int, text.spec_bytes());
        }
        rope_insert(&mut self.rope, pos, text);
        proof {
            lemma_splice_len(old(self).bytes(), pos as int, text.spec_bytes());
        }
        Ok(())
    }

    /// Deletes the byte range `[pos, pos + len_bytes)` from the contents.
    ///
    /// Succeeds exactly when the range is in bounds and both of its ends lie
    /// on character boundaries; a failed call leaves the store untouched.
    pub fn remove(&mut self, pos: usize, len_bytes: usize) -> (r: Result<(), BoundsError>)
        requires
            old(self).wf(),
        ensures
            final(self).wf(),
            r is Ok <==> pos + len_bytes <= old(self).bytes().len() && is_char_boundary(
                old(self).bytes(),
                pos as int,
            ) && is_char_boundary(old(self).bytes(), pos + len_bytes),
            r is Ok ==> final(self).bytes() == cut(old(self).bytes(), pos as int, len_bytes as int),
            r is Err ==> *final(self) == *old(self),
    {
        let n = self.len_bytes();
        if pos > n || len_bytes > n - pos {
            return Err(BoundsError);
        }
        if !self.boundary_at(pos) {
            return Err(BoundsError);
        }
        let end = pos + len_bytes;
        if !self.boundary_at(end) {
            return Err(BoundsError);
        }
        proof {
            lemma_cut_valid_utf8(self.bytes(), pos as int, len_bytes as int);
        }
        rope_remove(&mut self.rope, pos, end);
        Ok(())
    }

    /// A byte-exact snapshot of the whole contents.
    pub fn get_text(&self) -> (s: String)
        ensures
            encode_utf8(s@) == self.bytes(),
    {
        rope_to_string(&self.rope)
    }

    /// A copy of the byte range `[start, end)` of the contents.
    ///
    /// Succeeds exactly when `start <= end <= len_bytes` and both ends lie on
    /// character boundaries.
    pub fn get_range(&self, start: usize, end: usize) -> (r: Result<String, BoundsError>)
        requires
            self.wf(),
        ensures
            r is Ok <==> start <= end <= self.bytes().len() && is_char_boundary(
                self.bytes(),
                start as int,
            ) && is_char_boundary(self.bytes(), end as int),
            r is Ok ==> encode_utf8(r->Ok_0@) == self.bytes().subrange(start as int, end as int),
    {
        let n = self.len_bytes();
        if start > end || end > n {
            return Err(BoundsError);
        }
        if !self.boundary_at(start) {
            return Err(BoundsError);
        }
        if !self.boundary_at(end) {
            return Err(BoundsError);
        }
        Ok(rope_byte_range_to_string(&self.rope, start, end))
    }
}

} // verus!
