//! The mathematical model of the text: a UTF-8 byte sequence, with splice
//! and cut as the two edit primitives, and the lemmas the contracts rest on.

use vstd::prelude::*;
use vstd::utf8::*;

verus! {

/// The bytes of `s` with `ins` spliced in at byte offset `p`.
pub open spec fn splice(s: Seq<u8>, p: int, ins: Seq<u8>) -> Seq<u8>
    recommends
        0 <= p <= s.len(),
{
    s.subrange(0, p) + ins + s.subrange(p, s.len() as int)
}

/// The bytes of `s` with the range `[p, p + n)` cut out.
pub open spec fn cut(s: Seq<u8>, p: int, n: int) -> Seq<u8>
    recommends
        0 <= p,
        0 <= n,
        p + n <= s.len(),
{
    s.subrange(0, p) + s.subrange(p + n, s.len() as int)
}

/// How many line-feed bytes `s` holds; the line count of a text is one more.
pub open spec fn newline_count(s: Seq<u8>) -> nat
    decreases s.len(),
{
    if s.len() == 0 {
        0
    } else {
        newline_count(s.drop_last()) + (if s.last() == 10u8 {
            1nat
        } else {
            0nat
        })
    }
}

/// Splicing grows the text by exactly the length of the insertion.
pub proof fn lemma_splice_len(s: Seq<u8>, p: int, ins: Seq<u8>)
    requires
        0 <= p <= s.len(),
    ensures
        splice(s, p, ins).len() == s.len() + ins.len(),
{
}

/// Cutting shrinks the text by exactly the length of the removed range.
pub proof fn lemma_cut_len(s: Seq<u8>, p: int, n: int)
    requires
        0 <= p,
        0 <= n,
        p + n <= s.len(),
    ensures
        cut(s, p, n).len() == s.len() - n,
{
}

/// Law: inserting `ins` at offset `p` and then removing the same byte range
/// restores the original text exactly.
pub proof fn lemma_splice_cut_round_trip(s: Seq<u8>, p: int, ins: Seq<u8>)
    requires
        0 <= p <= s.len(),
    ensures
        cut(splice(s, p, ins), p, ins.len() as int) == s,
{
    assert(cut(splice(s, p, ins), p, ins.len() as int) =~= s);
}

/// One byte-level edit, used to state laws over whole edit histories.
pub enum Edit {
    Insert { pos: int, ins: Seq<u8> },
    Remove { pos: int, len: int },
}

/// Whether `e` stays within the bounds of `s`.
pub open spec fn edit_in_range(s: Seq<u8>, e: Edit) -> bool {
    match e {
        Edit::Insert { pos, .. } => 0 <= pos <= s.len(),
        Edit::Remove { pos, len } => 0 <= pos && 0 <= len && pos + len <= s.len(),
    }
}

/// The text after applying one edit.
pub open spec fn apply_edit(s: Seq<u8>, e: Edit) -> Seq<u8> {
    match e {
        Edit::Insert { pos, ins } => splice(s, pos, ins),
        Edit::Remove { pos, len } => cut(s, pos, len),
    }
}

/// Whether each edit of the history is in range at the moment it applies.
pub open spec fn edits_in_range(s: Seq<u8>, edits: Seq<Edit>) -> bool
    decreases edits.len(),
{
    edits.len() == 0 || (edit_in_range(s, edits[0]) && edits_in_range(
        apply_edit(s, edits[0]),
        edits.drop_first(),
    ))
}

/// The text after applying a whole history, oldest edit first.
pub open spec fn apply_edits(s: Seq<u8>, edits: Seq<Edit>) -> Seq<u8>
    decreases edits.len(),
{
    if edits.len() == 0 {
        s
    } else {
        apply_edits(apply_edit(s, edits[0]), edits.drop_first())
    }
}

/// The net number of bytes a history adds: inserted lengths minus removed
/// lengths.
pub open spec fn net_delta(edits: Seq<Edit>) -> int
    decreases edits.len(),
{
    if edits.len() == 0 {
        0
    } else {
        (match edits[0] {
            Edit::Insert { ins, .. } => ins.len() as int,
            Edit::Remove { len, .. } => -len,
        }) + net_delta(edits.drop_first())
    }
}

/// Law: when each edit of a history is in range at the moment it applies —
/// as every mutation the buffer accepts is — the final length equals the
/// initial length plus the net of all inserted and removed lengths: no
/// update is lost, however the callers' edits were interleaved into the
/// history.
pub proof fn lemma_edit_history_length(s: Seq<u8>, edits: Seq<Edit>)
    requires
        edits_in_range(s, edits),
    ensures
        apply_edits(s, edits).len() == s.len() + net_delta(edits),
    decreases edits.len(),
{
    if edits.len() > 0 {
        match edits[0] {
            Edit::Insert { pos, ins } => lemma_splice_len(s, pos, ins),
            Edit::Remove { pos, len } => lemma_cut_len(s, pos, len),
        }
        lemma_edit_history_length(apply_edit(s, edits[0]), edits.drop_first());
    }
}

/// Law: after inserting `ins` at a character boundary `p` of a valid text,
/// removing exactly `ins.len()` bytes at `p` is again an in-range,
/// boundary-respecting removal, and it restores the original text.
pub proof fn lemma_insert_remove_round_trip(s: Seq<u8>, p: int, ins: Seq<u8>)
    requires
        valid_utf8(s),
        valid_utf8(ins),
        0 <= p <= s.len(),
        is_char_boundary(s, p),
    ensures
        p + ins.len() <= splice(s, p, ins).len(),
        is_char_boundary(splice(s, p, ins), p),
        is_char_boundary(splice(s, p, ins), p + ins.len()),
        cut(splice(s, p, ins), p, ins.len() as int) == s,
{
    let t = splice(s, p, ins);
    lemma_splice_valid_utf8(s, p, ins);
    lemma_splice_cut_round_trip(s, p, ins);
    if p == t.len() {
        is_char_boundary_start_end_of_seq(t);
    } else {
        is_char_boundary_iff_not_is_continuation_byte(t, p);
        if ins.len() > 0 {
            assert(t[p] == ins[0]);
            is_char_boundary_start_end_of_seq(ins);
            is_char_boundary_iff_not_is_continuation_byte(ins, 0);
        } else {
            assert(t[p] == s[p]);
            is_char_boundary_iff_not_is_continuation_byte(s, p);
        }
    }
    let q = p + ins.len();
    if q == t.len() {
        is_char_boundary_start_end_of_seq(t);
    } else {
        is_char_boundary_iff_not_is_continuation_byte(t, q);
        assert(t[q] == s[p]);
        is_char_boundary_iff_not_is_continuation_byte(s, p);
    }
}

/// Splicing valid UTF-8 into valid UTF-8 at a character boundary yields
/// valid UTF-8.
pub proof fn lemma_splice_valid_utf8(s: Seq<u8>, p: int, ins: Seq<u8>)
    requires
        valid_utf8(s),
        valid_utf8(ins),
        0 <= p <= s.len(),
        is_char_boundary(s, p),
    ensures
        valid_utf8(splice(s, p, ins)),
{
    valid_utf8_split(s, p);
    valid_utf8_concat(s.subrange(0, p), ins);
    valid_utf8_concat(s.subrange(0, p) + ins, s.subrange(p, s.len() as int));
    assert(splice(s, p, ins) =~= (s.subrange(0, p) + ins) + s.subrange(p, s.len() as int));
}

/// Cutting a range whose ends lie on character boundaries out of valid UTF-8
/// yields valid UTF-8.
pub proof fn lemma_cut_valid_utf8(s: Seq<u8>, p: int, n: int)
    requires
        valid_utf8(s),
        0 <= p,
        0 <= n,
        p + n <= s.len(),
        is_char_boundary(s, p),
        is_char_boundary(s, p + n),
    ensures
        valid_utf8(cut(s, p, n)),
{
    valid_utf8_split(s, p);
    valid_utf8_split(s, p + n);
    assert(s.subrange(p + n, s.len() as int) =~= s.subrange(p + n, s.len() as int));
    valid_utf8_concat(s.subrange(0, p), s.subrange(p + n, s.len() as int));
}

} // verus!
