//! A document: file identity, a dirty flag and a language tag around one
//! text buffer.

use vstd::prelude::*;
use vstd::string::*;
use crate::buffer::TextBuffer;

verus! {

/// The characters of `path` after its last `'/'`; the whole of `path` when
/// it holds no `'/'`; empty when `path` is empty or ends in `'/'`.
pub open spec fn base_name(path: Seq<char>) -> Seq<char>
    decreases path.len(),
{
    if path.len() == 0 {
        Seq::empty()
    } else if path.last() == '/' {
        Seq::empty()
    } else {
        base_name(path.drop_last()).push(path.last())
    }
}

/// The final component of `path`, read as a file name is: trailing `'/'`
/// separators and `"."` components are ignored; empty when nothing is left
/// (an empty path, only separators) or when the path ends in a `".."`
/// component.
pub open spec fn file_name_of(path: Seq<char>) -> Seq<char>
    decreases path.len(),
{
    if path.len() == 0 {
        Seq::empty()
    } else if path.last() == '/' {
        file_name_of(path.drop_last())
    } else if base_name(path).len() == 1 && base_name(path)[0] == '.' {
        file_name_of(path.drop_last())
    } else if base_name(path).len() == 2 && base_name(path)[0] == '.' && base_name(path)[1]
        == '.' {
        Seq::empty()
    } else {
        base_name(path)
    }
}

/// When no `'/'` stands at or after position `i` and position `i` is either
/// the start or just after a `'/'`, the base name is the suffix from `i`.
proof fn lemma_base_name_suffix(path: Seq<char>, i: int)
    requires
        0 <= i <= path.len(),
        forall|k: int| i <= k < path.len() ==> path[k] != '/',
        i > 0 ==> path[i - 1] == '/',
    ensures
        base_name(path) == path.subrange(i, path.len() as int),
    decreases path.len(),
{
    if i == path.len() {
        if path.len() > 0 && path.last() != '/' {
            assert(path[i - 1] == '/');
        }
        assert(base_name(path) =~= path.subrange(i, path.len() as int));
    } else {
        lemma_base_name_suffix(path.drop_last(), i);
        assert(base_name(path) =~= path.subrange(i, path.len() as int));
    }
}

/// The character range `[start, end)` of the path's final component, `None`
/// when the path has none (see [`file_name_of`]).
fn file_stem_range(s: &str) -> (r: Option<(usize, usize)>)
    ensures
        match r {
            None => file_name_of(s@).len() == 0,
            Some(range) => range.0 < range.1 <= s@.len() && s@.subrange(
                range.0 as int,
                range.1 as int,
            ) == file_name_of(s@),
        },
{
    let n = s.unicode_len();
    proof {
        assert(s@.subrange(0, n as int) =~= s@);
    }
    let mut end: usize = n;
    while end > 0
        invariant
            end <= n,
            n == s@.len(),
            file_name_of(s@) == file_name_of(s@.subrange(0, end as int)),
        decreases end,
    {
        let ghost p = s@.subrange(0, end as int);
        if s.get_char(end - 1) == '/' {
            proof {
                assert(p.drop_last() =~= s@.subrange(0, end - 1));
            }
            end -= 1;
        } else {
            let mut start: usize = end - 1;
            while start > 0 && s.get_char(start - 1) != '/'
                invariant
                    start < end <= n,
                    n == s@.len(),
                    forall|k: int| start <= k < end ==> s@[k] != '/',
                decreases start,
            {
                start -= 1;
            }
            proof {
                assert(forall|k: int| start <= k < p.len() ==> p[k] != '/');
                lemma_base_name_suffix(p, start as int);
                assert(base_name(p) =~= s@.subrange(start as int, end as int));
            }
            if end - start == 1 && s.get_char(start) == '.' {
                proof {
                    assert(base_name(p).len() == 1 && base_name(p)[0] == '.');
                    assert(p.drop_last() =~= s@.subrange(0, start as int));
                }
                end = start;
            } else if end - start == 2 && s.get_char(start) == '.' && s.get_char(start + 1)
                == '.' {
                proof {
                    assert(base_name(p)[0] == '.' && base_name(p)[1] == '.');
                }
                return None;
            } else {
                return Some((start, end));
            }
        }
    }
    proof {
        assert(s@.subrange(0, 0) =~= Seq::<char>::empty());
    }
    None
}

/// One open document.
///
/// The document adds no text manipulation of its own: the buffer never flips
/// the dirty flag, and the flag never touches the buffer.
pub struct Document {
    /// Path of the backing file; `None` for an unsaved document.
    pub file_path: Option<String>,
    /// The text content and its change notification.
    pub text_buffer: TextBuffer,
    dirty: bool,
    /// A language tag such as `"rust"` or `"plaintext"`.
    pub language_id: String,
}

impl Document {
    /// Whether the document has unsaved changes.
    pub closed spec fn dirty(self) -> bool {
        self.dirty
    }

    /// The path of the backing file, `None` for an unsaved document.
    pub closed spec fn path(self) -> Option<String> {
        self.file_path
    }

    /// The text buffer the document owns.
    pub closed spec fn buffer(self) -> TextBuffer {
        self.text_buffer
    }

    /// The document's language tag.
    pub closed spec fn language(self) -> String {
        self.language_id
    }

    /// A document over a fresh buffer holding `initial_content`, initially
    /// clean.
    pub fn new(file_path: Option<String>, initial_content: &str, language_id: String) -> (d: Self)
        ensures
            d.path() == file_path,
            d.language() == language_id,
            !d.dirty(),
            d.buffer().wf(),
            d.buffer().bytes() == initial_content.spec_bytes(),
            d.buffer().pending() == Seq::<
                crate::events::TextBufferChangedEvent,
            >::empty(),
            d.buffer().observers() == Seq::<
                tokio::sync::mpsc::Sender<crate::events::TextBufferChangedEvent>,
            >::empty(),
    {
        Document {
            file_path,
            text_buffer: TextBuffer::new(initial_content),
            dirty: false,
            language_id,
        }
    }

    /// Whether the document has unsaved changes.
    pub fn is_dirty(&self) -> (b: bool)
        ensures
            b == self.dirty(),
    {
        self.dirty
    }

    /// Sets the dirty flag; nothing else changes.
    pub fn set_dirty(&mut self, dirty: bool)
        ensures
            final(self).dirty() == dirty,
            final(self).path() == old(self).path(),
            final(self).buffer() == old(self).buffer(),
            final(self).language() == old(self).language(),
    {
        self.dirty = dirty;
    }

    /// Read access to the underlying text buffer.
    pub fn get_text_buffer(&self) -> (buffer: &TextBuffer)
        ensures
            *buffer == self.buffer(),
    {
        &self.text_buffer
    }

    /// Mutable access to the underlying text buffer, for the editing
    /// controller. Whatever the caller does through it, the dirty flag, the
    /// path and the language tag stay as they are: only an explicit
    /// [`Document::set_dirty`] moves the flag.
    pub fn get_text_buffer_mut(&mut self) -> (buffer: &mut TextBuffer)
        ensures
            *buffer == old(self).buffer(),
            final(self).buffer() == *final(buffer),
            final(self).dirty() == old(self).dirty(),
            final(self).path() == old(self).path(),
            final(self).language() == old(self).language(),
    {
        &mut self.text_buffer
    }

    /// A display name for the document: the final component of the path
    /// (trailing separators and `"."` components ignored), or `"Untitled"`
    /// when there is no path or no such component — an empty path, only
    /// separators, or a path ending in `".."`.
    pub fn file_name(&self) -> (name: String)
        ensures
            self.path() is None ==> name@ == "Untitled"@,
            self.path() is Some ==> name@ == (if file_name_of(self.path()->Some_0@).len() == 0 {
                "Untitled"@
            } else {
                file_name_of(self.path()->Some_0@)
            }),
    {
        match &self.file_path {
            None => "Untitled".to_owned(),
            Some(path) => {
                let s = path.as_str();
                match file_stem_range(s) {
                    None => "Untitled".to_owned(),
                    Some(range) => s.substring_char(range.0, range.1).to_owned(),
                }
            },
        }
    }
}

} // verus!
