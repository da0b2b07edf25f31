//! The facade over the text store and the change bus: the single entry
//! point for mutation, queries and subscription management.

use vstd::prelude::*;
use vstd::string::*;
use vstd::utf8::*;
use crate::bus::{filter_by, ChangeBus};
use crate::events::{BoundsError, TextBufferChangedEvent, TextPosition};
use crate::model::{cut, newline_count, splice};
use crate::store::TextStore;

verus! {

/// A shared, mutable, edit-efficient text container with change
/// notification.
///
/// Each successful mutation updates the content and queues exactly one
/// event; a failed mutation changes nothing at all. The queued events are
/// handed, oldest first, to a dispatcher that performs the actual sends and
/// reports dead endpoints back through [`TextBuffer::prune_observers`].
pub struct TextBuffer {
    store: TextStore,
    bus: ChangeBus,
}

impl TextBuffer {
    /// The content as a byte sequence: the model the contracts speak of.
    pub closed spec fn bytes(self) -> Seq<u8> {
        self.store.bytes()
    }

    /// The events queued for dispatch, oldest first.
    pub closed spec fn pending(self) -> Seq<TextBufferChangedEvent> {
        self.bus.queued()
    }

    /// The registered delivery endpoints, in registration order.
    pub closed spec fn observers(self) -> Seq<tokio::sync::mpsc::Sender<TextBufferChangedEvent>> {
        self.bus.endpoints()
    }

    /// Well-formedness: the content is valid UTF-8.
    pub open spec fn wf(self) -> bool {
        valid_utf8(self.bytes())
    }

    /// A buffer holding the given text, with no observers and no queued
    /// events.
    pub fn new(initial_text: &str) -> (buffer: Self)
        ensures
            buffer.wf(),
            buffer.bytes() == initial_text.spec_bytes(),
            buffer.pending() == Seq::<TextBufferChangedEvent>::empty(),
            buffer.observers() == Seq::<
                tokio::sync::mpsc::Sender<TextBufferChangedEvent>,
            >::empty(),
    {
        TextBuffer { store: TextStore::new(initial_text), bus: ChangeBus::new() }
    }

    /// Splices `text` into the content at `position` and queues one
    /// `Inserted` event for it.
    ///
    /// Succeeds exactly when the position is in range (the end of the text
    /// included) and on a character boundary; a failed call returns
    /// [`BoundsError`] and leaves content, queue and observers unchanged.
    pub fn insert(&mut self, position: TextPosition, text: &str) -> (r: Result<(), BoundsError>)
        requires
            old(self).wf(),
        ensures
            final(self).wf(),
            r is Ok <==> position.byte_idx <= old(self).bytes().len() && is_char_boundary(
                old(self).bytes(),
                position.byte_idx as int,
            ),
            r is Ok ==> final(self).bytes() == splice(
                old(self).bytes(),
                position.byte_idx as int,
                text.spec_bytes(),
            ),
            r is Ok ==> final(self).pending() == old(self).pending().push(
                TextBufferChangedEvent::Inserted {
                    start_byte_idx: position.byte_idx,
                    len_bytes: text.len(),
                },
            ),
            r is Ok ==> old(self).bytes().len() + text.spec_bytes().len() <= usize::MAX,
            final(self).observers() == old(self).observers(),
            r is Err ==> *final(self) == *old(self),
    {
        let len_bytes = text.len();
        match self.store.insert(position.byte_idx, text) {
            Ok(()) => {
                self.bus.dispatch(
                    TextBufferChangedEvent::Inserted {
                        start_byte_idx: position.byte_idx,
                        len_bytes,
                    },
                );
                Ok(())
            },
            Err(e) => Err(e),
        }
    }

    /// Deletes the byte range `[position, position + len_bytes)` from the
    /// content and queues one `Removed` event for it.
    ///
    /// Succeeds exactly when the range is in bounds and both ends lie on
    /// character boundaries; a failed call returns [`BoundsError`] and
    /// leaves content, queue and observers unchanged.
    pub fn remove(&mut self, position: TextPosition, len_bytes: usize) -> (r: Result<
        (),
        BoundsError,
    >)
        requires
            old(self).wf(),
        ensures
            final(self).wf(),
            r is Ok <==> position.byte_idx + len_bytes <= old(self).bytes().len()
                && is_char_boundary(old(self).bytes(), position.byte_idx as int)
                && is_char_boundary(old(self).bytes(), position.byte_idx + len_bytes),
            r is Ok ==> final(self).bytes() == cut(
                old(self).bytes(),
                position.byte_idx as int,
                len_bytes as int,
            ),
            r is Ok ==> final(self).pending() == old(self).pending().push(
                TextBufferChangedEvent::Removed {
                    start_byte_idx: position.byte_idx,
                    len_bytes,
                },
            ),
            final(self).observers() == old(self).observers(),
            r is Err ==> *final(self) == *old(self),
    {
        match self.store.remove(position.byte_idx, len_bytes) {
            Ok(()) => {
                self.bus.dispatch(
                    TextBufferChangedEvent::Removed {
                        start_byte_idx: position.byte_idx,
                        len_bytes,
                    },
                );
                Ok(())
            },
            Err(e) => Err(e),
        }
    }

    /// A byte-exact snapshot of the whole content; never fails.
    pub fn get_text(&self) -> (s: String)
        ensures
            encode_utf8(s@) == self.bytes(),
    {
        self.store.get_text()
    }

    /// A copy of the byte range `[start_byte_idx, end_byte_idx)` of the
    /// content.
    ///
    /// Succeeds exactly when `start <= end <= len_bytes` and both ends lie
    /// on character boundaries; otherwise returns [`BoundsError`].
    pub fn get_range(&self, start_byte_idx: usize, end_byte_idx: usize) -> (r: Result<
        String,
        BoundsError,
    >)
        requires
            self.wf(),
        ensures
            r is Ok <==> start_byte_idx <= end_byte_idx <= self.bytes().len() && is_char_boundary(
                self.bytes(),
                start_byte_idx as int,
            ) && is_char_boundary(self.bytes(), end_byte_idx as int),
            r is Ok ==> encode_utf8(r->Ok_0@) == self.bytes().subrange(
                start_byte_idx as int,
                end_byte_idx as int,
            ),
    {
        self.store.get_range(start_byte_idx, end_byte_idx)
    }

    /// The current length of the content in bytes; never fails.
    pub fn len_bytes(&self) -> (n: usize)
        ensures
            n == self.bytes().len(),
    {
        self.store.len_bytes()
    }

    /// The current number of lines: one more than the number of line-feed
    /// bytes in the content; never fails.
    pub fn len_lines(&self) -> (n: usize)
        ensures
            n == newline_count(self.bytes()) + 1,
    {
        self.store.len_lines()
    }

    /// Registers one delivery endpoint; never fails, removes nothing and
    /// leaves the content alone.
    pub fn add_observer(&mut self, sender: tokio::sync::mpsc::Sender<TextBufferChangedEvent>)
        ensures
            final(self).observers() == old(self).observers().push(sender),
            final(self).bytes() == old(self).bytes(),
            final(self).pending() == old(self).pending(),
            final(self).wf() == old(self).wf(),
    {
        self.bus.register(sender);
    }

    /// The number of registered observers.
    pub fn observer_count(&self) -> (n: usize)
        ensures
            n == self.observers().len(),
    {
        self.bus.endpoint_count()
    }

    /// Read access to the observers' endpoints, for the dispatcher that
    /// performs the actual sends.
    pub fn senders(&self) -> (v: &Vec<tokio::sync::mpsc::Sender<TextBufferChangedEvent>>)
        ensures
            v@ == self.observers(),
    {
        self.bus.senders()
    }

    /// Hands out the queued events, oldest first, leaving the queue empty.
    pub fn take_pending(&mut self) -> (events: Vec<TextBufferChangedEvent>)
        ensures
            events@ == old(self).pending(),
            final(self).pending() == Seq::<TextBufferChangedEvent>::empty(),
            final(self).bytes() == old(self).bytes(),
            final(self).observers() == old(self).observers(),
            final(self).wf() == old(self).wf(),
    {
        self.bus.take_pending()
    }

    /// Removes every observer whose flag is false, keeping the rest in
    /// order; the dispatcher flags an observer false exactly when delivering
    /// to it failed because its receiving side is gone.
    pub fn prune_observers(&mut self, keep: &Vec<bool>)
        requires
            keep@.len() == old(self).observers().len(),
        ensures
            final(self).observers() == filter_by(old(self).observers(), keep@),
            final(self).bytes() == old(self).bytes(),
            final(self).pending() == old(self).pending(),
            final(self).wf() == old(self).wf(),
    {
        self.bus.prune(keep);
    }
}

} // verus!


