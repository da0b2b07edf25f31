//! A byte-addressed text container with change notification.
//!
//! The library is built from four pieces, leaves first:
//! - `store::TextStore`: the text content itself, held in a rope so that
//!   edits on large documents stay cheap; byte-indexed insert, remove,
//!   slicing and length queries, every operation specified against a
//!   mathematical byte-sequence model.
//! - `bus::ChangeBus`: the set of delivery endpoints that want to hear
//!   about edits, with verified registration and pruning of dead endpoints.
//! - `buffer::TextBuffer`: the facade over both; each completed mutation
//!   appends exactly one event to a pending queue that a dispatcher drains.
//! - `document::Document`: file identity, a dirty flag and a language tag
//!   around one buffer.

pub mod buffer;
pub mod bus;
pub mod document;
pub mod events;
pub mod model;
pub mod rope_api;
pub mod store;
