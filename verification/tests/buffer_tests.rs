use textbuf::buffer::TextBuffer;
use textbuf::events::{BoundsError, TextBufferChangedEvent, TextPosition};

fn pos(byte_idx: usize) -> TextPosition {
    TextPosition { byte_idx }
}

#[test]
fn insert_splices_at_position() {
    let mut buffer = TextBuffer::new("hello world");
    buffer.insert(pos(5), " there").unwrap();
    assert_eq!(buffer.get_text(), "hello there world");
    assert_eq!(buffer.len_bytes(), 17);
}

#[test]
fn insert_at_start_and_end() {
    let mut buffer = TextBuffer::new("bc");
    buffer.insert(pos(0), "a").unwrap();
    assert_eq!(buffer.get_text(), "abc");
    buffer.insert(pos(3), "d").unwrap();
    assert_eq!(buffer.get_text(), "abcd");
}

#[test]
fn insert_into_empty_buffer() {
    let mut buffer = TextBuffer::new("");
    assert_eq!(buffer.len_bytes(), 0);
    buffer.insert(pos(0), "hi").unwrap();
    assert_eq!(buffer.get_text(), "hi");
}

#[test]
fn insert_then_remove_round_trip() {
    let mut buffer = TextBuffer::new("hello world");
    assert_eq!(buffer.len_bytes(), 11);
    buffer.insert(pos(5), " there").unwrap();
    assert_eq!(buffer.get_text(), "hello there world");
    assert_eq!(buffer.len_bytes(), 17);
    buffer.remove(pos(5), 6).unwrap();
    assert_eq!(buffer.get_text(), "hello world");
    assert_eq!(buffer.len_bytes(), 11);
}

#[test]
fn out_of_range_insert_is_rejected_and_harmless() {
    let mut buffer = TextBuffer::new("hello");
    let before = buffer.get_text();
    assert_eq!(buffer.insert(pos(6), "x"), Err(BoundsError));
    assert_eq!(buffer.get_text(), before);
    assert_eq!(buffer.len_bytes(), 5);
    assert_eq!(buffer.take_pending(), Vec::new());
}

#[test]
fn out_of_range_remove_is_rejected_and_harmless() {
    let mut buffer = TextBuffer::new("hello");
    let before = buffer.get_text();
    assert_eq!(buffer.remove(pos(2), 4), Err(BoundsError));
    assert_eq!(buffer.remove(pos(6), 0), Err(BoundsError));
    assert_eq!(buffer.get_text(), before);
    assert_eq!(buffer.len_bytes(), 5);
    assert_eq!(buffer.take_pending(), Vec::new());
}

#[test]
fn out_of_range_get_range_is_rejected() {
    let buffer = TextBuffer::new("hello");
    assert_eq!(buffer.get_range(3, 2), Err(BoundsError));
    assert_eq!(buffer.get_range(0, 6), Err(BoundsError));
}

#[test]
fn get_range_returns_the_substring() {
    let buffer = TextBuffer::new("hello world");
    assert_eq!(buffer.get_range(0, 5).unwrap(), "hello");
    assert_eq!(buffer.get_range(6, 11).unwrap(), "world");
    assert_eq!(buffer.get_range(4, 4).unwrap(), "");
}

#[test]
fn non_boundary_offsets_are_rejected() {
    // "é" is two bytes, so offset 2 falls inside it.
    let mut buffer = TextBuffer::new("h\u{e9}llo");
    assert_eq!(buffer.len_bytes(), 6);
    assert_eq!(buffer.insert(pos(2), "x"), Err(BoundsError));
    assert_eq!(buffer.remove(pos(1), 1), Err(BoundsError));
    assert_eq!(buffer.get_range(0, 2), Err(BoundsError));
    assert_eq!(buffer.get_text(), "h\u{e9}llo");
    assert_eq!(buffer.remove(pos(1), 2), Ok(()));
    assert_eq!(buffer.get_text(), "hllo");
}

#[test]
fn len_lines_counts_line_feeds() {
    let buffer = TextBuffer::new("a\nb\nc");
    assert_eq!(buffer.len_lines(), 3);
    let empty = TextBuffer::new("");
    assert_eq!(empty.len_lines(), 1);
    let mut trailing = TextBuffer::new("a\n");
    assert_eq!(trailing.len_lines(), 2);
    trailing.insert(pos(2), "b\nc\n").unwrap();
    assert_eq!(trailing.len_lines(), 4);
}

#[test]
fn one_mutation_queues_one_event_for_the_observer() {
    let (sender, mut receiver) = tokio::sync::mpsc::channel::<TextBufferChangedEvent>(4);
    let mut buffer = TextBuffer::new("hello world");
    buffer.add_observer(sender);
    assert_eq!(buffer.observer_count(), 1);

    buffer.insert(pos(5), " there").unwrap();
    assert_eq!(buffer.get_text(), "hello there world");

    // Drive one dispatch round, as the dispatcher would.
    let events = buffer.take_pending();
    assert_eq!(
        events,
        vec![TextBufferChangedEvent::Inserted { start_byte_idx: 5, len_bytes: 6 }]
    );
    for event in &events {
        for sender in buffer.senders() {
            sender.try_send(event.clone()).unwrap();
        }
    }

    let received = receiver.try_recv().unwrap();
    assert_eq!(received, TextBufferChangedEvent::Inserted { start_byte_idx: 5, len_bytes: 6 });
    assert!(receiver.try_recv().is_err());
    assert_eq!(buffer.take_pending(), Vec::new());
}

#[test]
fn remove_queues_a_removed_event() {
    let mut buffer = TextBuffer::new("hello there world");
    buffer.remove(pos(5), 6).unwrap();
    assert_eq!(
        buffer.take_pending(),
        vec![TextBufferChangedEvent::Removed { start_byte_idx: 5, len_bytes: 6 }]
    );
}

#[test]
fn events_are_queued_in_mutation_order() {
    let mut buffer = TextBuffer::new("abc");
    buffer.insert(pos(3), "d").unwrap();
    buffer.remove(pos(0), 1).unwrap();
    assert_eq!(
        buffer.take_pending(),
        vec![
            TextBufferChangedEvent::Inserted { start_byte_idx: 3, len_bytes: 1 },
            TextBufferChangedEvent::Removed { start_byte_idx: 0, len_bytes: 1 },
        ]
    );
}

#[test]
fn dead_observer_is_pruned_after_the_next_mutation() {
    let (alive_sender, mut alive_receiver) =
        tokio::sync::mpsc::channel::<TextBufferChangedEvent>(4);
    let (dead_sender, dead_receiver) = tokio::sync::mpsc::channel::<TextBufferChangedEvent>(4);
    let mut buffer = TextBuffer::new("hello");
    buffer.add_observer(alive_sender);
    buffer.add_observer(dead_sender);
    assert_eq!(buffer.observer_count(), 2);

    // The receiving side of the second observer goes away.
    drop(dead_receiver);

    // The next mutation's dispatch round detects it and prunes.
    buffer.insert(pos(5), "!").unwrap();
    let events = buffer.take_pending();
    let mut keep = Vec::new();
    for sender in buffer.senders() {
        let mut ok = true;
        for event in &events {
            if sender.try_send(event.clone()).is_err() {
                ok = false;
            }
        }
        keep.push(ok);
    }
    buffer.prune_observers(&keep);

    assert_eq!(buffer.observer_count(), 1);
    assert_eq!(
        alive_receiver.try_recv().unwrap(),
        TextBufferChangedEvent::Inserted { start_byte_idx: 5, len_bytes: 1 }
    );
}

#[test]
fn disjoint_edits_account_for_length_exactly() {
    // Sequential edits on disjoint, pre-validated ranges: the final length
    // is the initial length plus the net of all inserted and removed bytes.
    let mut buffer = TextBuffer::new("0123456789");
    buffer.insert(pos(10), "abcde").unwrap(); // +5
    buffer.remove(pos(0), 2).unwrap(); // -2
    buffer.insert(pos(4), "xy").unwrap(); // +2
    buffer.remove(pos(10), 3).unwrap(); // -3
    assert_eq!(buffer.len_bytes(), 10 + 5 - 2 + 2 - 3);
}
