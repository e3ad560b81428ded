use rux_http::buf::{BufferOverflow, ByteBuffer};

#[test]
fn a_new_buffer_is_empty_and_all_room() {
    let buffer = ByteBuffer::with_capacity(8);
    assert_eq!(buffer.capacity(), 8);
    assert_eq!(buffer.readable(), 0);
    assert_eq!(buffer.writable(), 8);
    assert!(!buffer.is_readable());
    assert!(buffer.is_writable());
    assert_eq!(buffer.slice(0), b"");
}

#[test]
fn write_appends_and_slice_skips() {
    let mut buffer = ByteBuffer::with_capacity(8);
    assert_eq!(buffer.write(b"abc"), Ok(3));
    assert_eq!(buffer.write(b"de"), Ok(2));
    assert_eq!(buffer.readable(), 5);
    assert_eq!(buffer.writable(), 3);
    assert_eq!(buffer.slice(0), b"abcde");
    assert_eq!(buffer.slice(2), b"cde");
    assert_eq!(buffer.slice(5), b"");
}

#[test]
fn write_that_does_not_fit_changes_nothing() {
    let mut buffer = ByteBuffer::with_capacity(4);
    assert_eq!(buffer.write(b"abc"), Ok(3));
    assert_eq!(buffer.write(b"de"), Err(BufferOverflow { capacity: 4 }));
    assert_eq!(buffer.slice(0), b"abc");
    assert_eq!(buffer.writable(), 1);
    assert_eq!(buffer.write(b"d"), Ok(1));
    assert!(!buffer.is_writable());
}

#[test]
fn consume_drops_from_the_front() {
    let mut buffer = ByteBuffer::with_capacity(8);
    buffer.write(b"abcde").unwrap();
    buffer.consume(2);
    assert_eq!(buffer.slice(0), b"cde");
    assert_eq!(buffer.readable(), 3);
    // The room behind the write cursor is what it was.
    assert_eq!(buffer.writable(), 3);
}

#[test]
fn consume_of_everything_starts_over() {
    let mut buffer = ByteBuffer::with_capacity(8);
    buffer.write(b"abcde").unwrap();
    buffer.consume(5);
    assert_eq!(buffer.readable(), 0);
    assert_eq!(buffer.writable(), 8);
    assert_eq!(buffer.capacity(), 8);
}

#[test]
fn reset_discards_contents_and_keeps_capacity() {
    let mut buffer = ByteBuffer::with_capacity(8);
    buffer.write(b"abcde").unwrap();
    buffer.reset();
    assert_eq!(buffer.readable(), 0);
    assert_eq!(buffer.writable(), 8);
    assert_eq!(buffer.capacity(), 8);
    buffer.reset();
    assert_eq!(buffer.readable(), 0);
    assert_eq!(buffer.writable(), 8);
}

#[test]
fn extend_takes_the_room_as_it_stands() {
    let mut buffer = ByteBuffer::with_capacity(8);
    buffer.write(b"abcde").unwrap();
    buffer.reset();
    buffer.extend(3);
    assert_eq!(buffer.slice(0), b"abc");
    assert_eq!(buffer.writable(), 5);
    let mut zeros = ByteBuffer::with_capacity(4);
    zeros.extend(2);
    assert_eq!(zeros.slice(0), &[0u8, 0u8]);
}

#[test]
fn reserve_adds_room_and_keeps_contents() {
    let mut buffer = ByteBuffer::with_capacity(4);
    buffer.write(b"abcd").unwrap();
    buffer.consume(1);
    buffer.reserve(4);
    assert_eq!(buffer.capacity(), 8);
    assert_eq!(buffer.writable(), 4);
    assert_eq!(buffer.slice(0), b"bcd");
    buffer.write(b"efgh").unwrap();
    assert_eq!(buffer.slice(0), b"bcdefgh");
    buffer.extend(0);
    assert_eq!(buffer.readable(), 7);
}

#[test]
fn writing_in_two_pieces_is_writing_at_once() {
    let mut parts = ByteBuffer::with_capacity(16);
    parts.write(b"hello ").unwrap();
    parts.write(b"world").unwrap();
    let mut whole = ByteBuffer::with_capacity(16);
    whole.write(b"hello world").unwrap();
    assert_eq!(parts.slice(0), whole.slice(0));
    assert_eq!(parts.readable(), whole.readable());
    assert_eq!(parts.writable(), whole.writable());
}
