use service_manager::output::{OutputBuffer, LINE_BREAK, OUTPUT_CAP};

fn breaks_of(bytes: &[u8]) -> Vec<usize> {
    let mut found = Vec::new();
    for (at, byte) in bytes.iter().enumerate() {
        if *byte == b'\n' {
            found.push(at);
        }
    }
    found
}

#[test]
fn new_buffer_is_empty() {
    let buffer = OutputBuffer::new();
    assert_eq!(buffer.len(), 0);
    assert!(buffer.bytes().is_empty());
    assert!(buffer.line_index().is_empty());
}

#[test]
fn line_break_is_the_newline_byte() {
    assert_eq!(LINE_BREAK, b'\n');
    assert_eq!(OUTPUT_CAP, 2_000_000);
}

#[test]
fn append_keeps_bytes_and_indexes_line_breaks() {
    let mut buffer = OutputBuffer::new();
    buffer.append(b"hi\n");
    assert_eq!(buffer.bytes().as_slice(), b"hi\n");
    assert_eq!(buffer.line_index().as_slice(), &[2]);
    buffer.append(b"a\n\nb");
    assert_eq!(buffer.bytes().as_slice(), b"hi\na\n\nb");
    assert_eq!(buffer.line_index().as_slice(), &[2, 4, 5]);
    buffer.append(b"");
    assert_eq!(buffer.bytes().as_slice(), b"hi\na\n\nb");
    assert_eq!(buffer.line_index().as_slice(), &[2, 4, 5]);
    assert_eq!(buffer.len(), 7);
}

#[test]
fn offsets_count_from_the_start_of_the_buffer() {
    let mut buffer = OutputBuffer::new();
    buffer.append(b"0123456789");
    buffer.append(b"\n");
    buffer.append(b"x\ny\n");
    assert_eq!(buffer.line_index().as_slice(), &[10, 12, 14]);
}

#[test]
fn drained_chunks_are_joined_in_arrival_order() {
    let chunks: Vec<Vec<u8>> = vec![b"one\n".to_vec(), b"two".to_vec(), b"\nthree\n".to_vec()];
    let mut buffer = OutputBuffer::new();
    buffer.append(b"zero\n");
    buffer.append_all(&chunks);
    assert_eq!(buffer.bytes().as_slice(), b"zero\none\ntwo\nthree\n");
    assert_eq!(buffer.line_index().as_slice(), breaks_of(b"zero\none\ntwo\nthree\n").as_slice());
}

#[test]
fn line_index_entry_is_offset_of_that_line_break() {
    let mut buffer = OutputBuffer::new();
    let mut n = 0;
    while n < 40 {
        let chunk: Vec<u8> = (0..(n * 7 % 23)).map(|k| if (k + n) % 5 == 0 { b'\n' } else { b'a' }).collect();
        buffer.append(&chunk);
        n += 1;
    }
    let bytes = buffer.bytes().clone();
    let index = buffer.line_index().clone();
    assert_eq!(index, breaks_of(&bytes));
    for (i, at) in index.iter().enumerate() {
        assert_eq!(bytes[*at], b'\n');
        assert_eq!(bytes[..*at].iter().filter(|b| **b == b'\n').count(), i);
    }
}

#[test]
fn buffer_may_fill_up_to_the_cap() {
    let mut buffer = OutputBuffer::new();
    buffer.append(&vec![b'x'; OUTPUT_CAP - 1]);
    buffer.append(b"\n");
    assert_eq!(buffer.len(), OUTPUT_CAP);
    assert_eq!(buffer.line_index().as_slice(), &[OUTPUT_CAP - 1]);
}

#[test]
fn append_past_the_cap_clears_buffer_and_index() {
    let mut buffer = OutputBuffer::new();
    buffer.append(b"first\n");
    buffer.append(&vec![b'\n'; OUTPUT_CAP - 6]);
    assert_eq!(buffer.len(), OUTPUT_CAP);
    assert_eq!(buffer.line_index().len(), OUTPUT_CAP - 5);
    buffer.append(b"!");
    assert_eq!(buffer.len(), 0);
    assert!(buffer.bytes().is_empty());
    assert!(buffer.line_index().is_empty());
    buffer.append(b"after\n");
    assert_eq!(buffer.bytes().as_slice(), b"after\n");
    assert_eq!(buffer.line_index().as_slice(), &[5]);
}

#[test]
fn chunk_larger_than_the_cap_leaves_nothing() {
    let mut buffer = OutputBuffer::new();
    buffer.append(&vec![b'\n'; OUTPUT_CAP + 1]);
    assert_eq!(buffer.len(), 0);
    assert!(buffer.line_index().is_empty());
}

#[test]
fn clear_drops_bytes_and_index() {
    let mut buffer = OutputBuffer::new();
    buffer.append(b"a\nb\n");
    buffer.clear();
    assert_eq!(buffer.len(), 0);
    assert!(buffer.line_index().is_empty());
}
