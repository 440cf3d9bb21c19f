use flexion::ring_buffer::RingBuffer;

#[test]
fn ring_buffer() {
    let mut rb = RingBuffer::<4>::new();
    let mut reader = rb.reader().unwrap();
    let mut writer = rb.writer().unwrap();

    // Nothing to read
    assert!(reader.try_read(&mut rb).is_none());

    // Write and read a byte
    let ret = writer.try_write(&mut rb, &[123]);
    assert_eq!(ret, Some(1));
    let ret = reader.try_read(&mut rb);
    assert_eq!(ret, Some(vec![123]));

    // Write further bytes: three fit up to the end of the buffer ...
    let ret = writer.try_write(&mut rb, &[42, 42, 42, 42]);
    assert_eq!(ret, Some(3));
    // ... and one more at its start
    let ret = writer.try_write(&mut rb, &[43, 43, 43]);
    assert_eq!(ret, Some(1));
    assert!(writer.try_write(&mut rb, &[]).is_none());

    // Read all bytes
    assert_eq!(reader.try_read(&mut rb), Some(vec![42, 42, 42]));
    assert_eq!(reader.try_read(&mut rb), Some(vec![43]));
}

#[test]
fn ensure_spsc() {
    let mut rb = RingBuffer::<4>::new();
    {
        let r1 = rb.reader();
        assert!(r1.is_some());
        let r2 = rb.reader();
        assert!(r2.is_none());
        let w1 = rb.writer();
        assert!(w1.is_some());
        let w2 = rb.writer();
        assert!(w2.is_none());
        rb.release_reader(r1.unwrap());
        rb.release_writer(w1.unwrap());
    }
    let r3 = rb.reader();
    assert!(r3.is_some());
    let w3 = rb.writer();
    assert!(w3.is_some());
}

#[test]
fn handle_usize_overflow() {
    let mut rb = RingBuffer::<4>::starting_at(usize::MAX);

    let mut writer = rb.writer().unwrap();
    assert_eq!(writer.try_write(&mut rb, &[1, 2, 3, 4]), Some(1));
    assert_eq!(writer.try_write(&mut rb, &[2, 3, 4]), Some(3));

    let mut reader = rb.reader().unwrap();
    assert_eq!(reader.try_read(&mut rb).map(|buf| buf.len()), Some(1));
    assert_eq!(reader.try_read(&mut rb).map(|buf| buf.len()), Some(3));
}

#[test]
fn write_str_wraps_and_reads_back_in_order() {
    let mut rb = RingBuffer::<8>::starting_at(6);
    let mut writer = rb.writer().unwrap();
    let mut reader = rb.reader().unwrap();
    assert_eq!(writer.write_str(&mut rb, "hello"), 5);
    let mut read = Vec::new();
    while let Some(chunk) = reader.try_read(&mut rb) {
        read.extend(chunk);
    }
    assert_eq!(read, b"hello".to_vec());
}

#[test]
fn write_str_stops_when_full() {
    let mut rb = RingBuffer::<4>::new();
    let mut writer = rb.writer().unwrap();
    assert_eq!(writer.write_str(&mut rb, "abcdef"), 4);
    assert_eq!(writer.write_str(&mut rb, "g"), 0);
    let mut reader = rb.reader().unwrap();
    assert_eq!(reader.try_read(&mut rb), Some(b"abcd".to_vec()));
}

#[test]
fn clear_drops_unread_bytes() {
    let mut rb = RingBuffer::<4>::new();
    let mut writer = rb.writer().unwrap();
    let mut reader = rb.reader().unwrap();
    assert_eq!(writer.try_write(&mut rb, &[1, 2]), Some(2));
    reader.clear(&mut rb);
    assert!(reader.try_read(&mut rb).is_none());
    assert_eq!(writer.try_write(&mut rb, &[3]), Some(1));
    assert_eq!(reader.try_read(&mut rb), Some(vec![3]));
}
