use http_writer::progress::finish_upload;
use http_writer::{ChannelReader, ChannelWriter, ProgressReader, UploadError};
use std::sync::mpsc::{channel, TryRecvError};

fn drain(reader: &mut ChannelReader, size: usize) -> Vec<u8> {
    let mut out = Vec::new();
    let mut buf = vec![0u8; size];
    loop {
        let n = reader.read(&mut buf);
        if n == 0 {
            return out;
        }
        out.extend_from_slice(&buf[..n]);
    }
}

#[test]
fn body_is_the_writes_in_order() {
    let (tx, rx) = channel();
    let mut writer = ChannelWriter::new(tx);
    let mut reader = ChannelReader::new(rx);
    assert_eq!(writer.write(b"hello"), Ok(5));
    assert_eq!(writer.write(b" world"), Ok(6));
    writer.close();
    assert_eq!(drain(&mut reader, 4), b"hello world".to_vec());
}

#[test]
fn body_is_the_writes_for_any_buffer_size() {
    let writes: Vec<Vec<u8>> = vec![vec![1, 2, 3], vec![4], vec![5, 6, 7, 8, 9, 10], vec![11, 12]];
    for size in [1usize, 2, 3, 5, 64] {
        let (tx, rx) = channel();
        let mut writer = ChannelWriter::new(tx);
        let mut reader = ChannelReader::new(rx);
        for w in &writes {
            assert_eq!(writer.write(w), Ok(w.len()));
        }
        writer.close();
        assert_eq!(drain(&mut reader, size), writes.concat());
    }
}

#[test]
fn a_read_never_crosses_a_chunk() {
    let (tx, rx) = channel();
    let mut writer = ChannelWriter::new(tx);
    let mut reader = ChannelReader::new(rx);
    writer.write(b"hello").unwrap();
    writer.write(b"ab").unwrap();
    let mut buf = [0u8; 3];
    assert_eq!(reader.read(&mut buf), 3);
    assert_eq!(&buf, b"hel");
    assert_eq!(reader.read(&mut buf), 2);
    assert_eq!(&buf[..2], b"lo");
    assert_eq!(buf[2], b'l');
    assert_eq!(reader.read(&mut buf), 2);
    assert_eq!(&buf[..2], b"ab");
}

#[test]
fn end_of_stream_reads_zero() {
    let (tx, rx) = channel::<Vec<u8>>();
    let mut reader = ChannelReader::new(rx);
    drop(tx);
    let mut buf = [7u8; 4];
    assert_eq!(reader.read(&mut buf), 0);
    assert_eq!(buf, [7u8; 4]);
}

#[test]
fn closed_reader_reads_zero() {
    let (tx, rx) = channel();
    let mut reader = ChannelReader::new(rx);
    tx.send(b"data".to_vec()).unwrap();
    reader.close();
    reader.close();
    let mut buf = [0u8; 4];
    assert_eq!(reader.read(&mut buf), 0);
}

#[test]
fn empty_write_sends_an_empty_chunk() {
    let (tx, rx) = channel();
    let mut writer = ChannelWriter::new(tx);
    assert_eq!(writer.write(b""), Ok(0));
    assert_eq!(rx.try_recv(), Ok(Vec::new()));
    assert_eq!(rx.try_recv(), Err(TryRecvError::Empty));
}

#[test]
fn a_write_goes_as_one_chunk() {
    let (tx, rx) = channel();
    let mut writer = ChannelWriter::new(tx);
    assert_eq!(writer.write(b"abc"), Ok(3));
    assert_eq!(rx.try_recv(), Ok(vec![97u8, 98, 99]));
    assert!(rx.try_recv().is_err());
}

#[test]
fn write_without_reader_is_broken_pipe() {
    let (tx, rx) = channel();
    let mut writer = ChannelWriter::new(tx);
    drop(rx);
    match writer.write(b"lost") {
        Err(UploadError::BrokenPipe(reason)) => assert!(!reason.is_empty()),
        other => panic!("unexpected {:?}", other),
    }
}

#[test]
fn empty_write_without_reader_is_broken_pipe() {
    let (tx, rx) = channel();
    let mut writer = ChannelWriter::new(tx);
    drop(rx);
    assert!(matches!(writer.write(b""), Err(UploadError::BrokenPipe(_))));
}

#[test]
fn empty_chunks_are_not_taken_for_the_end() {
    let (tx, rx) = channel();
    let mut writer = ChannelWriter::new(tx);
    let mut reader = ChannelReader::new(rx);
    writer.write(b"ab").unwrap();
    writer.write(b"").unwrap();
    writer.write(b"").unwrap();
    writer.write(b"cd").unwrap();
    writer.write(b"").unwrap();
    writer.close();
    let mut buf = [0u8; 8];
    assert_eq!(reader.read(&mut buf), 2);
    assert_eq!(&buf[..2], b"ab");
    assert_eq!(reader.read(&mut buf), 2);
    assert_eq!(&buf[..2], b"cd");
    assert_eq!(reader.read(&mut buf), 0);
}

#[test]
fn closed_writer_writes_nothing() {
    let (tx, rx) = channel();
    let mut writer = ChannelWriter::new(tx);
    writer.close();
    writer.close();
    assert_eq!(writer.write(b"late"), Ok(0));
    assert_eq!(writer.flush(), Ok(()));
    assert_eq!(rx.try_recv(), Err(TryRecvError::Disconnected));
}

#[test]
fn progress_counts_every_byte_read() {
    let (tx, rx) = channel();
    let mut writer = ChannelWriter::new(tx);
    let pb = indicatif::ProgressBar::hidden();
    let mut reader = ProgressReader::new(ChannelReader::new(rx), pb.clone());
    writer.write(b"hello").unwrap();
    writer.write(b" world").unwrap();
    writer.close();
    let mut buf = [0u8; 4];
    let mut body = Vec::new();
    let mut last = 0u64;
    loop {
        let n = reader.read(&mut buf);
        assert!(pb.position() >= last);
        last = pb.position();
        if n == 0 {
            break;
        }
        body.extend_from_slice(&buf[..n]);
    }
    assert_eq!(body, b"hello world".to_vec());
    assert_eq!(pb.position(), 11);
    assert_eq!(finish_upload(&pb, 200), Ok(()));
    assert!(pb.is_finished());
}

#[test]
fn failure_status_leaves_progress_unfinished() {
    let pb = indicatif::ProgressBar::hidden();
    assert_eq!(finish_upload(&pb, 500), Err(UploadError::UploadFailed(500)));
    assert!(!pb.is_finished());
}
