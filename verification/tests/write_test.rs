use mutx::{AtomicWriter, MutxError, WriteMode};

#[test]
fn test_simple_write_creates_file() {
    let mut writer = AtomicWriter::new("/tmp/mutx_write_test_simple.txt", WriteMode::Simple).unwrap();
    writer.write_all(b"hello world").unwrap();
    writer.commit().unwrap();
}

#[test]
fn test_streaming_mode() {
    let mut writer =
        AtomicWriter::new("/tmp/mutx_write_test_streaming.txt", WriteMode::Streaming).unwrap();
    writer.write_all(b"streamed ").unwrap();
    writer.write_all(b"content").unwrap();
    writer.commit().unwrap();
}

#[test]
fn test_empty_input_creates_empty_file() {
    // A session that never writes still commits an (empty) target.
    let writer = AtomicWriter::new("/tmp/mutx_write_test_empty.txt", WriteMode::Simple).unwrap();
    writer.commit().unwrap();
    let writer =
        AtomicWriter::new("/tmp/mutx_write_test_empty_stream.txt", WriteMode::Streaming).unwrap();
    writer.commit().unwrap();
}

#[test]
fn test_simple_write_atomic_on_error() {
    // The target's directory does not exist: the buffered session accepts
    // the bytes but the commit fails, and nothing was created at the target.
    let target = "/tmp/mutx_write_test_no_such_dir/test.txt";
    let mut writer = AtomicWriter::new(target, WriteMode::Simple).unwrap();
    writer.write_all(b"new content").unwrap();
    match writer.commit().unwrap_err() {
        MutxError::WriteFailed { path, .. } => assert_eq!(path, target),
        other => panic!("expected WriteFailed, got {:?}", other),
    }
}

#[test]
fn test_streaming_write_error_names_target() {
    let target = "/tmp/mutx_write_test_no_such_dir/stream.txt";
    let mut writer = AtomicWriter::new(target, WriteMode::Streaming).unwrap();
    match writer.write_all(b"bytes").unwrap_err() {
        MutxError::WriteFailed { path, .. } => assert_eq!(path, target),
        other => panic!("expected WriteFailed, got {:?}", other),
    }
}

#[test]
fn test_two_writes_same_bytes_both_commit() {
    // Two sessions fed the same bytes hand the same byte sequence to the
    // rename; both commits succeed on the same target.
    for _ in 0..2 {
        let mut writer =
            AtomicWriter::new("/tmp/mutx_write_test_repeat.txt", WriteMode::Simple).unwrap();
        writer.write_all(b"same bytes").unwrap();
        writer.commit().unwrap();
    }
}
