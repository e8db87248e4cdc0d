use com_serial::error::{CommError, ErrorKind, Operation};
use com_serial::io::{
    begin_read, byte_read, comm_state_outcome, flush_outcome, read_outcome, write_outcome,
    ByteRead, LineReader, LineStep, ReadStart, NEWLINE,
};

#[test]
fn empty_read_needs_no_host_call() {
    assert_eq!(begin_read(0), ReadStart::Done(Ok(0)));
    assert_eq!(begin_read(1), ReadStart::Call(1));
    assert_eq!(begin_read(4096), ReadStart::Call(4096));
}

#[test]
fn zero_byte_read_is_a_timeout() {
    assert_eq!(read_outcome(Ok(0)), Err(CommError::TimedOut));
    assert_eq!(read_outcome(Ok(0)).unwrap_err().kind(), ErrorKind::TimedOut);
    assert_eq!(read_outcome(Ok(3)), Ok(3));
    assert_eq!(
        read_outcome(Err(995)),
        Err(CommError::Host { kind: ErrorKind::Interrupted, operation: Operation::Read, code: 995 })
    );
}

#[test]
fn write_and_flush_outcomes() {
    assert_eq!(write_outcome(Ok(0)), Ok(0));
    assert_eq!(write_outcome(Ok(102)), Ok(102));
    assert_eq!(
        write_outcome(Err(8)),
        Err(CommError::Host { kind: ErrorKind::ResourceExhausted, operation: Operation::Write, code: 8 })
    );
    assert_eq!(flush_outcome(Ok(())), Ok(()));
    assert_eq!(
        flush_outcome(Err(77)),
        Err(CommError::Host { kind: ErrorKind::Other, operation: Operation::Flush, code: 77 })
    );
    assert_eq!(comm_state_outcome(Err(6)).unwrap_err().kind(), ErrorKind::InvalidInput);
}

/// Reads one byte at a time from `stream` (ending with a zero-byte read)
/// until the reader finishes.
fn read_until(delim: u8, stream: &[u8], buf: &mut Vec<u8>) -> (Result<usize, CommError>, usize) {
    let reader = LineReader::new(delim, buf);
    let mut consumed = 0;
    loop {
        let read = if consumed < stream.len() {
            consumed += 1;
            byte_read(Ok(1), stream[consumed - 1])
        } else {
            byte_read(Ok(0), 0)
        };
        if let LineStep::Finished(r) = reader.on_read(buf, read) {
            return (r, consumed);
        }
    }
}

#[test]
fn read_until_stops_at_delimiter() {
    let mut buf = Vec::new();
    let (r, consumed) = read_until(b'D', b"abcD rest", &mut buf);
    assert_eq!(r, Ok(3));
    assert_eq!(buf, b"abc".to_vec());
    assert_eq!(consumed, 4);
}

#[test]
fn read_until_without_delimiter_keeps_bytes() {
    let mut buf = Vec::new();
    let (r, _) = read_until(b'D', b"abc rest", &mut buf);
    assert_eq!(r, Err(CommError::DelimiterNotFound));
    assert_eq!(r.unwrap_err().kind(), ErrorKind::Other);
    assert_eq!(buf, b"abc rest".to_vec());
}

#[test]
fn read_until_counts_only_new_bytes() {
    let mut buf = b"xy".to_vec();
    let (r, _) = read_until(NEWLINE, b"line\nnext", &mut buf);
    assert_eq!(r, Ok(4));
    assert_eq!(buf, b"xyline".to_vec());
    let mut empty = Vec::new();
    assert_eq!(read_until(NEWLINE, b"\n", &mut empty).0, Ok(0));
}

#[test]
fn read_error_propagates_from_line_read() {
    let mut buf = b"ab".to_vec();
    let reader = LineReader::new(NEWLINE, &buf);
    assert_eq!(reader.on_read(&mut buf, ByteRead::Byte(b'c')), LineStep::Continue);
    let timeout = byte_read(Err(CommError::TimedOut), 0);
    assert_eq!(timeout, ByteRead::Failed(CommError::TimedOut));
    assert_eq!(reader.on_read(&mut buf, timeout), LineStep::Finished(Err(CommError::TimedOut)));
    assert_eq!(buf, b"abc".to_vec());
}
