//! The decisions around the host's byte-stream calls: what a read, write,
//! flush or control-block read reports for each host answer, and the
//! delimited read that is built from one-byte reads.

use vstd::prelude::*;
use crate::dcb::DCB;
use crate::error::{CommError, Operation, host_error, system_to_io_err};

verus! {

/// The delimiter of `read_line`.
pub const NEWLINE: u8 = 0x0A;

/// How a read begins.
#[derive(Clone, Copy, Debug, PartialEq, Eq)]
pub enum ReadStart {
    /// The read is over without asking the host.
    Done(Result<usize, CommError>),
    /// Ask the host for at most this many bytes.
    Call(u32),
}

/// How a read of a buffer of `buf_len` bytes begins: an empty buffer is
/// answered with 0 at once; otherwise the host is asked for as many bytes as
/// fit the buffer and one host call.
pub fn begin_read(buf_len: usize) -> (r: ReadStart)
    ensures
        buf_len == 0 ==> r == ReadStart::Done(Ok(0)),
        buf_len > 0 && buf_len <= u32::MAX ==> r == ReadStart::Call(buf_len as u32),
        buf_len > u32::MAX ==> r == ReadStart::Call(u32::MAX),
{
    if buf_len == 0 {
        ReadStart::Done(Ok(0))
    } else if buf_len > u32::MAX as usize {
        ReadStart::Call(u32::MAX)
    } else {
        ReadStart::Call(buf_len as u32)
    }
}

/// What a read reports when the host answered `host`: the number of bytes
/// read, a timeout when the host succeeded with none (the line has no end of
/// stream), or the translated failure.
pub fn read_outcome(host: Result<u32, i32>) -> (r: Result<usize, CommError>)
    ensures
        r == match host {
            Ok(n) => if n == 0 {
                Err(CommError::TimedOut)
            } else {
                Ok(n as usize)
            },
            Err(c) => Err(host_error(Operation::Read, c)),
        },
{
    match host {
        Ok(0) => Err(CommError::TimedOut),
        Ok(n) => Ok(n as usize),
        Err(c) => Err(system_to_io_err(Operation::Read, c)),
    }
}

/// What a write reports when the host answered `host`.
pub fn write_outcome(host: Result<u32, i32>) -> (r: Result<usize, CommError>)
    ensures
        r == match host {
            Ok(n) => Ok(n as usize),
            Err(c) => Err(host_error(Operation::Write, c)),
        },
{
    match host {
        Ok(n) => Ok(n as usize),
        Err(c) => Err(system_to_io_err(Operation::Write, c)),
    }
}

/// What a flush reports when the host answered `host`.
pub fn flush_outcome(host: Result<(), i32>) -> (r: Result<(), CommError>)
    ensures
        r == match host {
            Ok(()) => Ok(()),
            Err(c) => Err(host_error(Operation::Flush, c)),
        },
{
    match host {
        Ok(()) => Ok(()),
        Err(c) => Err(system_to_io_err(Operation::Flush, c)),
    }
}

/// What a read of the control block reports when the host answered `host`.
pub fn comm_state_outcome(host: Result<DCB, i32>) -> (r: Result<DCB, CommError>)
    ensures
        r == match host {
            Ok(d) => Ok(d),
            Err(c) => Err(host_error(Operation::GetCommState, c)),
        },
{
    match host {
        Ok(d) => Ok(d),
        Err(c) => Err(system_to_io_err(Operation::GetCommState, c)),
    }
}

/// What a one-byte read delivered.
#[derive(Clone, Copy, Debug, PartialEq, Eq)]
pub enum ByteRead {
    Byte(u8),
    /// The read succeeded with no byte: the stream ended.
    Nothing,
    Failed(CommError),
}

/// What a delimited read does after one byte read.
#[derive(Clone, Copy, Debug, PartialEq, Eq)]
pub enum LineStep {
    /// Read another byte.
    Continue,
    Finished(Result<usize, CommError>),
}

/// A read until a delimiter, appending to a buffer that held `start` bytes
/// when it began.
pub struct LineReader {
    pub delim: u8,
    pub start: usize,
}

impl LineReader {
    /// A delimited read that appends to `buf`.
    pub fn new(delim: u8, buf: &Vec<u8>) -> (r: LineReader)
        ensures
            r.delim == delim,
            r.start == buf@.len(),
    {
        LineReader { delim, start: buf.len() }
    }

    /// Takes the result of one byte read. A byte other than the delimiter is
    /// appended and the read goes on; the delimiter ends it with the number of
    /// bytes appended, the delimiter not among them; a stream that ends first
    /// fails with `DelimiterNotFound`, and a failed read fails with its error.
    /// The bytes appended so far stay in `buf` whatever the ending.
    pub fn on_read(&self, buf: &mut Vec<u8>, read: ByteRead) -> (r: LineStep)
        requires
            old(buf)@.len() >= self.start,
        ensures
            match read {
                ByteRead::Byte(b) => if b == self.delim {
                    &&& r == LineStep::Finished(Ok((old(buf)@.len() - self.start) as usize))
                    &&& final(buf)@ == old(buf)@
                } else {
                    &&& r == LineStep::Continue
                    &&& final(buf)@ == old(buf)@.push(b)
                },
                ByteRead::Nothing => {
                    &&& r == LineStep::Finished(Err(CommError::DelimiterNotFound))
                    &&& final(buf)@ == old(buf)@
                },
                ByteRead::Failed(e) => {
                    &&& r == LineStep::Finished(Err(e))
                    &&& final(buf)@ == old(buf)@
                },
            },
    {
        match read {
            ByteRead::Byte(b) => {
                if b == self.delim {
                    LineStep::Finished(Ok(buf.len() - self.start))
                } else {
                    buf.push(b);
                    LineStep::Continue
                }
            },
            ByteRead::Nothing => LineStep::Finished(Err(CommError::DelimiterNotFound)),
            ByteRead::Failed(e) => LineStep::Finished(Err(e)),
        }
    }
}

/// What a one-byte read delivered, from what `read` reported and the byte
/// it filled in.
pub fn byte_read(read: Result<usize, CommError>, byte: u8) -> (r: ByteRead)
    ensures
        r == match read {
            Ok(n) => if n == 0 {
                ByteRead::Nothing
            } else {
                ByteRead::Byte(byte)
            },
            Err(e) => ByteRead::Failed(e),
        },
{
    match read {
        Ok(0) => ByteRead::Nothing,
        Ok(_) => ByteRead::Byte(byte),
        Err(e) => ByteRead::Failed(e),
    }
}

} // verus!
