//! Errors of the record decoder.

use vstd::prelude::*;

verus! {

/// Why the bytes at some offset are not a record.
#[derive(Clone, Copy, Debug, PartialEq, Eq, Structural)]
pub enum DecodeErrorKind {
    /// The tag byte introduces no known record.
    UnknownRecordTag,
    /// The record's length runs past the end of the buffer.
    RecordLengthOverflow,
    /// A byte whose value the format fixes holds something else.
    MalformedRecord,
    /// A name reaches the end of its field without a NUL byte.
    MissingTerminator,
    /// The bytes of a name are not UTF-8.
    InvalidName,
}

/// A decode failure, with the place it happened at: the byte offset of the
/// failing record in the code buffer and the tag byte found there.
#[derive(Clone, Copy, Debug, PartialEq, Eq, Structural)]
pub struct DecodeError {
    pub offset: usize,
    pub tag: u8,
    pub kind: DecodeErrorKind,
}

} // verus!
