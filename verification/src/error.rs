//! The error that every decoder of this crate returns.

use vstd::prelude::*;

verus! {

/// What went wrong while decoding.
#[derive(Clone, Copy, Debug, PartialEq, Eq, Structural)]
pub enum ErrorKind {
    /// A fixed-width field or a terminated string ran past the end of the
    /// buffer.
    UnexpectedEof,
    /// The four-byte marker at the front of a datagram was neither `-1`
    /// (single packet) nor `-2` (fragment).
    MalformedEnvelope,
    /// The message tag of a single packet is not one of the known tags.
    UnrecognizedMessageType,
    /// Bytes were left over where the format allows none.
    TrailingData,
    /// The placeholder byte of a Half-Life mod block was present but not zero.
    MissingNull,
    /// An INFO request did not carry the fixed query string.
    UnexpectedPayload,
}

/// A decode failure: its kind and the offset, counted from the start of the
/// buffer handed to the decoder, of the byte at which decoding stopped.
#[derive(Clone, Copy, Debug, PartialEq, Eq, Structural)]
pub struct DecodeError {
    pub kind: ErrorKind,
    pub offset: usize,
}

impl DecodeError {
    /// The error of `kind` at byte `offset`.
    pub fn new(kind: ErrorKind, offset: usize) -> (e: DecodeError)
        ensures
            e == (DecodeError { kind, offset }),
    {
        DecodeError { kind, offset }
    }

    /// True for the one kind that a caller may choose to ignore: a single
    /// packet whose tag is unknown. Every other kind means that the buffer is
    /// not what it was taken for.
    pub fn is_recoverable(&self) -> (b: bool)
        ensures
            b == (self.kind == ErrorKind::UnrecognizedMessageType),
    {
        self.kind == ErrorKind::UnrecognizedMessageType
    }
}

/// The end-of-input error at `pos`, as the specification functions build it.
pub open spec fn eof_at(pos: int) -> DecodeError {
    DecodeError { kind: ErrorKind::UnexpectedEof, offset: pos as usize }
}

} // verus!
