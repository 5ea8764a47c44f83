//! The error type shared by every decoding function.

use vstd::prelude::*;

verus! {

/// Why a decode failed. Every error is local to the file whose bytes were
/// handed in; nothing is retried internally.
#[derive(Clone, Copy, Debug, PartialEq, Eq, Structural)]
pub enum DecodeError {
    /// Reading or decompressing the byte source failed.
    IoError,
    /// Fewer bytes than the fixed file header requires.
    TruncatedHeader,
    /// A block announced more payload than the stream still holds, or the
    /// stream ended in the middle of a block.
    TruncatedBlock,
    /// The first seven bytes are not the magic signature.
    InvalidMagic,
    /// Bytes that the format declares to be text are not valid UTF-8.
    EncodingError,
}

impl DecodeError {
    /// A short human-readable description of the error.
    pub fn message(&self) -> (r: &'static str)
        ensures
            r@.len() > 0,
    {
        proof {
            reveal_strlit("could not read or decompress the byte source");
            reveal_strlit("fewer bytes than the file header requires");
            reveal_strlit("a block ends past the end of the stream");
            reveal_strlit("the magic signature is missing");
            reveal_strlit("text bytes are not valid UTF-8");
        }
        match self {
            DecodeError::IoError => "could not read or decompress the byte source",
            DecodeError::TruncatedHeader => "fewer bytes than the file header requires",
            DecodeError::TruncatedBlock => "a block ends past the end of the stream",
            DecodeError::InvalidMagic => "the magic signature is missing",
            DecodeError::EncodingError => "text bytes are not valid UTF-8",
        }
    }
}

} // verus!
