//! Decode faults of the binary primitive codec.

use vstd::prelude::*;

verus! {

/// A local, recoverable fault raised while decoding a length-prefixed
/// primitive or a TLV sequence.  The caller decides whether to abort the
/// enclosing parse or to skip the field.
#[derive(Clone, Copy, Debug, PartialEq, Eq, Structural)]
pub enum DecodeError {
    /// A declared length exceeds the bytes that remain.
    Truncated,
    /// A declared length is physically impossible (a string length below 4).
    InvalidLength,
    /// The declared payload is not valid UTF-8 text.
    InvalidText,
    /// A TLV tag width other than 1, 2 or 4 was requested.
    UnsupportedTagWidth,
}

} // verus!
