//! Error types: transport failures reported by a byte-sink or byte-source
//! capability, data errors reported by a codec, and the discriminated
//! deserialization error that keeps the two apart.

use vstd::prelude::*;

verus! {

/// A failure originating from the underlying byte-sink or byte-source
/// capability itself (the transport), as opposed to the bytes it carried.
///
/// The `code` field identifies the kind of failure; its meaning is chosen by
/// the capability implementation.
#[derive(Clone, Copy, Debug, PartialEq, Eq, Structural)]
pub struct TransportError {
    /// Implementation-chosen identifier for the kind of transport failure.
    pub code: u32,
}

/// A data error of the reference codec: the source ended before a complete
/// encoding was read.
///
/// The transport behaved correctly; the bytes it delivered were simply too
/// few to form a valid encoding.
#[derive(Clone, Copy, Debug, PartialEq, Eq, Structural)]
pub struct ShortInput {
    /// How many bytes were read before the source reported end of input.
    pub have: usize,
    /// How many bytes a complete encoding requires.
    pub need: usize,
}

/// An error that occurred during deserialization.
///
/// The two variants are never conflated: a caller can always tell "the
/// transport failed" apart from "the transport succeeded but the bytes were
/// not a valid encoding".
#[derive(Debug, PartialEq, Eq)]
pub enum DeserializeError<E> {
    /// An error propagated from the underlying byte source.
    ReaderError(TransportError),
    /// An error describing why the read data could not be deserialized into
    /// a value.
    DataError(E),
}

impl<E> From<TransportError> for DeserializeError<E> {
    fn from(err: TransportError) -> (r: DeserializeError<E>) {
        DeserializeError::ReaderError(err)
    }
}

impl<E> vstd::std_specs::convert::FromSpecImpl<TransportError> for DeserializeError<E> {
    open spec fn obeys_from_spec() -> bool {
        true
    }

    open spec fn from_spec(err: TransportError) -> Self {
        DeserializeError::ReaderError(err)
    }
}

} // verus!
