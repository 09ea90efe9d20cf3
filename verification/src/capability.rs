//! Byte-sink and byte-source capabilities: abstract handles granting write or
//! read access to a byte stream, independent of the transport behind them.
//!
//! Both capabilities move one byte per call and may instead report that they
//! would block (suspension is inherited from the transport, never invented by
//! a codec) or that the transport failed. A source may additionally report
//! end of input. The contracts speak of the stream as a sequence of bytes:
//! everything a sink has accepted so far, and everything a source has yet to
//! deliver.

use vstd::prelude::*;

use crate::errors::TransportError;

verus! {

/// What a single write attempt did.
#[derive(Clone, Copy, Debug)]
pub enum WriteOutcome {
    /// The byte was accepted by the sink.
    Accepted,
    /// The sink cannot accept a byte right now; nothing was consumed.
    WouldBlock,
    /// The transport failed; nothing was consumed.
    Failed(TransportError),
}

/// What a single read attempt did.
#[derive(Clone, Copy, Debug)]
pub enum ReadOutcome {
    /// The next byte of the stream.
    Byte(u8),
    /// The source has nothing to deliver right now; nothing was consumed.
    WouldBlock,
    /// The stream has ended: no byte remains to be delivered, ever.
    EndOfInput,
    /// The transport failed; nothing was consumed.
    Failed(TransportError),
}

/// A byte-sink capability: exclusive write access to a byte stream.
///
/// `written()` is the model of the stream: every byte the sink has accepted,
/// in order, since the sink existed.
pub trait ByteSink: Sized {
    /// All bytes this sink has accepted so far, in order. The default model
    /// is the empty stream; every sink of this crate overrides it.
    open spec fn written(&self) -> Seq<u8> {
        Seq::empty()
    }

    /// True when this sink will accept every byte offered to it from now on:
    /// it will neither block nor fail again. False by default: no promise.
    open spec fn always_ready(&self) -> bool {
        false
    }

    /// Offer one byte to the sink.
    ///
    /// On `Accepted` the stream grows by exactly that byte; on `WouldBlock`
    /// or `Failed` the stream is unchanged, so the caller may retry the same
    /// byte later.
    fn write_byte(&mut self, b: u8) -> (r: WriteOutcome)
        ensures
            (match r {
                WriteOutcome::Accepted => final(self).written() == old(self).written().push(b),
                WriteOutcome::WouldBlock => final(self).written() == old(self).written(),
                WriteOutcome::Failed(_) => final(self).written() == old(self).written(),
            }),
            old(self).always_ready() ==> r is Accepted && final(self).always_ready(),
    ;
}

/// A byte-source capability: exclusive read access to a byte stream.
///
/// `available()` is the model of the stream: every byte the source will ever
/// deliver from now on, in order.
pub trait ByteSource: Sized {
    /// All bytes this source has yet to deliver, in order. The default model
    /// is the empty stream; every source of this crate overrides it.
    open spec fn available(&self) -> Seq<u8> {
        Seq::empty()
    }

    /// True when this source will answer every read from now on with either
    /// the next byte or end of input: it will neither block nor fail again.
    /// False by default: no promise.
    open spec fn always_live(&self) -> bool {
        false
    }

    /// Ask the source for the next byte.
    ///
    /// On `Byte` the stream shrinks by exactly that byte; `EndOfInput` means
    /// the stream is empty; on `WouldBlock` or `Failed` the stream is
    /// unchanged, so the caller may retry later.
    fn read_byte(&mut self) -> (r: ReadOutcome)
        ensures
            (match r {
                ReadOutcome::Byte(b) =>
                    old(self).available().len() > 0
                    && b == old(self).available()[0]
                    && final(self).available() == old(self).available().skip(1),
                ReadOutcome::WouldBlock => final(self).available() == old(self).available(),
                ReadOutcome::EndOfInput =>
                    old(self).available().len() == 0
                    && final(self).available() == old(self).available(),
                ReadOutcome::Failed(_) => final(self).available() == old(self).available(),
            }),
            old(self).always_live() ==> !(r is WouldBlock) && !(r is Failed)
                && final(self).always_live(),
    ;
}

} // verus!
