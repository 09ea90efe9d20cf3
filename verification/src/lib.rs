//! Incremental, suspension-aware serialization of values into byte sinks and
//! deserialization out of byte sources.
//!
//! A value is written (or read) a bounded amount at a time by a resumable
//! *operation*: a state machine that owns the byte-sink or byte-source
//! capability for its whole lifetime and gives the capability back exactly
//! once, on the terminal outcome, whether that outcome is completion or
//! failure. Suspension — the transport temporarily unable to move bytes — is
//! surfaced by `step` declining to reach a terminal outcome; the operation
//! value itself is handed back so it can be advanced again later.
//!
//! The crate provides:
//! - byte-granular capability traits ([`ByteSink`], [`ByteSource`]) with
//!   contracts over the sequence of bytes moved so far;
//! - operation traits ([`AsyncWriterFuture`], [`AsyncSerialize`],
//!   [`AsyncSerializeRef`], [`AsyncDeserialize`] and their
//!   length-precomputing refinements) whose contracts pin down progress
//!   reporting, monotonicity, and what a terminal outcome returns;
//! - scripted in-memory capabilities ([`ScriptedSink`], [`ScriptedSource`])
//!   that can accept, block, or fail on demand, for driving operations
//!   deterministically;
//! - a reference codec for `u16` values in little-endian byte order, proved
//!   against the operation contracts, including a round-trip law.

mod errors;
mod capability;
mod scripted;
mod operation;
mod u16_le;
mod driver;

pub use errors::{DeserializeError, ShortInput, TransportError};
pub use capability::{ByteSink, ByteSource, ReadOutcome, WriteOutcome};
pub use scripted::{ScriptedSink, ScriptedSource, SinkAction, SourceAction};
pub use operation::{
    lemma_length_precomputation_agreement, AsyncDeserialize, AsyncSerialize, AsyncSerializeLen,
    AsyncSerializeRef, AsyncSerializeRefLen, AsyncWriterFuture, AsyncWriterFutureLen, ReaderStep,
    WriterStep,
};
pub use driver::{run_reader, run_writer, ReaderRun, WriterRun};
pub use u16_le::{
    lemma_u16_le_injective, lemma_u16_round_trip, u16_le, U16LeDeserializer, U16LeRefSerializer,
    U16LeSerializer,
};
