//! Resumable serialization and deserialization operations.
//!
//! An operation is created by binding a byte-sink or byte-source capability
//! (and, for serialization, a value) at a single point, and is driven by
//! repeated calls to `step`. Each `step` consumes the operation and returns
//! either the operation itself — suspension, the transport would block — or a
//! terminal outcome. Both terminal outcomes, completion and failure, carry
//! the bound capability: ownership makes it impossible to reach a terminal
//! outcome without giving the capability back, and impossible to give it back
//! twice or early.
//!
//! There is no cancel primitive: dropping an operation forfeits the bound
//! capability and any partial progress. A capability abandoned that way
//! should be treated as unusable unless its transport says otherwise.
//!
//! The contracts model an operation by four spec functions: the bytes the
//! capability carried when the operation was bound, the bytes the operation
//! is to move, the bytes moved so far (never decreasing, never more than the
//! total), and a well-formedness invariant preserved across suspensions.

use vstd::prelude::*;

use crate::capability::{ByteSink, ByteSource};
use crate::errors::{DeserializeError, TransportError};

verus! {

/// The outcome of advancing a writing operation once.
pub enum WriterStep<F, W> {
    /// The sink would block; the operation is handed back to be resumed.
    Suspended(F),
    /// Terminal success: the sink comes back, with the total bytes written.
    Completed(W, usize),
    /// Terminal failure: the sink comes back, with the transport error.
    Failed(W, TransportError),
}

/// The outcome of advancing a reading operation once.
pub enum ReaderStep<F, R, S, E> {
    /// The source would block; the operation is handed back to be resumed.
    Suspended(F),
    /// Terminal success: the source comes back, with the deserialized value
    /// and the total bytes consumed.
    Completed(R, S, usize),
    /// Terminal failure: the source comes back, with an error that is either
    /// transport-originated or data-originated, never ambiguous.
    Failed(R, DeserializeError<E>),
}

/// Base trait for resumable operations that write into a [`ByteSink`].
///
/// An operation is bound to a sink whose stream already held `base()`, and
/// writes the encoding `goal()` after it. `progress()` counts the bytes
/// written so far; it never exceeds `goal().len()` and never decreases from
/// one observation to the next. Completion reports exactly `goal().len()`
/// and returns the sink holding `base() + goal()`; failure returns the sink
/// holding `base()` followed by the prefix of `goal()` written so far.
pub trait AsyncWriterFuture<W: ByteSink>: Sized {
    /// The bytes the sink had already accepted when this operation bound it.
    spec fn base(&self) -> Seq<u8>;

    /// The complete encoding this operation writes after `base()`.
    spec fn goal(&self) -> Seq<u8>;

    /// How many bytes of `goal()` have been written so far.
    spec fn progress(&self) -> nat;

    /// Well-formedness: established at binding, preserved by every
    /// suspension.
    spec fn inv(&self) -> bool;

    /// True when the bound sink will accept every byte from now on, so this
    /// operation can no longer suspend or fail.
    spec fn sink_ready(&self) -> bool;

    /// Bytes written never exceed the total encoded length.
    proof fn progress_bounded(&self)
        requires
            self.inv(),
        ensures
            self.progress() <= self.goal().len(),
    ;

    /// Advance the operation: write until the encoding is complete, the sink
    /// would block, or the transport fails.
    fn step(self) -> (r: WriterStep<Self, W>)
        requires
            self.inv(),
        ensures
            (match r {
                WriterStep::Suspended(f) =>
                    f.inv()
                    && f.base() == self.base()
                    && f.goal() == self.goal()
                    && f.progress() >= self.progress(),
                WriterStep::Completed(w, n) =>
                    n == self.goal().len()
                    && n >= self.progress()
                    && w.written() == self.base() + self.goal(),
                WriterStep::Failed(w, _e) =>
                    self.base().len() <= w.written().len()
                    && w.written().len() <= self.base().len() + self.goal().len()
                    && w.written() == self.base()
                        + self.goal().take(w.written().len() - self.base().len()),
            }),
            self.sink_ready() ==> r is Completed,
    ;

    /// How many bytes have already been written; free of side effects,
    /// callable at any point.
    fn already_written(&self) -> (n: usize)
        requires
            self.inv(),
        ensures
            n == self.progress(),
    ;
}

/// A writing operation that can report the exact number of bytes still to be
/// written.
pub trait AsyncWriterFutureLen<W: ByteSink>: AsyncWriterFuture<W> {
    /// The exact number of bytes that will still be written by this
    /// operation; free of side effects.
    fn remaining_bytes(&self) -> (n: usize)
        requires
            self.inv(),
        ensures
            n == self.goal().len() - self.progress(),
    ;
}

/// A resumable operation that serializes an owned value into a [`ByteSink`]
/// and then returns the sink and how many bytes were written.
pub trait AsyncSerialize<W: ByteSink>: AsyncWriterFuture<W> {
    /// The type of values serialized.
    type Serialized;

    /// The encoding of a value: the bytes a complete run of the operation
    /// writes.
    spec fn encoding_of(val: Self::Serialized) -> Seq<u8>;

    /// Bind a new operation, consuming the value to serialize and the sink
    /// to serialize into. No byte is written at binding.
    fn from_val(writer: W, val: Self::Serialized) -> (r: Self)
        ensures
            r.inv(),
            r.progress() == 0,
            r.base() == writer.written(),
            r.goal() == Self::encoding_of(val),
            r.sink_ready() == writer.always_ready(),
    ;
}

/// An [`AsyncSerialize`] that can precompute the exact number of bytes to
/// write.
pub trait AsyncSerializeLen<W: ByteSink>: AsyncSerialize<W> + AsyncWriterFutureLen<W> {
    /// The exact number of bytes that would be written in total if the given
    /// value was serialized, without performing any write.
    fn total_bytes(val: &Self::Serialized) -> (n: usize)
        ensures
            n == Self::encoding_of(*val).len(),
    ;
}

/// A resumable operation that serializes a borrowed value into a
/// [`ByteSink`]; the borrow lasts for the operation's lifetime, so one value
/// can be serialized many times without being moved.
pub trait AsyncSerializeRef<'val, W: ByteSink>: AsyncWriterFuture<W> {
    /// The type of values serialized.
    type Serialized;

    /// The encoding of a value: the bytes a complete run of the operation
    /// writes.
    spec fn encoding_of(val: Self::Serialized) -> Seq<u8>;

    /// Bind a new operation, borrowing the value to serialize and consuming
    /// the sink to serialize into. No byte is written at binding.
    fn from_ref(writer: W, val: &'val Self::Serialized) -> (r: Self)
        ensures
            r.inv(),
            r.progress() == 0,
            r.base() == writer.written(),
            r.goal() == Self::encoding_of(*val),
            r.sink_ready() == writer.always_ready(),
    ;
}

/// An [`AsyncSerializeRef`] that can precompute the exact number of bytes to
/// write.
pub trait AsyncSerializeRefLen<'val, W: ByteSink>: AsyncSerializeRef<'val, W> + AsyncWriterFutureLen<W> {
    /// The exact number of bytes that would be written in total if the given
    /// value was serialized, without performing any write.
    fn total_bytes(val: &Self::Serialized) -> (n: usize)
        ensures
            n == Self::encoding_of(*val).len(),
    ;
}

/// A resumable operation that deserializes a value of type `S` out of a
/// [`ByteSource`] and then returns the source, the value, and how many bytes
/// were consumed. `E` is the codec's data-error type, carried inside
/// [`DeserializeError`] so transport failures stay distinguishable.
///
/// The operation is bound to a source whose stream held `base_src()`;
/// `progress()` counts the bytes consumed so far, always from the front of
/// `base_src()`. On completion the consumed prefix decodes exactly to the
/// value produced, and the source comes back holding the rest.
pub trait AsyncDeserialize<R: ByteSource, S, E>: Sized {
    /// The bytes the source had available when this operation bound it.
    spec fn base_src(&self) -> Seq<u8>;

    /// How many bytes have been consumed from the source so far.
    spec fn progress(&self) -> nat;

    /// Well-formedness: established at binding, preserved by every
    /// suspension.
    spec fn inv(&self) -> bool;

    /// True when the bound source will answer every read from now on, so
    /// this operation can no longer suspend and any failure is a data error.
    spec fn src_live(&self) -> bool;

    /// The decoding relation: `bytes` is exactly a complete, valid encoding
    /// of `v`.
    spec fn decodes(bytes: Seq<u8>, v: S) -> bool;

    /// Bytes consumed never exceed what the source had at binding.
    proof fn progress_bounded(&self)
        requires
            self.inv(),
        ensures
            self.progress() <= self.base_src().len(),
    ;

    /// Bind a new operation, consuming the source to deserialize from. No
    /// byte is read at binding; no value exists yet.
    fn from_reader(reader: R) -> (r: Self)
        ensures
            r.inv(),
            r.progress() == 0,
            r.base_src() == reader.available(),
            r.src_live() == reader.always_live(),
    ;

    /// Advance the operation: read until a value is complete, the source
    /// would block, the transport fails, or the data turns out invalid.
    fn step(self) -> (r: ReaderStep<Self, R, S, E>)
        requires
            self.inv(),
        ensures
            (match r {
                ReaderStep::Suspended(f) =>
                    f.inv()
                    && f.base_src() == self.base_src()
                    && f.progress() >= self.progress(),
                ReaderStep::Completed(src, v, n) =>
                    n >= self.progress()
                    && n <= self.base_src().len()
                    && Self::decodes(self.base_src().take(n as int), v)
                    && src.available() == self.base_src().skip(n as int),
                ReaderStep::Failed(src, e) =>
                    src.available().len() <= self.base_src().len()
                    && src.available() == self.base_src().skip(
                        self.base_src().len() - src.available().len(),
                    )
                    && (self.src_live() ==> e is DataError),
            }),
            self.src_live() ==> !(r is Suspended),
    ;

    /// How many bytes have already been read; free of side effects, callable
    /// at any point.
    fn already_read(&self) -> (n: usize)
        requires
            self.inv(),
        ensures
            n == self.progress(),
    ;
}

/// Length precomputation agreement: for a value with length precomputation
/// support, the statically precomputed total (what `total_bytes` returns)
/// and the total reported on completion (the length of the operation's goal)
/// are the same number — both are the length of the value's encoding.
pub proof fn lemma_length_precomputation_agreement<W: ByteSink, F: AsyncSerializeLen<W>>(
    op: F,
    val: F::Serialized,
)
    requires
        op.goal() == F::encoding_of(val),
    ensures
        op.goal().len() == F::encoding_of(val).len(),
{
}

} // verus!
