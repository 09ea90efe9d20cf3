//! Reference codec: `u16` values in little-endian byte order.
//!
//! The encoding of a value is exactly two bytes, low byte first. The codec
//! exists to exercise the operation contracts end to end: a by-value and a
//! by-reference serializer, both with length precomputation, and a
//! deserializer whose only data error is a source that ends before the two
//! bytes arrive.

use vstd::prelude::*;

use crate::capability::{ByteSink, ByteSource, ReadOutcome, WriteOutcome};
use crate::errors::{DeserializeError, ShortInput};
use crate::operation::{
    AsyncDeserialize, AsyncSerialize, AsyncSerializeLen, AsyncSerializeRef, AsyncSerializeRefLen,
    AsyncWriterFuture, AsyncWriterFutureLen, ReaderStep, WriterStep,
};

verus! {

/// The little-endian encoding of a `u16`: low byte, then high byte.
pub open spec fn u16_le(v: u16) -> Seq<u8> {
    seq![(v & 0xff) as u8, ((v >> 8) & 0xff) as u8]
}

/// Splitting a `u16` into its little-endian bytes and reassembling them
/// gives the value back.
proof fn lemma_u16_le_reassemble(v: u16)
    ensures
        (((v & 0xff) as u8 as u16) | (((v >> 8) & 0xff) as u8 as u16) << 8) == v,
{
    assert((((v & 0xff) as u8 as u16) | (((v >> 8) & 0xff) as u8 as u16) << 8) == v)
        by (bit_vector);
}

/// Reassembling two bytes into a `u16` and splitting it again gives the
/// bytes back.
proof fn lemma_u16_le_split(lo: u8, hi: u8)
    ensures
        ((((lo as u16) | (hi as u16) << 8) & 0xff) as u8) == lo,
        (((((lo as u16) | (hi as u16) << 8) >> 8) & 0xff) as u8) == hi,
{
    assert(((((lo as u16) | (hi as u16) << 8) & 0xff) as u8) == lo) by (bit_vector);
    assert((((((lo as u16) | (hi as u16) << 8) >> 8) & 0xff) as u8) == hi) by (bit_vector);
}

/// Round-trip law for the reference codec: the encoding of `v` is two bytes
/// long, and feeding those two bytes to the decoder's reassembly yields `v`
/// again — so deserializing what serialization wrote gives the original
/// value and consumes exactly the bytes that serialization reported writing.
pub proof fn lemma_u16_round_trip(v: u16)
    ensures
        u16_le(v).len() == 2,
        ((u16_le(v)[0] as u16) | (u16_le(v)[1] as u16) << 8) == v,
{
    lemma_u16_le_reassemble(v);
}

/// No two distinct values share an encoding: a decoder's answer is unique.
pub proof fn lemma_u16_le_injective(v: u16, w: u16)
    requires
        u16_le(v) == u16_le(w),
    ensures
        v == w,
{
    assert(u16_le(v)[0] == u16_le(w)[0]);
    assert(u16_le(v)[1] == u16_le(w)[1]);
    lemma_u16_le_reassemble(v);
    lemma_u16_le_reassemble(w);
}

/// A resumable operation writing the little-endian encoding of an owned
/// `u16` into a sink.
pub struct U16LeSerializer<W: ByteSink> {
    sink: W,
    val: u16,
    written: usize,
    start: Ghost<Seq<u8>>,
}

/// Write the byte of `u16_le(val)` at position `written` into `sink`,
/// shared by the by-value and by-reference serializers.
///
/// Mirrors one advancement attempt: `Accepted` grows the sink's stream by
/// exactly that byte, the other outcomes leave it unchanged.
fn write_encoding_byte<W: ByteSink>(sink: &mut W, val: u16, written: usize) -> (r: WriteOutcome)
    requires
        written < 2,
    ensures
        (match r {
            WriteOutcome::Accepted => final(sink).written()
                == old(sink).written().push(u16_le(val)[written as int]),
            WriteOutcome::WouldBlock => final(sink).written() == old(sink).written(),
            WriteOutcome::Failed(_) => final(sink).written() == old(sink).written(),
        }),
        old(sink).always_ready() ==> r is Accepted && final(sink).always_ready(),
{
    let b: u8 = if written == 0 {
        (val & 0xff) as u8
    } else {
        ((val >> 8) & 0xff) as u8
    };
    sink.write_byte(b)
}

impl<W: ByteSink> AsyncWriterFuture<W> for U16LeSerializer<W> {
    closed spec fn base(&self) -> Seq<u8> {
        self.start@
    }

    closed spec fn goal(&self) -> Seq<u8> {
        u16_le(self.val)
    }

    closed spec fn progress(&self) -> nat {
        self.written as nat
    }

    closed spec fn inv(&self) -> bool {
        self.written <= 2
        && self.sink.written() == self.start@ + u16_le(self.val).take(self.written as int)
    }

    closed spec fn sink_ready(&self) -> bool {
        self.sink.always_ready()
    }

    proof fn progress_bounded(&self) {
    }

    #[verifier::loop_isolation(false)]
    fn step(self) -> (r: WriterStep<Self, W>) {
        let ghost orig = self;
        let mut this = self;
        while this.written < 2
            invariant
                this.written <= 2,
                this.sink.written() == this.start@ + u16_le(this.val).take(this.written as int),
                this.start@ == orig.start@,
                this.val == orig.val,
                this.written >= orig.written,
                orig.sink.always_ready() ==> this.sink.always_ready(),
            decreases 2 - this.written,
        {
            match write_encoding_byte(&mut this.sink, this.val, this.written) {
                WriteOutcome::Accepted => {
                    proof {
                        assert(this.start@ + u16_le(this.val).take(this.written as int + 1)
                            =~= (this.start@ + u16_le(this.val).take(this.written as int))
                                .push(u16_le(this.val)[this.written as int]));
                    }
                    this.written = this.written + 1;
                }
                WriteOutcome::WouldBlock => {
                    return WriterStep::Suspended(this);
                }
                WriteOutcome::Failed(e) => {
                    proof {
                        assert(u16_le(this.val).take(this.written as int).len()
                            == this.written as int);
                    }
                    return WriterStep::Failed(this.sink, e);
                }
            }
        }
        proof {
            assert(this.sink.written() =~= this.start@ + u16_le(this.val));
        }
        WriterStep::Completed(this.sink, this.written)
    }

    fn already_written(&self) -> (n: usize) {
        self.written
    }
}

impl<W: ByteSink> AsyncWriterFutureLen<W> for U16LeSerializer<W> {
    fn remaining_bytes(&self) -> (n: usize) {
        2 - self.written
    }
}

impl<W: ByteSink> AsyncSerialize<W> for U16LeSerializer<W> {
    type Serialized = u16;

    open spec fn encoding_of(val: u16) -> Seq<u8> {
        u16_le(val)
    }

    fn from_val(writer: W, val: u16) -> (r: Self) {
        let ghost before = writer.written();
        let r = U16LeSerializer { sink: writer, val, written: 0, start: Ghost(before) };
        proof {
            assert(r.sink.written() =~= r.start@ + u16_le(r.val).take(0));
        }
        r
    }
}

impl<W: ByteSink> AsyncSerializeLen<W> for U16LeSerializer<W> {
    fn total_bytes(_val: &u16) -> (n: usize) {
        2
    }
}

/// A resumable operation writing the little-endian encoding of a borrowed
/// `u16` into a sink; the value is borrowed for the operation's lifetime and
/// never moved.
pub struct U16LeRefSerializer<'val, W: ByteSink> {
    sink: W,
    val: &'val u16,
    written: usize,
    start: Ghost<Seq<u8>>,
}

impl<'val, W: ByteSink> AsyncWriterFuture<W> for U16LeRefSerializer<'val, W> {
    closed spec fn base(&self) -> Seq<u8> {
        self.start@
    }

    closed spec fn goal(&self) -> Seq<u8> {
        u16_le(*self.val)
    }

    closed spec fn progress(&self) -> nat {
        self.written as nat
    }

    closed spec fn inv(&self) -> bool {
        self.written <= 2
        && self.sink.written() == self.start@ + u16_le(*self.val).take(self.written as int)
    }

    closed spec fn sink_ready(&self) -> bool {
        self.sink.always_ready()
    }

    proof fn progress_bounded(&self) {
    }

    #[verifier::loop_isolation(false)]
    fn step(self) -> (r: WriterStep<Self, W>) {
        let ghost orig = self;
        let mut this = self;
        while this.written < 2
            invariant
                this.written <= 2,
                this.sink.written() == this.start@ + u16_le(*this.val).take(this.written as int),
                this.start@ == orig.start@,
                this.val == orig.val,
                this.written >= orig.written,
                orig.sink.always_ready() ==> this.sink.always_ready(),
            decreases 2 - this.written,
        {
            match write_encoding_byte(&mut this.sink, *this.val, this.written) {
                WriteOutcome::Accepted => {
                    proof {
                        assert(this.start@ + u16_le(*this.val).take(this.written as int + 1)
                            =~= (this.start@ + u16_le(*this.val).take(this.written as int))
                                .push(u16_le(*this.val)[this.written as int]));
                    }
                    this.written = this.written + 1;
                }
                WriteOutcome::WouldBlock => {
                    return WriterStep::Suspended(this);
                }
                WriteOutcome::Failed(e) => {
                    proof {
                        assert(u16_le(*this.val).take(this.written as int).len()
                            == this.written as int);
                    }
                    return WriterStep::Failed(this.sink, e);
                }
            }
        }
        proof {
            assert(this.sink.written() =~= this.start@ + u16_le(*this.val));
        }
        WriterStep::Completed(this.sink, this.written)
    }

    fn already_written(&self) -> (n: usize) {
        self.written
    }
}

impl<'val, W: ByteSink> AsyncWriterFutureLen<W> for U16LeRefSerializer<'val, W> {
    fn remaining_bytes(&self) -> (n: usize) {
        2 - self.written
    }
}

impl<'val, W: ByteSink> AsyncSerializeRef<'val, W> for U16LeRefSerializer<'val, W> {
    type Serialized = u16;

    open spec fn encoding_of(val: u16) -> Seq<u8> {
        u16_le(val)
    }

    fn from_ref(writer: W, val: &'val u16) -> (r: Self) {
        let ghost before = writer.written();
        let r = U16LeRefSerializer { sink: writer, val, written: 0, start: Ghost(before) };
        proof {
            assert(r.sink.written() =~= r.start@ + u16_le(*r.val).take(0));
        }
        r
    }
}

impl<'val, W: ByteSink> AsyncSerializeRefLen<'val, W> for U16LeRefSerializer<'val, W> {
    fn total_bytes(_val: &u16) -> (n: usize) {
        2
    }
}

/// A resumable operation reading the little-endian encoding of a `u16` out
/// of a source. Its only data error is [`ShortInput`]: the source reported
/// end of input before both bytes arrived.
pub struct U16LeDeserializer<R: ByteSource> {
    source: R,
    lo: Option<u8>,
    read: usize,
    start: Ghost<Seq<u8>>,
}

impl<R: ByteSource> AsyncDeserialize<R, u16, ShortInput> for U16LeDeserializer<R> {
    closed spec fn base_src(&self) -> Seq<u8> {
        self.start@
    }

    closed spec fn progress(&self) -> nat {
        self.read as nat
    }

    closed spec fn inv(&self) -> bool {
        self.read <= 1
        && self.read <= self.start@.len()
        && (self.read == 1 <==> self.lo is Some)
        && self.source.available() == self.start@.skip(self.read as int)
        && (self.read == 1 ==> self.lo == Some(self.start@[0]))
    }

    closed spec fn src_live(&self) -> bool {
        self.source.always_live()
    }

    open spec fn decodes(bytes: Seq<u8>, v: u16) -> bool {
        bytes == u16_le(v)
    }

    proof fn progress_bounded(&self) {
    }

    fn from_reader(reader: R) -> (r: Self) {
        let ghost before = reader.available();
        let r = U16LeDeserializer { source: reader, lo: None, read: 0, start: Ghost(before) };
        proof {
            assert(r.source.available() =~= r.start@.skip(0));
        }
        r
    }

    fn step(self) -> (r: ReaderStep<Self, R, u16, ShortInput>)
        ensures
            (match r {
                ReaderStep::Suspended(_) => true,
                ReaderStep::Completed(_src, _v, n) => n == 2 && self.base_src().len() >= 2,
                ReaderStep::Failed(src, e) => (match e {
                    DeserializeError::DataError(d) =>
                        self.base_src().len() < 2
                        && d.have == self.base_src().len()
                        && d.need == 2
                        && src.available().len() == 0,
                    DeserializeError::ReaderError(_) => true,
                }),
            }),
            self.src_live() && self.base_src().len() >= 2 ==> r is Completed,
    {
        let mut this = self;
        if this.read == 0 {
            match this.source.read_byte() {
                ReadOutcome::Byte(b) => {
                    proof {
                        assert(this.source.available() =~= this.start@.skip(1));
                    }
                    this.lo = Some(b);
                    this.read = 1;
                }
                ReadOutcome::WouldBlock => {
                    return ReaderStep::Suspended(this);
                }
                ReadOutcome::EndOfInput => {
                    proof {
                        assert(this.source.available() =~= this.start@.skip(0));
                    }
                    return ReaderStep::Failed(
                        this.source,
                        DeserializeError::DataError(ShortInput { have: 0, need: 2 }),
                    );
                }
                ReadOutcome::Failed(t) => {
                    proof {
                        assert(this.source.available() == this.start@.skip(this.read as int));
                    }
                    return ReaderStep::Failed(this.source, DeserializeError::ReaderError(t));
                }
            }
        }
        let lo = this.lo.unwrap();
        match this.source.read_byte() {
            ReadOutcome::Byte(hi) => {
                let v: u16 = (lo as u16) | (hi as u16) << 8;
                proof {
                    lemma_u16_le_split(lo, hi);
                    assert(hi == this.start@.skip(1)[0]);
                    assert(this.start@.take(2) =~= u16_le(v));
                    assert(this.source.available() =~= this.start@.skip(2));
                }
                ReaderStep::Completed(this.source, v, 2)
            }
            ReadOutcome::WouldBlock => ReaderStep::Suspended(this),
            ReadOutcome::EndOfInput => {
                proof {
                    assert(this.start@.skip(1).len() == 0);
                    assert(this.source.available() == this.start@.skip(1));
                }
                ReaderStep::Failed(
                    this.source,
                    DeserializeError::DataError(ShortInput { have: 1, need: 2 }),
                )
            }
            ReadOutcome::Failed(t) => {
                proof {
                    assert(this.source.available() == this.start@.skip(1));
                }
                ReaderStep::Failed(this.source, DeserializeError::ReaderError(t))
            }
        }
    }

    fn already_read(&self) -> (n: usize) {
        self.read
    }
}

} // verus!
