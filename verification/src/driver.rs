//! Fuel-bounded drivers: advance an operation repeatedly until it reaches a
//! terminal outcome or a given number of advancement attempts is spent.
//!
//! The drivers are generic over any operation implementing the contracts, and
//! show what those contracts alone guarantee across a whole run: progress
//! counters never decrease, a completed run wrote or consumed exactly the
//! operation's goal, a failed run still hands the capability back, and an
//! operation bound to a capability that no longer blocks cannot run out of
//! fuel.

use vstd::prelude::*;

use crate::capability::{ByteSink, ByteSource};
use crate::errors::{DeserializeError, TransportError};
use crate::operation::{AsyncDeserialize, AsyncWriterFuture, ReaderStep, WriterStep};

verus! {

/// The outcome of driving a writing operation with bounded fuel.
pub enum WriterRun<F, W> {
    /// The operation completed: the sink and the total bytes written.
    Finished(W, usize),
    /// The operation failed: the sink and the transport error.
    Errored(W, TransportError),
    /// Fuel ran out first; the operation is handed back unharmed.
    OutOfFuel(F),
}

/// The outcome of driving a reading operation with bounded fuel.
pub enum ReaderRun<F, R, S, E> {
    /// The operation completed: the source, the value, and the total bytes
    /// consumed.
    Finished(R, S, usize),
    /// The operation failed: the source and the deserialization error.
    Errored(R, DeserializeError<E>),
    /// Fuel ran out first; the operation is handed back unharmed.
    OutOfFuel(F),
}

/// Advance a writing operation up to `fuel` times.
///
/// Whatever the interleaving of suspensions, the run ends in at most one
/// terminal outcome carrying the sink; progress never decreases; and when the
/// sink accepts everything and at least one advancement is allowed, the run
/// always finishes.
#[verifier::loop_isolation(false)]
pub fn run_writer<W: ByteSink, F: AsyncWriterFuture<W>>(op: F, fuel: usize) -> (r: WriterRun<F, W>)
    requires
        op.inv(),
    ensures
        (match r {
            WriterRun::Finished(w, n) =>
                n == op.goal().len()
                && n >= op.progress()
                && w.written() == op.base() + op.goal(),
            WriterRun::Errored(w, _e) =>
                op.base().len() <= w.written().len()
                && w.written().len() <= op.base().len() + op.goal().len()
                && w.written() == op.base()
                    + op.goal().take(w.written().len() - op.base().len()),
            WriterRun::OutOfFuel(f) =>
                f.inv()
                && f.base() == op.base()
                && f.goal() == op.goal()
                && f.progress() >= op.progress(),
        }),
        op.sink_ready() && fuel >= 1 ==> r is Finished,
{
    let ghost orig = op;
    let mut cur = op;
    let mut spent: usize = 0;
    while spent < fuel
        invariant
            cur.inv(),
            cur.base() == orig.base(),
            cur.goal() == orig.goal(),
            cur.progress() >= orig.progress(),
            orig.sink_ready() ==> cur.sink_ready(),
            spent > 0 ==> !orig.sink_ready(),
            spent <= fuel,
        decreases fuel - spent,
    {
        match cur.step() {
            WriterStep::Suspended(f) => {
                cur = f;
            }
            WriterStep::Completed(w, n) => {
                return WriterRun::Finished(w, n);
            }
            WriterStep::Failed(w, e) => {
                return WriterRun::Errored(w, e);
            }
        }
        spent = spent + 1;
    }
    WriterRun::OutOfFuel(cur)
}

/// Advance a reading operation up to `fuel` times.
///
/// Whatever the interleaving of suspensions, the run ends in at most one
/// terminal outcome carrying the source; progress never decreases; and when
/// the source answers every read and at least one advancement is allowed,
/// the run never runs out of fuel — it finishes, or fails with a data error.
#[verifier::loop_isolation(false)]
pub fn run_reader<R: ByteSource, S, E, F: AsyncDeserialize<R, S, E>>(op: F, fuel: usize) -> (r:
    ReaderRun<F, R, S, E>)
    requires
        op.inv(),
    ensures
        (match r {
            ReaderRun::Finished(src, v, n) =>
                n >= op.progress()
                && n <= op.base_src().len()
                && F::decodes(op.base_src().take(n as int), v)
                && src.available() == op.base_src().skip(n as int),
            ReaderRun::Errored(src, e) =>
                src.available().len() <= op.base_src().len()
                && src.available() == op.base_src().skip(
                    op.base_src().len() - src.available().len(),
                )
                && (op.src_live() ==> e is DataError),
            ReaderRun::OutOfFuel(f) =>
                f.inv()
                && f.base_src() == op.base_src()
                && f.progress() >= op.progress(),
        }),
        op.src_live() && fuel >= 1 ==> !(r is OutOfFuel),
{
    let ghost orig = op;
    let mut cur = op;
    let mut spent: usize = 0;
    while spent < fuel
        invariant
            cur.inv(),
            cur.base_src() == orig.base_src(),
            cur.progress() >= orig.progress(),
            orig.src_live() ==> cur.src_live(),
            spent > 0 ==> !orig.src_live(),
            spent <= fuel,
        decreases fuel - spent,
    {
        match cur.step() {
            ReaderStep::Suspended(f) => {
                cur = f;
            }
            ReaderStep::Completed(src, v, n) => {
                return ReaderRun::Finished(src, v, n);
            }
            ReaderStep::Failed(src, e) => {
                return ReaderRun::Errored(src, e);
            }
        }
        spent = spent + 1;
    }
    ReaderRun::OutOfFuel(cur)
}

} // verus!
