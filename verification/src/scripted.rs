//! Scripted in-memory capabilities.
//!
//! A [`ScriptedSink`] stores every accepted byte in memory; a
//! [`ScriptedSource`] delivers bytes from memory. Each follows a script: a
//! list of actions consumed one per call, deciding whether that call accepts
//! or delivers, blocks, or fails the transport. An exhausted (or empty)
//! script means the capability cooperates from then on. The scripts make
//! suspension and transport failure reproducible, so operations can be driven
//! through every path.

use vstd::prelude::*;

use crate::capability::{ByteSink, ByteSource, ReadOutcome, WriteOutcome};
use crate::errors::TransportError;

verus! {

/// What one write attempt on a [`ScriptedSink`] is scripted to do.
#[derive(Clone, Copy, Debug)]
pub enum SinkAction {
    /// Accept the byte.
    Accept,
    /// Report that the sink would block.
    Block,
    /// Report a transport failure.
    Fail(TransportError),
}

/// What one read attempt on a [`ScriptedSource`] is scripted to do.
#[derive(Clone, Copy, Debug)]
pub enum SourceAction {
    /// Deliver the next byte, or report end of input if none remains.
    Deliver,
    /// Report that the source would block.
    Block,
    /// Report a transport failure.
    Fail(TransportError),
}

/// An in-memory byte sink driven by a script of [`SinkAction`]s.
pub struct ScriptedSink {
    bytes: Vec<u8>,
    plan: Vec<SinkAction>,
    next: usize,
}

impl ScriptedSink {
    /// A sink that behaves as `plan` dictates, one action per write attempt,
    /// and accepts every byte once the plan is exhausted.
    pub fn new(plan: Vec<SinkAction>) -> (r: Self)
        ensures
            r.written() == Seq::<u8>::empty(),
            r.always_ready() <==> (forall|i: int|
                0 <= i < plan@.len() ==> plan@[i] is Accept),
    {
        ScriptedSink { bytes: Vec::new(), plan, next: 0 }
    }

    /// A sink that accepts every byte.
    pub fn accepting() -> (r: Self)
        ensures
            r.written() == Seq::<u8>::empty(),
            r.always_ready(),
    {
        ScriptedSink { bytes: Vec::new(), plan: Vec::new(), next: 0 }
    }

    /// The bytes accepted so far.
    pub fn bytes(&self) -> (r: &Vec<u8>)
        ensures
            r@ == self.written(),
    {
        &self.bytes
    }

    /// Turn the sink into a cooperating source that delivers exactly the
    /// bytes the sink accepted, in order.
    pub fn into_source(self) -> (r: ScriptedSource)
        ensures
            r.available() == self.written(),
            r.always_live(),
    {
        ScriptedSource { data: self.bytes, plan: Vec::new(), next: 0 }
    }
}

impl ByteSink for ScriptedSink {
    closed spec fn written(&self) -> Seq<u8> {
        self.bytes@
    }

    closed spec fn always_ready(&self) -> bool {
        forall|i: int| self.next <= i < self.plan@.len() ==> self.plan@[i] is Accept
    }

    fn write_byte(&mut self, b: u8) -> (r: WriteOutcome) {
        let action = if self.next < self.plan.len() {
            let a = self.plan[self.next];
            self.next = self.next + 1;
            a
        } else {
            SinkAction::Accept
        };
        match action {
            SinkAction::Accept => {
                self.bytes.push(b);
                WriteOutcome::Accepted
            }
            SinkAction::Block => WriteOutcome::WouldBlock,
            SinkAction::Fail(e) => WriteOutcome::Failed(e),
        }
    }
}

/// An in-memory byte source driven by a script of [`SourceAction`]s.
pub struct ScriptedSource {
    data: Vec<u8>,
    plan: Vec<SourceAction>,
    next: usize,
}

impl ScriptedSource {
    /// A source that will deliver the bytes of `data` in order, behaving on
    /// each read attempt as `plan` dictates, one action per attempt, and
    /// delivering without blocking once the plan is exhausted.
    pub fn new(data: Vec<u8>, plan: Vec<SourceAction>) -> (r: Self)
        ensures
            r.available() == data@,
            r.always_live() <==> (forall|i: int|
                0 <= i < plan@.len() ==> plan@[i] is Deliver),
    {
        ScriptedSource { data, plan, next: 0 }
    }

    /// The bytes not yet delivered.
    pub fn remaining(&self) -> (r: &Vec<u8>)
        ensures
            r@ == self.available(),
    {
        &self.data
    }
}

impl ByteSource for ScriptedSource {
    closed spec fn available(&self) -> Seq<u8> {
        self.data@
    }

    closed spec fn always_live(&self) -> bool {
        forall|i: int| self.next <= i < self.plan@.len() ==> self.plan@[i] is Deliver
    }

    fn read_byte(&mut self) -> (r: ReadOutcome) {
        let action = if self.next < self.plan.len() {
            let a = self.plan[self.next];
            self.next = self.next + 1;
            a
        } else {
            SourceAction::Deliver
        };
        match action {
            SourceAction::Deliver => {
                if self.data.len() > 0 {
                    let b = self.data.remove(0);
                    proof {
                        assert(self.data@ =~= old(self).data@.skip(1));
                    }
                    ReadOutcome::Byte(b)
                } else {
                    proof {
                        assert(self.data@ =~= Seq::<u8>::empty());
                    }
                    ReadOutcome::EndOfInput
                }
            }
            SourceAction::Block => ReadOutcome::WouldBlock,
            SourceAction::Fail(e) => ReadOutcome::Failed(e),
        }
    }
}

} // verus!
