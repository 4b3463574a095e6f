//! Signals: broadcast coordination primitives that are present only within
//! the instant of an emission.
//!
//! A signal is identified by a caller-chosen identity; all handles carrying
//! the same identity share one state cell ([`SignalRuntime`]) inside the
//! executing runtime, created on first use from the handle's configuration.
//! Four flavours share the one state machine: pure signals (presence only),
//! value signals (a gather fold over the instant's emissions), and the
//! unique-consumer and unique-producer pairs.

use vstd::prelude::*;

verus! {

use crate::value::{Val, Gather, clone_val};
use crate::continuation::Continuation;
use crate::process::Process;

/// Which flavour of signal a state cell implements.
#[derive(Debug, Clone, Copy, PartialEq, Eq)]
pub enum SigKind {
    Pure,
    Gathered,
    UniqueConsumer,
    UniqueProducer,
}

/// A continuation waiting on a signal, together with the process node to
/// hand back when it resumes.
#[derive(Debug, PartialEq, Eq)]
pub struct Waiter {
    pub next: Continuation,
    pub rebuilt: Process,
}

#[derive(Debug, PartialEq, Eq)]
pub enum WaiterList {
    Nil,
    Cons(Box<Waiter>, Box<WaiterList>),
}

/// The shared state of one signal within an executing runtime.
#[derive(Debug, PartialEq, Eq)]
pub struct SignalRuntime {
    /// Present within the emitting instant, absent otherwise.
    pub status: bool,
    /// `await_immediate` continuations waiting for the first emission.
    pub callbacks: WaiterList,
    /// `present` continuations waiting for the instant's verdict.
    pub waiting_present: WaiterList,
    /// `await` continuations waiting for the accumulated value; for a
    /// unique-producer signal, `await_immediate` continuations waiting for
    /// the replicated value.
    pub waiting_await: WaiterList,
    /// The value accumulated during the current instant.
    pub current_value: Val,
    /// What `current_value` resets to at the end of each instant.
    pub default_value: Val,
    pub gather: Gather,
    pub kind: SigKind,
}

/// The fresh state a signal cell starts from.
pub open spec fn spec_sig_init(
    status: bool,
    default_value: Val,
    gather: Gather,
    kind: SigKind,
) -> SignalRuntime {
    SignalRuntime {
        status,
        callbacks: WaiterList::Nil,
        waiting_present: WaiterList::Nil,
        waiting_await: WaiterList::Nil,
        current_value: default_value,
        default_value,
        gather,
        kind,
    }
}

pub fn sig_init(status: bool, default_value: Val, gather: Gather, kind: SigKind) -> (s:
    SignalRuntime)
    ensures
        s == spec_sig_init(status, default_value, gather, kind),
{
    let current_value = clone_val(&default_value);
    SignalRuntime {
        status,
        callbacks: WaiterList::Nil,
        waiting_present: WaiterList::Nil,
        waiting_await: WaiterList::Nil,
        current_value,
        default_value,
        gather,
        kind,
    }
}

/// Handle to a pure signal's shared state.
#[derive(Debug, Clone, Copy, PartialEq, Eq)]
pub struct PSignalRuntimeRef {
    pub id: usize,
    /// The presence status the cell starts from when first used.
    pub init_status: bool,
}

/// Handle to a value signal's shared state.
#[derive(Debug, PartialEq, Eq)]
pub struct VSignalRuntimeRef {
    pub id: usize,
    pub default_value: Box<Val>,
    pub gather: Gather,
}

/// Handle to a unique-consumer signal's shared state.
#[derive(Debug, PartialEq, Eq)]
pub struct UCSignalRuntimeRef {
    pub id: usize,
    pub default_value: Box<Val>,
    pub gather: Gather,
}

/// Handle to a unique-producer signal's shared state.
#[derive(Debug, PartialEq, Eq)]
pub struct UPSignalRuntimeRef {
    pub id: usize,
    pub default_value: Box<Val>,
}

pub fn clone_v_ref(s: &VSignalRuntimeRef) -> (r: VSignalRuntimeRef)
    ensures
        r == *s,
    decreases s,
{
    VSignalRuntimeRef { id: s.id, default_value: Box::new(clone_val(&s.default_value)), gather: s.gather }
}

pub fn clone_uc_ref(s: &UCSignalRuntimeRef) -> (r: UCSignalRuntimeRef)
    ensures
        r == *s,
    decreases s,
{
    UCSignalRuntimeRef { id: s.id, default_value: Box::new(clone_val(&s.default_value)), gather: s.gather }
}

pub fn clone_up_ref(s: &UPSignalRuntimeRef) -> (r: UPSignalRuntimeRef)
    ensures
        r == *s,
    decreases s,
{
    UPSignalRuntimeRef { id: s.id, default_value: Box::new(clone_val(&s.default_value)) }
}

// The process nodes that interact with signals. Each carries the handle of
// the signal it speaks to; an emit node additionally carries the process
// computing the emitted value.

/// Waits for a pure signal; resumes in the first instant it is present.
#[derive(Debug, PartialEq, Eq)]
pub struct PAwaitImmediate {
    pub signal: PSignalRuntimeRef,
}

/// Emits a pure signal, then resumes immediately with `Unit`.
#[derive(Debug, PartialEq, Eq)]
pub struct PEmit {
    pub signal: PSignalRuntimeRef,
}

/// Resolves to `true` within an emitting instant, to `false` at the end of
/// a silent one.
#[derive(Debug, PartialEq, Eq)]
pub struct PPresent {
    pub signal: PSignalRuntimeRef,
}

#[derive(Debug, PartialEq, Eq)]
pub struct VAwaitImmediate {
    pub signal: VSignalRuntimeRef,
}

/// Waits for the value a signal accumulates over the current instant; the
/// value arrives at the start of the next instant.
#[derive(Debug, PartialEq, Eq)]
pub struct VAwait {
    pub signal: VSignalRuntimeRef,
}

/// Runs `value`, folds its result into the signal's accumulator, then
/// resumes with `Unit`.
#[derive(Debug, PartialEq, Eq)]
pub struct VEmit {
    pub signal: VSignalRuntimeRef,
    pub value: Box<Process>,
}

#[derive(Debug, PartialEq, Eq)]
pub struct VPresent {
    pub signal: VSignalRuntimeRef,
}

#[derive(Debug, PartialEq, Eq)]
pub struct UCAwaitImmediate {
    pub signal: UCSignalRuntimeRef,
}

/// The unique consumer's await; at most one may be outstanding.
#[derive(Debug, PartialEq, Eq)]
pub struct UCAwait {
    pub signal: UCSignalRuntimeRef,
}

#[derive(Debug, PartialEq, Eq)]
pub struct UCEmit {
    pub signal: UCSignalRuntimeRef,
    pub value: Box<Process>,
}

#[derive(Debug, PartialEq, Eq)]
pub struct UCPresent {
    pub signal: UCSignalRuntimeRef,
}

/// Waits for a unique-producer signal and resumes with the replicated
/// value of the emitting instant.
#[derive(Debug, PartialEq, Eq)]
pub struct UPAwaitImmediate {
    pub signal: UPSignalRuntimeRef,
}

/// Runs `value`, replaces the signal's replicated value with the result,
/// then resumes with `Unit`.
#[derive(Debug, PartialEq, Eq)]
pub struct UPEmit {
    pub signal: UPSignalRuntimeRef,
    pub value: Box<Process>,
}

#[derive(Debug, PartialEq, Eq)]
pub struct UPPresent {
    pub signal: UPSignalRuntimeRef,
}

/// A pure signal: presence only, no value.
#[derive(Debug, Clone, Copy, PartialEq, Eq)]
pub struct PureSignal {
    pub runtime: PSignalRuntimeRef,
}

impl PureSignal {
    /// A fresh pure signal under the given identity. Handles with equal
    /// identities share one state cell during execution.
    pub fn new(id: usize) -> (s: PureSignal)
        ensures
            s == (PureSignal { runtime: PSignalRuntimeRef { id, init_status: false } }),
    {
        PureSignal { runtime: PSignalRuntimeRef { id, init_status: false } }
    }

    /// Overrides the presence status the signal's cell starts from.
    pub fn set_status(&mut self, status: bool)
        ensures
            *final(self) == (PureSignal {
                runtime: PSignalRuntimeRef { id: old(self).runtime.id, init_status: status },
            }),
    {
        self.runtime.init_status = status;
    }

    pub fn runtime(&self) -> (r: PSignalRuntimeRef)
        ensures
            r == self.runtime,
    {
        self.runtime
    }

    pub fn await_immediate(&self) -> (p: Process)
        ensures
            p == Process::PAwaitImmediate((PAwaitImmediate { signal: self.runtime })),
    {
        Process::PAwaitImmediate(PAwaitImmediate { signal: self.runtime })
    }

    pub fn emit(&self) -> (p: Process)
        ensures
            p == Process::PEmit((PEmit { signal: self.runtime })),
    {
        Process::PEmit(PEmit { signal: self.runtime })
    }

    pub fn present(&self) -> (p: Process)
        ensures
            p == Process::PPresent((PPresent { signal: self.runtime })),
    {
        Process::PPresent(PPresent { signal: self.runtime })
    }
}

/// A value signal: emissions within an instant are folded by `gather` onto
/// a default, and `await` observes the instant's total.
#[derive(Debug, PartialEq, Eq)]
pub struct ValueSignal {
    pub runtime: VSignalRuntimeRef,
}

impl ValueSignal {
    /// A fresh value signal under the given identity, with the default the
    /// accumulator resets to and the fold applied to emissions.
    pub fn new(id: usize, default_value: Val, gather: Gather) -> (s: ValueSignal)
        ensures
            s == (ValueSignal {
                runtime: VSignalRuntimeRef { id, default_value: Box::new(default_value), gather },
            }),
    {
        ValueSignal { runtime: VSignalRuntimeRef { id, default_value: Box::new(default_value), gather } }
    }

    pub fn runtime(&self) -> (r: VSignalRuntimeRef)
        ensures
            r == self.runtime,
    {
        clone_v_ref(&self.runtime)
    }

    pub fn await_immediate(&self) -> (p: Process)
        ensures
            p == Process::VAwaitImmediate((VAwaitImmediate { signal: self.runtime })),
    {
        Process::VAwaitImmediate(VAwaitImmediate { signal: clone_v_ref(&self.runtime) })
    }

    pub fn await_value(&self) -> (p: Process)
        ensures
            p == Process::VAwait((VAwait { signal: self.runtime })),
    {
        Process::VAwait(VAwait { signal: clone_v_ref(&self.runtime) })
    }

    pub fn emit(&self, value: Process) -> (p: Process)
        ensures
            p == Process::VEmit((VEmit { signal: self.runtime, value: Box::new(value) })),
    {
        Process::VEmit(VEmit { signal: clone_v_ref(&self.runtime), value: Box::new(value) })
    }

    pub fn present(&self) -> (p: Process)
        ensures
            p == Process::VPresent((VPresent { signal: self.runtime })),
    {
        Process::VPresent(VPresent { signal: clone_v_ref(&self.runtime) })
    }
}

/// The producing side of a unique-consumer signal: anyone may emit, only
/// the one consumer may await.
#[derive(Debug, PartialEq, Eq)]
pub struct UniqueConsumerSignalProducer {
    pub runtime: UCSignalRuntimeRef,
}

/// The consuming side of a unique-consumer signal.
#[derive(Debug, PartialEq, Eq)]
pub struct UniqueConsumerSignalConsumer {
    pub runtime: UCSignalRuntimeRef,
}

impl UniqueConsumerSignalProducer {
    /// A fresh unique-consumer signal under the given identity, returned as
    /// its producer and consumer halves.
    pub fn new(id: usize, default_value: Val, gather: Gather) -> (pair: (
        UniqueConsumerSignalProducer,
        UniqueConsumerSignalConsumer,
    ))
        ensures
            pair.0 == (UniqueConsumerSignalProducer {
                runtime: UCSignalRuntimeRef { id, default_value: Box::new(default_value), gather },
            }),
            pair.1 == (UniqueConsumerSignalConsumer {
                runtime: UCSignalRuntimeRef { id, default_value: Box::new(default_value), gather },
            }),
    {
        let runtime = UCSignalRuntimeRef { id, default_value: Box::new(default_value), gather };
        let runtime2 = clone_uc_ref(&runtime);
        (
            UniqueConsumerSignalProducer { runtime },
            UniqueConsumerSignalConsumer { runtime: runtime2 },
        )
    }

    pub fn runtime(&self) -> (r: UCSignalRuntimeRef)
        ensures
            r == self.runtime,
    {
        clone_uc_ref(&self.runtime)
    }

    pub fn await_immediate(&self) -> (p: Process)
        ensures
            p == Process::UCAwaitImmediate((UCAwaitImmediate { signal: self.runtime })),
    {
        Process::UCAwaitImmediate(UCAwaitImmediate { signal: clone_uc_ref(&self.runtime) })
    }

    pub fn emit(&self, value: Process) -> (p: Process)
        ensures
            p == Process::UCEmit((UCEmit { signal: self.runtime, value: Box::new(value) })),
    {
        Process::UCEmit(UCEmit { signal: clone_uc_ref(&self.runtime), value: Box::new(value) })
    }

    pub fn present(&self) -> (p: Process)
        ensures
            p == Process::UCPresent((UCPresent { signal: self.runtime })),
    {
        Process::UCPresent(UCPresent { signal: clone_uc_ref(&self.runtime) })
    }
}

impl UniqueConsumerSignalConsumer {
    pub fn runtime(&self) -> (r: UCSignalRuntimeRef)
        ensures
            r == self.runtime,
    {
        clone_uc_ref(&self.runtime)
    }

    /// The unique consumer's await of the instant's accumulated value.
    /// Execution faults if a second await is outstanding.
    pub fn await_value(&self) -> (p: Process)
        ensures
            p == Process::UCAwait((UCAwait { signal: self.runtime })),
    {
        Process::UCAwait(UCAwait { signal: clone_uc_ref(&self.runtime) })
    }
}

/// The producing side of a unique-producer signal: only this handle may
/// emit, and an emission replaces the replicated value.
#[derive(Debug, PartialEq, Eq)]
pub struct UniqueProducerSignalProducer {
    pub runtime: UPSignalRuntimeRef,
}

/// The consuming side of a unique-producer signal: anyone may listen.
#[derive(Debug, PartialEq, Eq)]
pub struct UniqueProducerSignalConsumer {
    pub runtime: UPSignalRuntimeRef,
}

impl UniqueProducerSignalProducer {
    /// A fresh unique-producer signal under the given identity, returned as
    /// its producer and consumer halves.
    pub fn new(id: usize, default_value: Val) -> (pair: (
        UniqueProducerSignalProducer,
        UniqueProducerSignalConsumer,
    ))
        ensures
            pair.0 == (UniqueProducerSignalProducer {
                runtime: UPSignalRuntimeRef { id, default_value: Box::new(default_value) },
            }),
            pair.1 == (UniqueProducerSignalConsumer {
                runtime: UPSignalRuntimeRef { id, default_value: Box::new(default_value) },
            }),
    {
        let runtime = UPSignalRuntimeRef { id, default_value: Box::new(default_value) };
        let runtime2 = clone_up_ref(&runtime);
        (
            UniqueProducerSignalProducer { runtime },
            UniqueProducerSignalConsumer { runtime: runtime2 },
        )
    }

    pub fn runtime(&self) -> (r: UPSignalRuntimeRef)
        ensures
            r == self.runtime,
    {
        clone_up_ref(&self.runtime)
    }

    pub fn emit(&self, value: Process) -> (p: Process)
        ensures
            p == Process::UPEmit((UPEmit { signal: self.runtime, value: Box::new(value) })),
    {
        Process::UPEmit(UPEmit { signal: clone_up_ref(&self.runtime), value: Box::new(value) })
    }
}

impl UniqueProducerSignalConsumer {
    pub fn runtime(&self) -> (r: UPSignalRuntimeRef)
        ensures
            r == self.runtime,
    {
        clone_up_ref(&self.runtime)
    }

    pub fn await_immediate(&self) -> (p: Process)
        ensures
            p == Process::UPAwaitImmediate((UPAwaitImmediate { signal: self.runtime })),
    {
        Process::UPAwaitImmediate(UPAwaitImmediate { signal: clone_up_ref(&self.runtime) })
    }

    pub fn present(&self) -> (p: Process)
        ensures
            p == Process::UPPresent((UPPresent { signal: self.runtime })),
    {
        Process::UPPresent(UPPresent { signal: clone_up_ref(&self.runtime) })
    }
}

} // verus!
