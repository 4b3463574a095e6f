//! Continuations: what remains to be done with a value once a process has
//! produced it.
//!
//! A continuation is consumed exactly once, by a single delivery of a value.
//! Each layer is one pending step; the innermost layer is acted on first,
//! and the two bottom layers say where the final value goes: into the
//! execution result, or into one slot of a rendezvous cell.

use vstd::prelude::*;

verus! {

use crate::value::Fun;
use crate::process::Process;
use crate::signal::{VSignalRuntimeRef, UCSignalRuntimeRef, UPSignalRuntimeRef};

/// A pending consumer of one value.
#[derive(Debug, PartialEq, Eq)]
pub enum Continuation {
    /// Record the value as the result of the whole execution.
    Store,
    /// Record the value (and the rebuilt process) in slot `idx` of
    /// rendezvous cell `cell`.
    ToSlot { cell: usize, idx: usize },
    /// Apply a mapping function to the value, then continue.
    Mapped { func: Fun, next: Box<Continuation> },
    /// Hold the value back: continue only from the next instant on.
    Paused { next: Box<Continuation> },
    /// Marks that a `pause` process around the producer already took its
    /// delay; rebuilds that wrapper and continues.
    AfterPause { next: Box<Continuation> },
    /// The first half of `then_with` finished: discard its value and run
    /// the second process.
    ThenFirst { q: Box<Process>, next: Box<Continuation> },
    /// The second half of `then_with` finished: rebuild the pair and
    /// continue with its value.
    ThenSecond { p: Box<Process>, next: Box<Continuation> },
    /// The outer process of a `flatten` finished: its value must be a
    /// process, which now runs.
    FlattenOuter { next: Box<Continuation> },
    /// The inner process of a `flatten` finished: rebuild the wrapper and
    /// continue with the inner value.
    FlattenInner { outer: Box<Process>, next: Box<Continuation> },
    /// A loop body finished: on `Continue` run the rebuilt body again, on
    /// `Exit` continue with the carried value.
    InLoop { next: Box<Continuation> },
    /// The condition of an `if_else` finished: dispatch on its boolean.
    IfCond { p: Box<Process>, q: Box<Process>, next: Box<Continuation> },
    /// The chosen branch (condition was true) finished.
    IfTrue { cond: Box<Process>, q: Box<Process>, next: Box<Continuation> },
    /// The chosen branch (condition was false) finished.
    IfFalse { cond: Box<Process>, p: Box<Process>, next: Box<Continuation> },
    /// The value process of a value-signal emission finished: fold the
    /// value into the signal, then continue with `Unit`.
    EmitGathered { signal: VSignalRuntimeRef, next: Box<Continuation> },
    /// As above, for a unique-consumer signal.
    EmitUc { signal: UCSignalRuntimeRef, next: Box<Continuation> },
    /// The value process of a unique-producer emission finished: replace
    /// the signal's value, then continue with `Unit`.
    EmitUp { signal: UPSignalRuntimeRef, next: Box<Continuation> },
}

impl Continuation {
    /// The continuation that records the delivered value as the result of
    /// the whole execution.
    pub fn store() -> (c: Continuation)
        ensures
            c == Continuation::Store,
    {
        Continuation::Store
    }

    /// Applies `func` to the incoming value before handing it to `self`.
    pub fn map(self, func: Fun) -> (c: Continuation)
        ensures
            c == (Continuation::Mapped { func, next: Box::new(self) }),
    {
        Continuation::Mapped { func, next: Box::new(self) }
    }

    /// Delays `self` by one instant: the value is delivered now, but `self`
    /// consumes it only in the next instant.
    pub fn pause(self) -> (c: Continuation)
        ensures
            c == (Continuation::Paused { next: Box::new(self) }),
    {
        Continuation::Paused { next: Box::new(self) }
    }
}

} // verus!
