//! The small-step specification of the scheduler.
//!
//! A [`CoreModel`] is the mathematical image of the executing core: the four
//! task banks, the signal cells, the rendezvous cells, and the result slot.
//! [`spec_run_task`] says exactly what executing one task does to it, and
//! [`machine_step`] drives whole instants: drain the current bank, swap the
//! banks, drain the end-of-instant bank, wrap. The executable schedulers are
//! proved to implement `machine_step` step for step, so every theorem about
//! runs of this machine is a theorem about the running code.

use vstd::prelude::*;

verus! {

use crate::value::{Val, spec_fun_apply, spec_gather_apply};
use crate::continuation::Continuation;
use crate::process::{
    Process, Value, Mapped, Pause, Flatten, Then, Join, MultiJoin, While, If, ProcList,
};
use crate::signal::{
    SignalRuntime, SigKind, Waiter, WaiterList, spec_sig_init, VEmit, UCEmit, UPEmit,
};
use crate::task::{Task, Slot, SlotList, JoinCell};

/// The mathematical image of an executing core.
#[verifier::ext_equal]
pub struct CoreModel {
    /// Tasks ready to run in the current instant.
    pub current: Seq<Task>,
    /// End-of-instant hooks registered during the current instant.
    pub end: Seq<Task>,
    /// Tasks registered for the next instant.
    pub next_current: Seq<Task>,
    /// The bank drained during the closing phase of the instant.
    pub next_end: Seq<Task>,
    /// Signal cells, indexed by signal identity; `None` until first use.
    pub signals: Seq<Option<SignalRuntime>>,
    /// Rendezvous cells of the joins started so far.
    pub cells: Seq<JoinCell>,
    /// The value delivered to the root continuation, once it is.
    pub result: Option<Val>,
    /// Set when a contract violation (a second outstanding unique-consumer
    /// await) is detected; the offending continuation is dropped.
    pub fault: bool,
}

/// A whole machine state: the core plus the instant bookkeeping.
#[verifier::ext_equal]
pub struct RunState {
    pub core: CoreModel,
    /// False while the current bank drains; true while the end-of-instant
    /// bank drains.
    pub closing: bool,
    /// True exactly when the last step taken was an instant wrap: a run is
    /// finished only at an instant boundary.
    pub rested: bool,
    /// How many instants have completed.
    pub instants: u64,
}

pub open spec fn inc_sat(i: u64) -> u64 {
    if i < u64::MAX {
        (i + 1) as u64
    } else {
        i
    }
}

/// Signal table extended (with absent cells) so that `id` is in range.
pub open spec fn spec_grow(signals: Seq<Option<SignalRuntime>>, id: usize) -> Seq<
    Option<SignalRuntime>,
> {
    if signals.len() > id {
        signals
    } else {
        signals + Seq::new((id + 1 - signals.len()) as nat, |i: int| None)
    }
}

/// The core after making sure signal `id` has a cell, creating it from the
/// given configuration if this is its first use.
pub open spec fn spec_ensure_sig(
    c: CoreModel,
    id: usize,
    status: bool,
    default_value: Val,
    gather: crate::value::Gather,
    kind: SigKind,
) -> CoreModel {
    let grown = spec_grow(c.signals, id);
    if grown[id as int] is Some {
        CoreModel { signals: grown, ..c }
    } else {
        CoreModel {
            signals: grown.update(id as int, Some(spec_sig_init(status, default_value, gather, kind))),
            ..c
        }
    }
}

/// Waiters resumed with value `v`, appended to a task bank.
pub open spec fn spec_flush(q: Seq<Task>, l: WaiterList, v: Val) -> Seq<Task>
    decreases l,
{
    match l {
        WaiterList::Nil => q,
        WaiterList::Cons(w, t) => spec_flush(
            q.push(Task::Resume { next: w.next, rebuilt: w.rebuilt, value: v }),
            *t,
            v,
        ),
    }
}

/// An emission of value `v` on signal `id`: on the first emission of the
/// instant the presence waiters fire; the value is folded in (or, for a
/// unique producer, replaces the replicated value); an end-of-instant hook
/// is registered.
pub open spec fn spec_do_emit(c: CoreModel, id: usize, v: Val) -> CoreModel {
    if id < c.signals.len() && c.signals[id as int] is Some {
        let sig = c.signals[id as int]->Some_0;
        if sig.kind is UniqueProducer {
            let cur1 = spec_flush(c.current, sig.waiting_await, v);
            let cur2 = spec_flush(cur1, sig.waiting_present, Val::Bool(true));
            let sig2 = SignalRuntime {
                status: true,
                waiting_await: WaiterList::Nil,
                waiting_present: WaiterList::Nil,
                current_value: v,
                ..sig
            };
            CoreModel {
                current: cur2,
                end: c.end.push(Task::EndEmit { id }),
                signals: c.signals.update(id as int, Some(sig2)),
                ..c
            }
        } else {
            let cur1 = spec_flush(c.current, sig.callbacks, Val::Unit);
            let cur2 = spec_flush(cur1, sig.waiting_present, Val::Bool(true));
            let folded = if sig.kind is Pure {
                sig.current_value
            } else {
                spec_gather_apply(sig.gather, sig.current_value, v)
            };
            let sig2 = SignalRuntime {
                status: true,
                callbacks: WaiterList::Nil,
                waiting_present: WaiterList::Nil,
                current_value: folded,
                ..sig
            };
            CoreModel {
                current: cur2,
                end: c.end.push(Task::EndEmit { id }),
                signals: c.signals.update(id as int, Some(sig2)),
                ..c
            }
        }
    } else {
        c
    }
}

/// An `await_immediate` on signal `id`: fire now if present, else wait for
/// the first emission. On a unique-producer signal the waiter receives the
/// replicated value instead of `Unit`.
pub open spec fn spec_do_await_immediate(c: CoreModel, id: usize, w: Waiter) -> CoreModel {
    if id < c.signals.len() && c.signals[id as int] is Some {
        let sig = c.signals[id as int]->Some_0;
        if sig.status {
            let v = if sig.kind is UniqueProducer {
                sig.current_value
            } else {
                Val::Unit
            };
            CoreModel {
                current: c.current.push(Task::Resume { next: w.next, rebuilt: w.rebuilt, value: v }),
                ..c
            }
        } else {
            let sig2 = if sig.kind is UniqueProducer {
                SignalRuntime { waiting_await: WaiterList::Cons(Box::new(w), Box::new(sig.waiting_await)), ..sig }
            } else {
                SignalRuntime { callbacks: WaiterList::Cons(Box::new(w), Box::new(sig.callbacks)), ..sig }
            };
            CoreModel { signals: c.signals.update(id as int, Some(sig2)), ..c }
        }
    } else {
        c
    }
}

/// An `await` of the instant's accumulated value. On a unique-consumer
/// signal a second outstanding await is a contract violation: the machine
/// faults and the continuation is dropped.
pub open spec fn spec_do_await_value(c: CoreModel, id: usize, w: Waiter) -> CoreModel {
    if id < c.signals.len() && c.signals[id as int] is Some {
        let sig = c.signals[id as int]->Some_0;
        if sig.kind is UniqueConsumer && !(sig.waiting_await is Nil) {
            CoreModel { fault: true, ..c }
        } else {
            let sig2 = SignalRuntime {
                waiting_await: WaiterList::Cons(Box::new(w), Box::new(sig.waiting_await)),
                ..sig
            };
            CoreModel { signals: c.signals.update(id as int, Some(sig2)), ..c }
        }
    } else {
        c
    }
}

/// A `present` test: `true` at once within an emitting instant; otherwise
/// the continuation waits, and the first waiter registers the end-of-instant
/// hook that resolves the silent case to `false`.
pub open spec fn spec_do_present(c: CoreModel, id: usize, w: Waiter) -> CoreModel {
    if id < c.signals.len() && c.signals[id as int] is Some {
        let sig = c.signals[id as int]->Some_0;
        if sig.status {
            CoreModel {
                current: c.current.push(
                    Task::Resume { next: w.next, rebuilt: w.rebuilt, value: Val::Bool(true) },
                ),
                ..c
            }
        } else {
            let end2 = if sig.waiting_present is Nil {
                c.end.push(Task::EndPresent { id })
            } else {
                c.end
            };
            let sig2 = SignalRuntime {
                waiting_present: WaiterList::Cons(Box::new(w), Box::new(sig.waiting_present)),
                ..sig
            };
            CoreModel { end: end2, signals: c.signals.update(id as int, Some(sig2)), ..c }
        }
    } else {
        c
    }
}

/// The end-of-instant hook of an emission: value waiters receive the
/// accumulated value at the start of the next instant, the accumulator
/// resets to the default, and the signal becomes absent.
pub open spec fn spec_do_end_emit(c: CoreModel, id: usize) -> CoreModel {
    if id < c.signals.len() && c.signals[id as int] is Some {
        let sig = c.signals[id as int]->Some_0;
        if sig.kind is Gathered || sig.kind is UniqueConsumer {
            let cur2 = spec_flush(c.current, sig.waiting_await, sig.current_value);
            let sig2 = SignalRuntime {
                status: false,
                waiting_await: WaiterList::Nil,
                current_value: sig.default_value,
                ..sig
            };
            CoreModel {
                current: cur2,
                signals: c.signals.update(id as int, Some(sig2)),
                ..c
            }
        } else {
            let sig2 = SignalRuntime { status: false, current_value: sig.default_value, ..sig };
            CoreModel { signals: c.signals.update(id as int, Some(sig2)), ..c }
        }
    } else {
        c
    }
}

/// The end-of-instant hook of a silent instant: pending `present` tests
/// resolve to `false`, still within the closing phase.
pub open spec fn spec_do_end_present(c: CoreModel, id: usize) -> CoreModel {
    if id < c.signals.len() && c.signals[id as int] is Some {
        let sig = c.signals[id as int]->Some_0;
        let ne2 = spec_flush(c.next_end, sig.waiting_present, Val::Bool(false));
        let sig2 = SignalRuntime { waiting_present: WaiterList::Nil, ..sig };
        CoreModel { next_end: ne2, signals: c.signals.update(id as int, Some(sig2)), ..c }
    } else {
        c
    }
}

/// Slot list with entry `idx` filled.
pub open spec fn spec_slot_set(l: SlotList, idx: nat, s: Slot) -> SlotList
    decreases l,
{
    match l {
        SlotList::Nil => SlotList::Nil,
        SlotList::Cons(h, t) => if idx == 0 {
            SlotList::Cons(Some(s), t)
        } else {
            SlotList::Cons(h, Box::new(spec_slot_set(*t, (idx - 1) as nat, s)))
        },
    }
}

pub open spec fn spec_all_filled(l: SlotList) -> bool
    decreases l,
{
    match l {
        SlotList::Nil => true,
        SlotList::Cons(h, t) => h is Some && spec_all_filled(*t),
    }
}

pub open spec fn spec_slot_procs(l: SlotList) -> ProcList
    decreases l,
{
    match l {
        SlotList::Nil => ProcList::Nil,
        SlotList::Cons(h, t) => match h {
            Some(s) => ProcList::Cons(Box::new(s.p), Box::new(spec_slot_procs(*t))),
            None => spec_slot_procs(*t),
        },
    }
}

pub open spec fn spec_slot_vals(l: SlotList) -> crate::value::ValList
    decreases l,
{
    match l {
        SlotList::Nil => crate::value::ValList::Nil,
        SlotList::Cons(h, t) => match h {
            Some(s) => crate::value::ValList::Cons(Box::new(s.v), Box::new(spec_slot_vals(*t))),
            None => spec_slot_vals(*t),
        },
    }
}

/// The rebuilt process and the value a completed rendezvous delivers.
pub open spec fn spec_cell_finish(pair: bool, l: SlotList) -> (Process, Val) {
    if pair {
        match l {
            SlotList::Cons(Some(s1), t) => match *t {
                SlotList::Cons(Some(s2), _) => (
                    Process::Join(Join { p1: Box::new(s1.p), p2: Box::new(s2.p) }),
                    Val::Pair(Box::new(s1.v), Box::new(s2.v)),
                ),
                _ => (Process::Value(Value { val: Val::Unit }), Val::Unit),
            },
            _ => (Process::Value(Value { val: Val::Unit }), Val::Unit),
        }
    } else {
        (
            Process::MultiJoin(MultiJoin { processes: spec_slot_procs(l) }),
            Val::List(Box::new(spec_slot_vals(l))),
        )
    }
}

/// Filling one slot of a rendezvous cell; the last fill consumes the cell's
/// continuation and delivers the combined value.
pub open spec fn spec_fill_slot(c: CoreModel, cell: usize, idx: usize, p: Process, v: Val) -> CoreModel {
    if cell < c.cells.len() {
        let jc = c.cells[cell as int];
        let slots2 = spec_slot_set(jc.slots, idx as nat, Slot { p, v });
        if spec_all_filled(slots2) && jc.next is Some {
            let fin = spec_cell_finish(jc.pair, slots2);
            CoreModel {
                cells: c.cells.update(
                    cell as int,
                    JoinCell { slots: SlotList::Nil, next: None, pair: jc.pair },
                ),
                current: c.current.push(
                    Task::Resume { next: jc.next->Some_0, rebuilt: fin.0, value: fin.1 },
                ),
                ..c
            }
        } else {
            CoreModel {
                cells: c.cells.update(cell as int, JoinCell { slots: slots2, next: jc.next, pair: jc.pair }),
                ..c
            }
        }
    } else {
        c
    }
}

/// One absent slot per branch.
pub open spec fn spec_empty_slots(ps: ProcList) -> SlotList
    decreases ps,
{
    match ps {
        ProcList::Nil => SlotList::Nil,
        ProcList::Cons(_, t) => SlotList::Cons(None, Box::new(spec_empty_slots(*t))),
    }
}

/// The branch tasks of a `multi_join`, seeded onto a bank in input order.
pub open spec fn spec_seed(q: Seq<Task>, ps: ProcList, cell: usize, idx: usize) -> Seq<Task>
    decreases ps,
{
    match ps {
        ProcList::Nil => q,
        ProcList::Cons(h, t) => if idx == usize::MAX {
            q
        } else {
            spec_seed(
                q.push(Task::Call { process: *h, next: Continuation::ToSlot { cell, idx } }),
                *t,
                cell,
                (idx + 1) as usize,
            )
        },
    }
}

/// What executing one task does to the core.
#[verifier::opaque]
pub open spec fn spec_run_task(c: CoreModel, t: Task) -> CoreModel {
    match t {
        Task::Call { process, next } => match process {
            Process::Value(vl) => CoreModel {
                current: c.current.push(
                    Task::Resume {
                        next,
                        rebuilt: Process::Value(Value { val: vl.val }),
                        value: vl.val,
                    },
                ),
                ..c
            },
            Process::Mapped(m) => CoreModel {
                current: c.current.push(
                    Task::Call {
                        process: *m.process,
                        next: Continuation::Mapped { func: m.func, next: Box::new(next) },
                    },
                ),
                ..c
            },
            Process::Pause(p) => CoreModel {
                next_current: c.next_current.push(
                    Task::Call {
                        process: *p.process,
                        next: Continuation::AfterPause { next: Box::new(next) },
                    },
                ),
                ..c
            },
            Process::Flatten(f) => CoreModel {
                current: c.current.push(
                    Task::Call {
                        process: *f.process,
                        next: Continuation::FlattenOuter { next: Box::new(next) },
                    },
                ),
                ..c
            },
            Process::Then(t2) => CoreModel {
                current: c.current.push(
                    Task::Call {
                        process: *t2.p,
                        next: Continuation::ThenFirst { q: t2.q, next: Box::new(next) },
                    },
                ),
                ..c
            },
            Process::Join(j) => {
                let cell = c.cells.len() as usize;
                CoreModel {
                    cells: c.cells.push(
                        JoinCell {
                            slots: SlotList::Cons(
                                None,
                                Box::new(SlotList::Cons(None, Box::new(SlotList::Nil))),
                            ),
                            next: Some(next),
                            pair: true,
                        },
                    ),
                    current: c.current.push(
                        Task::Call { process: *j.p1, next: Continuation::ToSlot { cell, idx: 0 } },
                    ).push(
                        Task::Call { process: *j.p2, next: Continuation::ToSlot { cell, idx: 1 } },
                    ),
                    ..c
                }
            },
            Process::MultiJoin(m) => {
                let cell = c.cells.len() as usize;
                CoreModel {
                    cells: c.cells.push(
                        JoinCell { slots: spec_empty_slots(m.processes), next: Some(next), pair: false },
                    ),
                    current: spec_seed(c.current, m.processes, cell, 0),
                    ..c
                }
            },
            Process::While(w) => CoreModel {
                current: c.current.push(
                    Task::Call {
                        process: *w.process,
                        next: Continuation::InLoop { next: Box::new(next) },
                    },
                ),
                ..c
            },
            Process::If(i) => CoreModel {
                current: c.current.push(
                    Task::Call {
                        process: *i.process_cond,
                        next: Continuation::IfCond { p: i.process_if, q: i.process_else, next: Box::new(next) },
                    },
                ),
                ..c
            },
            Process::PAwaitImmediate(a) => {
                let c1 = spec_ensure_sig(
                    c,
                    a.signal.id,
                    a.signal.init_status,
                    Val::Unit,
                    crate::value::Gather::Sum,
                    SigKind::Pure,
                );
                spec_do_await_immediate(
                    c1,
                    a.signal.id,
                    Waiter { next, rebuilt: Process::PAwaitImmediate(a) },
                )
            },
            Process::PEmit(e) => {
                let c1 = spec_ensure_sig(
                    c,
                    e.signal.id,
                    e.signal.init_status,
                    Val::Unit,
                    crate::value::Gather::Sum,
                    SigKind::Pure,
                );
                let c2 = spec_do_emit(c1, e.signal.id, Val::Unit);
                CoreModel {
                    current: c2.current.push(
                        Task::Resume { next, rebuilt: Process::PEmit(e), value: Val::Unit },
                    ),
                    ..c2
                }
            },
            Process::PPresent(q) => {
                let c1 = spec_ensure_sig(
                    c,
                    q.signal.id,
                    q.signal.init_status,
                    Val::Unit,
                    crate::value::Gather::Sum,
                    SigKind::Pure,
                );
                spec_do_present(c1, q.signal.id, Waiter { next, rebuilt: Process::PPresent(q) })
            },
            Process::VAwaitImmediate(a) => {
                let c1 = spec_ensure_sig(
                    c,
                    a.signal.id,
                    false,
                    *a.signal.default_value,
                    a.signal.gather,
                    SigKind::Gathered,
                );
                spec_do_await_immediate(
                    c1,
                    a.signal.id,
                    Waiter { next, rebuilt: Process::VAwaitImmediate(a) },
                )
            },
            Process::VAwait(a) => {
                let c1 = spec_ensure_sig(
                    c,
                    a.signal.id,
                    false,
                    *a.signal.default_value,
                    a.signal.gather,
                    SigKind::Gathered,
                );
                spec_do_await_value(c1, a.signal.id, Waiter { next, rebuilt: Process::VAwait(a) })
            },
            Process::VEmit(e) => CoreModel {
                current: c.current.push(
                    Task::Call {
                        process: *e.value,
                        next: Continuation::EmitGathered { signal: e.signal, next: Box::new(next) },
                    },
                ),
                ..c
            },
            Process::VPresent(q) => {
                let c1 = spec_ensure_sig(
                    c,
                    q.signal.id,
                    false,
                    *q.signal.default_value,
                    q.signal.gather,
                    SigKind::Gathered,
                );
                spec_do_present(c1, q.signal.id, Waiter { next, rebuilt: Process::VPresent(q) })
            },
            Process::UCAwaitImmediate(a) => {
                let c1 = spec_ensure_sig(
                    c,
                    a.signal.id,
                    false,
                    *a.signal.default_value,
                    a.signal.gather,
                    SigKind::UniqueConsumer,
                );
                spec_do_await_immediate(
                    c1,
                    a.signal.id,
                    Waiter { next, rebuilt: Process::UCAwaitImmediate(a) },
                )
            },
            Process::UCAwait(a) => {
                let c1 = spec_ensure_sig(
                    c,
                    a.signal.id,
                    false,
                    *a.signal.default_value,
                    a.signal.gather,
                    SigKind::UniqueConsumer,
                );
                spec_do_await_value(c1, a.signal.id, Waiter { next, rebuilt: Process::UCAwait(a) })
            },
            Process::UCEmit(e) => CoreModel {
                current: c.current.push(
                    Task::Call {
                        process: *e.value,
                        next: Continuation::EmitUc { signal: e.signal, next: Box::new(next) },
                    },
                ),
                ..c
            },
            Process::UCPresent(q) => {
                let c1 = spec_ensure_sig(
                    c,
                    q.signal.id,
                    false,
                    *q.signal.default_value,
                    q.signal.gather,
                    SigKind::UniqueConsumer,
                );
                spec_do_present(c1, q.signal.id, Waiter { next, rebuilt: Process::UCPresent(q) })
            },
            Process::UPAwaitImmediate(a) => {
                let c1 = spec_ensure_sig(
                    c,
                    a.signal.id,
                    false,
                    *a.signal.default_value,
                    crate::value::Gather::Sum,
                    SigKind::UniqueProducer,
                );
                spec_do_await_immediate(
                    c1,
                    a.signal.id,
                    Waiter { next, rebuilt: Process::UPAwaitImmediate(a) },
                )
            },
            Process::UPEmit(e) => CoreModel {
                current: c.current.push(
                    Task::Call {
                        process: *e.value,
                        next: Continuation::EmitUp { signal: e.signal, next: Box::new(next) },
                    },
                ),
                ..c
            },
            Process::UPPresent(q) => {
                let c1 = spec_ensure_sig(
                    c,
                    q.signal.id,
                    false,
                    *q.signal.default_value,
                    crate::value::Gather::Sum,
                    SigKind::UniqueProducer,
                );
                spec_do_present(c1, q.signal.id, Waiter { next, rebuilt: Process::UPPresent(q) })
            },
        },
        Task::Resume { next, rebuilt, value } => match next {
            Continuation::Store => CoreModel { result: Some(value), ..c },
            Continuation::ToSlot { cell, idx } => spec_fill_slot(c, cell, idx, rebuilt, value),
            Continuation::Mapped { func, next } => {
                let fv = spec_fun_apply(func, value);
                CoreModel {
                    current: c.current.push(
                        Task::Resume {
                            next: *next,
                            rebuilt: Process::Mapped(Mapped { process: Box::new(rebuilt), func: fv.0 }),
                            value: fv.1,
                        },
                    ),
                    ..c
                }
            },
            Continuation::Paused { next } => CoreModel {
                next_current: c.next_current.push(Task::Resume { next: *next, rebuilt, value }),
                ..c
            },
            Continuation::AfterPause { next } => CoreModel {
                current: c.current.push(
                    Task::Resume {
                        next: *next,
                        rebuilt: Process::Pause(Pause { process: Box::new(rebuilt) }),
                        value,
                    },
                ),
                ..c
            },
            Continuation::ThenFirst { q, next } => CoreModel {
                current: c.current.push(
                    Task::Call {
                        process: *q,
                        next: Continuation::ThenSecond { p: Box::new(rebuilt), next },
                    },
                ),
                ..c
            },
            Continuation::ThenSecond { p, next } => CoreModel {
                current: c.current.push(
                    Task::Resume {
                        next: *next,
                        rebuilt: Process::Then(Then { p, q: Box::new(rebuilt) }),
                        value,
                    },
                ),
                ..c
            },
            Continuation::FlattenOuter { next } => match value {
                Val::Prog(q) => CoreModel {
                    current: c.current.push(
                        Task::Call {
                            process: *q,
                            next: Continuation::FlattenInner { outer: Box::new(rebuilt), next },
                        },
                    ),
                    ..c
                },
                _ => c,
            },
            Continuation::FlattenInner { outer, next } => CoreModel {
                current: c.current.push(
                    Task::Resume {
                        next: *next,
                        rebuilt: Process::Flatten(Flatten { process: outer }),
                        value,
                    },
                ),
                ..c
            },
            Continuation::InLoop { next } => match value {
                Val::Status(st) => match *st {
                    crate::value::LoopStatus::Continue => CoreModel {
                        current: c.current.push(
                            Task::Call { process: rebuilt, next: Continuation::InLoop { next } },
                        ),
                        ..c
                    },
                    crate::value::LoopStatus::Exit(v) => CoreModel {
                        current: c.current.push(
                            Task::Resume {
                                next: *next,
                                rebuilt: Process::While(While { process: Box::new(rebuilt) }),
                                value: *v,
                            },
                        ),
                        ..c
                    },
                },
                _ => c,
            },
            Continuation::IfCond { p, q, next } => match value {
                Val::Bool(b) => if b {
                    CoreModel {
                        current: c.current.push(
                            Task::Call {
                                process: *p,
                                next: Continuation::IfTrue { cond: Box::new(rebuilt), q, next },
                            },
                        ),
                        ..c
                    }
                } else {
                    CoreModel {
                        current: c.current.push(
                            Task::Call {
                                process: *q,
                                next: Continuation::IfFalse { cond: Box::new(rebuilt), p, next },
                            },
                        ),
                        ..c
                    }
                },
                _ => c,
            },
            Continuation::IfTrue { cond, q, next } => CoreModel {
                current: c.current.push(
                    Task::Resume {
                        next: *next,
                        rebuilt: Process::If(
                            If { process_if: Box::new(rebuilt), process_else: q, process_cond: cond },
                        ),
                        value,
                    },
                ),
                ..c
            },
            Continuation::IfFalse { cond, p, next } => CoreModel {
                current: c.current.push(
                    Task::Resume {
                        next: *next,
                        rebuilt: Process::If(
                            If { process_if: p, process_else: Box::new(rebuilt), process_cond: cond },
                        ),
                        value,
                    },
                ),
                ..c
            },
            Continuation::EmitGathered { signal, next } => {
                let c1 = spec_ensure_sig(
                    c,
                    signal.id,
                    false,
                    *signal.default_value,
                    signal.gather,
                    SigKind::Gathered,
                );
                let c2 = spec_do_emit(c1, signal.id, value);
                CoreModel {
                    current: c2.current.push(
                        Task::Resume {
                            next: *next,
                            rebuilt: Process::VEmit(VEmit { signal, value: Box::new(rebuilt) }),
                            value: Val::Unit,
                        },
                    ),
                    ..c2
                }
            },
            Continuation::EmitUc { signal, next } => {
                let c1 = spec_ensure_sig(
                    c,
                    signal.id,
                    false,
                    *signal.default_value,
                    signal.gather,
                    SigKind::UniqueConsumer,
                );
                let c2 = spec_do_emit(c1, signal.id, value);
                CoreModel {
                    current: c2.current.push(
                        Task::Resume {
                            next: *next,
                            rebuilt: Process::UCEmit(UCEmit { signal, value: Box::new(rebuilt) }),
                            value: Val::Unit,
                        },
                    ),
                    ..c2
                }
            },
            Continuation::EmitUp { signal, next } => {
                let c1 = spec_ensure_sig(
                    c,
                    signal.id,
                    false,
                    *signal.default_value,
                    crate::value::Gather::Sum,
                    SigKind::UniqueProducer,
                );
                let c2 = spec_do_emit(c1, signal.id, value);
                CoreModel {
                    current: c2.current.push(
                        Task::Resume {
                            next: *next,
                            rebuilt: Process::UPEmit(UPEmit { signal, value: Box::new(rebuilt) }),
                            value: Val::Unit,
                        },
                    ),
                    ..c2
                }
            },
        },
        Task::EndEmit { id } => spec_do_end_emit(c, id),
        Task::EndPresent { id } => spec_do_end_present(c, id),
    }
}

/// Nothing is left to do: the instant just wrapped and every bank that the
/// next instant would drain is empty.
pub open spec fn machine_done(s: RunState) -> bool {
    &&& !s.closing
    &&& s.rested
    &&& s.core.current.len() == 0
    &&& s.core.end.len() == 0
    &&& s.core.next_end.len() == 0
}

/// One scheduler step: run the last task of the bank the phase drains, or
/// cross a phase boundary. Finished states are fixpoints.
pub open spec fn machine_step(s: RunState) -> RunState {
    if machine_done(s) {
        s
    } else if !s.closing {
        if s.core.current.len() > 0 {
            let t = s.core.current.last();
            let c1 = CoreModel { current: s.core.current.drop_last(), ..s.core };
            RunState { core: spec_run_task(c1, t), rested: false, ..s }
        } else {
            // Close the instant: promote the banks registered for the next
            // instant, and start draining the end-of-instant hooks.
            RunState {
                core: CoreModel {
                    current: s.core.next_current,
                    next_current: Seq::empty(),
                    end: s.core.next_end,
                    next_end: s.core.end,
                    ..s.core
                },
                closing: true,
                rested: false,
                instants: s.instants,
            }
        }
    } else {
        if s.core.next_end.len() > 0 {
            let t = s.core.next_end.last();
            let c1 = CoreModel { next_end: s.core.next_end.drop_last(), ..s.core };
            RunState { core: spec_run_task(c1, t), rested: false, ..s }
        } else {
            RunState { core: s.core, closing: false, rested: true, instants: inc_sat(s.instants) }
        }
    }
}

/// The machine after `n` steps.
pub open spec fn machine_run(s: RunState, n: nat) -> RunState
    decreases n,
{
    if n == 0 {
        s
    } else {
        machine_step(machine_run(s, (n - 1) as nat))
    }
}

/// Some number of steps finishes the run.
pub open spec fn machine_halts(s: RunState) -> bool {
    exists|n: nat| machine_done(machine_run(s, n))
}

/// The finished state a halting run reaches. Well defined because finished
/// states are fixpoints of `machine_step`.
pub open spec fn machine_outcome(s: RunState) -> RunState {
    machine_run(s, choose|n: nat| machine_done(machine_run(s, n)))
}

/// The state an execution of process `p` starts from: one task, which runs
/// `p` and stores its value as the result.
pub open spec fn boot(p: Process) -> RunState {
    RunState {
        core: CoreModel {
            current: seq![Task::Call { process: p, next: Continuation::Store }],
            end: Seq::empty(),
            next_current: Seq::empty(),
            next_end: Seq::empty(),
            signals: Seq::empty(),
            cells: Seq::empty(),
            result: None,
            fault: false,
        },
        closing: false,
        rested: false,
        instants: 0,
    }
}

/// A finished state stays put, however many more steps run.
pub proof fn lemma_done_stable(s: RunState, n: nat)
    requires
        machine_done(s),
    ensures
        machine_run(s, n) == s,
    decreases n,
{
    if n > 0 {
        lemma_done_stable(s, (n - 1) as nat);
    }
}

/// Splitting a run: `m + k` steps are `k` steps from the `m`-step state.
pub proof fn lemma_run_add(s: RunState, m: nat, k: nat)
    ensures
        machine_run(s, m + k) == machine_run(machine_run(s, m), k),
    decreases k,
{
    if k > 0 {
        lemma_run_add(s, m, (k - 1) as nat);
    }
}

/// All finished states of one run are the same state: the outcome.
pub proof fn lemma_outcome_unique(s: RunState, n: nat)
    requires
        machine_done(machine_run(s, n)),
    ensures
        machine_outcome(s) == machine_run(s, n),
{
    let m = choose|m: nat| machine_done(machine_run(s, m));
    assert(machine_done(machine_run(s, m)));
    if m <= n {
        lemma_run_add(s, m, (n - m) as nat);
        lemma_done_stable(machine_run(s, m), (n - m) as nat);
    } else {
        lemma_run_add(s, n, (m - n) as nat);
        lemma_done_stable(machine_run(s, n), (m - n) as nat);
    }
}

} // verus!
