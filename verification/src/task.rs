//! The executing core: task banks, signal cells and rendezvous cells.
//!
//! Every operation here is proved equal to the corresponding spec-level
//! transition of [`crate::semantics`]; the schedulers compose them into
//! whole instants.

use vstd::prelude::*;

verus! {

use crate::value::{Val, Gather, clone_val, fun_apply, gather_apply};
use crate::continuation::Continuation;
use crate::process::{Process, Value, Mapped, Pause, Flatten, Then, If, While, MultiJoin, ProcList};
use crate::signal::{SignalRuntime, SigKind, Waiter, WaiterList, sig_init, VEmit, UCEmit, UPEmit};
use crate::semantics::{
    CoreModel, spec_grow, spec_ensure_sig, spec_flush, spec_do_emit, spec_do_await_immediate,
    spec_do_await_value, spec_do_present, spec_do_end_emit, spec_do_end_present, spec_slot_set,
    spec_all_filled, spec_slot_procs, spec_slot_vals, spec_cell_finish, spec_fill_slot,
    spec_empty_slots, spec_seed, spec_run_task,
};

/// One unit of scheduled work.
#[derive(Debug, PartialEq, Eq)]
pub enum Task {
    /// Run a process, delivering its value to `next`.
    Call { process: Process, next: Continuation },
    /// Deliver a value (and the rebuilt producer) to a continuation.
    Resume { next: Continuation, rebuilt: Process, value: Val },
    /// End-of-instant hook registered by an emission.
    EndEmit { id: usize },
    /// End-of-instant hook that resolves pending `present` tests to false.
    EndPresent { id: usize },
}

/// A filled rendezvous slot: the rebuilt branch and its value.
#[derive(Debug, PartialEq, Eq)]
pub struct Slot {
    pub p: Process,
    pub v: Val,
}

#[derive(Debug, PartialEq, Eq)]
pub enum SlotList {
    Nil,
    Cons(Option<Slot>, Box<SlotList>),
}

/// The rendezvous point of a join: one slot per branch and the continuation
/// the last branch to finish will consume.
#[derive(Debug, PartialEq, Eq)]
pub struct JoinCell {
    pub slots: SlotList,
    pub next: Option<Continuation>,
    /// A two-way join delivers a pair; an n-ary join delivers a list.
    pub pair: bool,
}

/// The shared state a scheduler drives: four task banks, the signal table,
/// the rendezvous cells, and the result slot.
#[derive(Debug)]
pub struct Core {
    pub current: Vec<Task>,
    pub end: Vec<Task>,
    pub next_current: Vec<Task>,
    pub next_end: Vec<Task>,
    pub signals: Vec<Option<SignalRuntime>>,
    pub cells: Vec<JoinCell>,
    pub result: Option<Val>,
    pub fault: bool,
}

impl View for Core {
    type V = CoreModel;

    open spec fn view(&self) -> CoreModel {
        CoreModel {
            current: self.current@,
            end: self.end@,
            next_current: self.next_current@,
            next_end: self.next_end@,
            signals: self.signals@,
            cells: self.cells@,
            result: self.result,
            fault: self.fault,
        }
    }
}

impl Core {
    pub fn new() -> (c: Core)
        ensures
            c@ == (CoreModel {
                current: Seq::<Task>::empty(),
                end: Seq::<Task>::empty(),
                next_current: Seq::<Task>::empty(),
                next_end: Seq::<Task>::empty(),
                signals: Seq::<Option<SignalRuntime>>::empty(),
                cells: Seq::<JoinCell>::empty(),
                result: None::<Val>,
                fault: false,
            }),
    {
        let c = Core {
            current: Vec::new(),
            end: Vec::new(),
            next_current: Vec::new(),
            next_end: Vec::new(),
            signals: Vec::new(),
            cells: Vec::new(),
            result: None,
            fault: false,
        };
        proof {
            assert(c@ =~= (CoreModel {
                current: Seq::<Task>::empty(),
                end: Seq::<Task>::empty(),
                next_current: Seq::<Task>::empty(),
                next_end: Seq::<Task>::empty(),
                signals: Seq::<Option<SignalRuntime>>::empty(),
                cells: Seq::<JoinCell>::empty(),
                result: None::<Val>,
                fault: false,
            }));
        }
        c
    }

    /// Replaces the signal cell at `id`, which must be in range.
    fn set_signal(&mut self, id: usize, s: Option<SignalRuntime>)
        requires
            id < old(self)@.signals.len(),
        ensures
            final(self)@ == (CoreModel {
                signals: old(self)@.signals.update(id as int, s),
                ..old(self)@
            }),
    {
        let _gone = self.signals.remove(id);
        self.signals.insert(id, s);
        proof {
            assert(self.signals@ =~= old(self)@.signals.update(id as int, s));
            assert(self@ =~= (CoreModel {
                signals: old(self)@.signals.update(id as int, s),
                ..old(self)@
            }));
        }
    }

    /// Takes the signal cell at `id` out, leaving `None` in its place.
    fn take_signal(&mut self, id: usize) -> (s: Option<SignalRuntime>)
        requires
            id < old(self)@.signals.len(),
        ensures
            s == old(self)@.signals[id as int],
            final(self)@ == (CoreModel {
                signals: old(self)@.signals.update(id as int, None),
                ..old(self)@
            }),
    {
        let s = self.signals.remove(id);
        self.signals.insert(id, None);
        proof {
            assert(self.signals@ =~= old(self)@.signals.update(id as int, None));
            assert(self@ =~= (CoreModel {
                signals: old(self)@.signals.update(id as int, None),
                ..old(self)@
            }));
        }
        s
    }

    /// Extends the signal table so that `id` is in range.
    fn grow_signals(&mut self, id: usize)
        ensures
            final(self)@ == (CoreModel { signals: spec_grow(old(self)@.signals, id), ..old(self)@ }),
    {
        let ghost orig = self@;
        while self.signals.len() <= id
            invariant
                orig.signals.len() <= self.signals@.len(),
                self.signals@ == orig.signals + Seq::new(
                    (self.signals@.len() - orig.signals.len()) as nat,
                    |i: int| None::<SignalRuntime>,
                ),
                self.signals@.len() <= id + 1 || self.signals@ == orig.signals,
                self@ == (CoreModel { signals: self.signals@, ..orig }),
            decreases id + 1 - self.signals@.len(),
        {
            let ghost before = self.signals@;
            self.signals.push(None);
            proof {
                assert(self.signals@ =~= orig.signals + Seq::new(
                    (self.signals@.len() - orig.signals.len()) as nat,
                    |i: int| None::<SignalRuntime>,
                ));
            }
        }
        proof {
            assert(self.signals@ =~= spec_grow(orig.signals, id));
            assert(self@ =~= (CoreModel { signals: spec_grow(orig.signals, id), ..orig }));
        }
    }

    /// Makes sure signal `id` has a cell, creating it from the given
    /// configuration on first use.
    fn ensure_sig(&mut self, id: usize, status: bool, default_value: &Val, gather: Gather, kind: SigKind)
        ensures
            final(self)@ == spec_ensure_sig(old(self)@, id, status, *default_value, gather, kind),
    {
        let ghost c0 = self@;
        self.grow_signals(id);
        if self.signals[id].is_none() {
            let d = clone_val(default_value);
            let cell = sig_init(status, d, gather, kind);
            self.set_signal(id, Some(cell));
        }
        proof {
            assert(self@ =~= spec_ensure_sig(c0, id, status, *default_value, gather, kind));
        }
    }

    /// Resumes every waiter with (a copy of) `v`, onto the current bank.
    fn flush_current(&mut self, l: WaiterList, v: &Val)
        ensures
            final(self)@ == (CoreModel {
                current: spec_flush(old(self)@.current, l, *v),
                ..old(self)@
            }),
        decreases l,
    {
        match l {
            WaiterList::Nil => {
                proof {
                    assert(self@ =~= (CoreModel {
                        current: spec_flush(old(self)@.current, l, *v),
                        ..old(self)@
                    }));
                }
            },
            WaiterList::Cons(w, t) => {
                let w = *w;
                let vv = clone_val(v);
                self.current.push(Task::Resume { next: w.next, rebuilt: w.rebuilt, value: vv });
                self.flush_current(*t, v);
            },
        }
    }

    /// Resumes every waiter with (a copy of) `v`, onto the bank being
    /// drained during the closing phase.
    fn flush_next_end(&mut self, l: WaiterList, v: &Val)
        ensures
            final(self)@ == (CoreModel {
                next_end: spec_flush(old(self)@.next_end, l, *v),
                ..old(self)@
            }),
        decreases l,
    {
        match l {
            WaiterList::Nil => {
                proof {
                    assert(self@ =~= (CoreModel {
                        next_end: spec_flush(old(self)@.next_end, l, *v),
                        ..old(self)@
                    }));
                }
            },
            WaiterList::Cons(w, t) => {
                let w = *w;
                let vv = clone_val(v);
                self.next_end.push(Task::Resume { next: w.next, rebuilt: w.rebuilt, value: vv });
                self.flush_next_end(*t, v);
            },
        }
    }

    /// An emission of `v` on signal `id`; see [`spec_do_emit`].
    fn do_emit(&mut self, id: usize, v: Val)
        ensures
            final(self)@ == spec_do_emit(old(self)@, id, v),
    {
        let ghost c0 = self@;
        let ghost v0 = v;
        if id >= self.signals.len() {
            return ;
        }
        let taken = self.take_signal(id);
        match taken {
            None => {
                proof {
                    assert(self@ =~= c0);
                }
            },
            Some(sig) => {
                let SignalRuntime {
                    status,
                    callbacks,
                    waiting_present,
                    waiting_await,
                    current_value,
                    default_value,
                    gather,
                    kind,
                } = sig;
                match kind {
                    SigKind::UniqueProducer => {
                        self.flush_current(waiting_await, &v);
                        self.flush_current(waiting_present, &Val::Bool(true));
                        self.end.push(Task::EndEmit { id });
                        let sig2 = SignalRuntime {
                            status: true,
                            callbacks,
                            waiting_present: WaiterList::Nil,
                            waiting_await: WaiterList::Nil,
                            current_value: v,
                            default_value,
                            gather,
                            kind,
                        };
                        self.set_signal(id, Some(sig2));
                        proof {
                            assert(self@ =~= spec_do_emit(c0, id, v0));
                        }
                    },
                    _ => {
                        self.flush_current(callbacks, &Val::Unit);
                        self.flush_current(waiting_present, &Val::Bool(true));
                        self.end.push(Task::EndEmit { id });
                        let folded = if let SigKind::Pure = kind {
                            current_value
                        } else {
                            gather_apply(gather, current_value, v)
                        };
                        let sig2 = SignalRuntime {
                            status: true,
                            callbacks: WaiterList::Nil,
                            waiting_present: WaiterList::Nil,
                            waiting_await,
                            current_value: folded,
                            default_value,
                            gather,
                            kind,
                        };
                        self.set_signal(id, Some(sig2));
                        proof {
                            assert(self@ =~= spec_do_emit(c0, id, v0));
                        }
                    },
                }
            },
        }
    }

    /// An `await_immediate` on signal `id`; see [`spec_do_await_immediate`].
    fn do_await_immediate(&mut self, id: usize, w: Waiter)
        ensures
            final(self)@ == spec_do_await_immediate(old(self)@, id, w),
    {
        let ghost c0 = self@;
        let ghost w0 = w;
        if id >= self.signals.len() {
            return ;
        }
        let taken = self.take_signal(id);
        match taken {
            None => {
                proof {
                    assert(self@ =~= c0);
                }
            },
            Some(sig) => {
                if sig.status {
                    let v = if let SigKind::UniqueProducer = sig.kind {
                        clone_val(&sig.current_value)
                    } else {
                        Val::Unit
                    };
                    self.set_signal(id, Some(sig));
                    self.current.push(Task::Resume { next: w.next, rebuilt: w.rebuilt, value: v });
                    proof {
                        assert(self@ =~= spec_do_await_immediate(c0, id, w0));
                    }
                } else {
                    let SignalRuntime {
                        status,
                        callbacks,
                        waiting_present,
                        waiting_await,
                        current_value,
                        default_value,
                        gather,
                        kind,
                    } = sig;
                    let sig2 = if let SigKind::UniqueProducer = kind {
                        SignalRuntime {
                            status,
                            callbacks,
                            waiting_present,
                            waiting_await: WaiterList::Cons(Box::new(w), Box::new(waiting_await)),
                            current_value,
                            default_value,
                            gather,
                            kind,
                        }
                    } else {
                        SignalRuntime {
                            status,
                            callbacks: WaiterList::Cons(Box::new(w), Box::new(callbacks)),
                            waiting_present,
                            waiting_await,
                            current_value,
                            default_value,
                            gather,
                            kind,
                        }
                    };
                    self.set_signal(id, Some(sig2));
                    proof {
                        assert(self@ =~= spec_do_await_immediate(c0, id, w0));
                    }
                }
            },
        }
    }

    /// An `await` of the accumulated value; see [`spec_do_await_value`].
    fn do_await_value(&mut self, id: usize, w: Waiter)
        ensures
            final(self)@ == spec_do_await_value(old(self)@, id, w),
    {
        let ghost c0 = self@;
        let ghost w0 = w;
        if id >= self.signals.len() {
            return ;
        }
        let taken = self.take_signal(id);
        match taken {
            None => {
                proof {
                    assert(self@ =~= c0);
                }
            },
            Some(sig) => {
                let unique = if let SigKind::UniqueConsumer = sig.kind {
                    true
                } else {
                    false
                };
                let occupied = if let WaiterList::Nil = &sig.waiting_await {
                    false
                } else {
                    true
                };
                if unique && occupied {
                    self.set_signal(id, Some(sig));
                    self.fault = true;
                    proof {
                        assert(self@ =~= spec_do_await_value(c0, id, w0));
                    }
                } else {
                    let SignalRuntime {
                        status,
                        callbacks,
                        waiting_present,
                        waiting_await,
                        current_value,
                        default_value,
                        gather,
                        kind,
                    } = sig;
                    let sig2 = SignalRuntime {
                        status,
                        callbacks,
                        waiting_present,
                        waiting_await: WaiterList::Cons(Box::new(w), Box::new(waiting_await)),
                        current_value,
                        default_value,
                        gather,
                        kind,
                    };
                    self.set_signal(id, Some(sig2));
                    proof {
                        assert(self@ =~= spec_do_await_value(c0, id, w0));
                    }
                }
            },
        }
    }

    /// A `present` test; see [`spec_do_present`].
    fn do_present(&mut self, id: usize, w: Waiter)
        ensures
            final(self)@ == spec_do_present(old(self)@, id, w),
    {
        let ghost c0 = self@;
        let ghost w0 = w;
        if id >= self.signals.len() {
            return ;
        }
        let taken = self.take_signal(id);
        match taken {
            None => {
                proof {
                    assert(self@ =~= c0);
                }
            },
            Some(sig) => {
                if sig.status {
                    self.set_signal(id, Some(sig));
                    self.current.push(
                        Task::Resume { next: w.next, rebuilt: w.rebuilt, value: Val::Bool(true) },
                    );
                    proof {
                        assert(self@ =~= spec_do_present(c0, id, w0));
                    }
                } else {
                    let SignalRuntime {
                        status,
                        callbacks,
                        waiting_present,
                        waiting_await,
                        current_value,
                        default_value,
                        gather,
                        kind,
                    } = sig;
                    if let WaiterList::Nil = &waiting_present {
                        self.end.push(Task::EndPresent { id });
                    }
                    let sig2 = SignalRuntime {
                        status,
                        callbacks,
                        waiting_present: WaiterList::Cons(Box::new(w), Box::new(waiting_present)),
                        waiting_await,
                        current_value,
                        default_value,
                        gather,
                        kind,
                    };
                    self.set_signal(id, Some(sig2));
                    proof {
                        assert(self@ =~= spec_do_present(c0, id, w0));
                    }
                }
            },
        }
    }

    /// The end-of-instant hook of an emission; see [`spec_do_end_emit`].
    fn do_end_emit(&mut self, id: usize)
        ensures
            final(self)@ == spec_do_end_emit(old(self)@, id),
    {
        let ghost c0 = self@;
        if id >= self.signals.len() {
            return ;
        }
        let taken = self.take_signal(id);
        match taken {
            None => {
                proof {
                    assert(self@ =~= c0);
                }
            },
            Some(sig) => {
                let SignalRuntime {
                    status,
                    callbacks,
                    waiting_present,
                    waiting_await,
                    current_value,
                    default_value,
                    gather,
                    kind,
                } = sig;
                let valued = match kind {
                    SigKind::Gathered => true,
                    SigKind::UniqueConsumer => true,
                    _ => false,
                };
                if valued {
                    self.flush_current(waiting_await, &current_value);
                    let fresh = clone_val(&default_value);
                    let sig2 = SignalRuntime {
                        status: false,
                        callbacks,
                        waiting_present,
                        waiting_await: WaiterList::Nil,
                        current_value: fresh,
                        default_value,
                        gather,
                        kind,
                    };
                    self.set_signal(id, Some(sig2));
                    proof {
                        assert(self@ =~= spec_do_end_emit(c0, id));
                    }
                } else {
                    let fresh = clone_val(&default_value);
                    let sig2 = SignalRuntime {
                        status: false,
                        callbacks,
                        waiting_present,
                        waiting_await,
                        current_value: fresh,
                        default_value,
                        gather,
                        kind,
                    };
                    self.set_signal(id, Some(sig2));
                    proof {
                        assert(self@ =~= spec_do_end_emit(c0, id));
                    }
                }
            },
        }
    }

    /// The end-of-instant hook of a silent instant; see
    /// [`spec_do_end_present`].
    fn do_end_present(&mut self, id: usize)
        ensures
            final(self)@ == spec_do_end_present(old(self)@, id),
    {
        let ghost c0 = self@;
        if id >= self.signals.len() {
            return ;
        }
        let taken = self.take_signal(id);
        match taken {
            None => {
                proof {
                    assert(self@ =~= c0);
                }
            },
            Some(sig) => {
                let SignalRuntime {
                    status,
                    callbacks,
                    waiting_present,
                    waiting_await,
                    current_value,
                    default_value,
                    gather,
                    kind,
                } = sig;
                self.flush_next_end(waiting_present, &Val::Bool(false));
                let sig2 = SignalRuntime {
                    status,
                    callbacks,
                    waiting_present: WaiterList::Nil,
                    waiting_await,
                    current_value,
                    default_value,
                    gather,
                    kind,
                };
                self.set_signal(id, Some(sig2));
                proof {
                    assert(self@ =~= spec_do_end_present(c0, id));
                }
            },
        }
    }
}

pub fn slot_set(l: SlotList, idx: usize, s: Slot) -> (r: SlotList)
    ensures
        r == spec_slot_set(l, idx as nat, s),
    decreases l,
{
    match l {
        SlotList::Nil => SlotList::Nil,
        SlotList::Cons(h, t) => if idx == 0 {
            SlotList::Cons(Some(s), t)
        } else {
            SlotList::Cons(h, Box::new(slot_set(*t, idx - 1, s)))
        },
    }
}

pub fn all_filled(l: &SlotList) -> (b: bool)
    ensures
        b == spec_all_filled(*l),
    decreases l,
{
    match l {
        SlotList::Nil => true,
        SlotList::Cons(h, t) => h.is_some() && all_filled(t),
    }
}

/// Splits filled slots into the rebuilt branch processes and their values.
pub fn split_slots(l: SlotList) -> (r: (ProcList, crate::value::ValList))
    ensures
        r.0 == spec_slot_procs(l),
        r.1 == spec_slot_vals(l),
    decreases l,
{
    match l {
        SlotList::Nil => (ProcList::Nil, crate::value::ValList::Nil),
        SlotList::Cons(h, t) => {
            let rest = split_slots(*t);
            match h {
                Some(s) => (
                    ProcList::Cons(Box::new(s.p), Box::new(rest.0)),
                    crate::value::ValList::Cons(Box::new(s.v), Box::new(rest.1)),
                ),
                None => rest,
            }
        },
    }
}

/// One absent slot per branch of `ps`.
pub fn empty_slots(ps: &ProcList) -> (r: SlotList)
    ensures
        r == spec_empty_slots(*ps),
    decreases ps,
{
    match ps {
        ProcList::Nil => SlotList::Nil,
        ProcList::Cons(_, t) => SlotList::Cons(None, Box::new(empty_slots(t))),
    }
}

/// The rebuilt process and delivered value of a completed rendezvous.
pub fn cell_finish(pair: bool, l: SlotList) -> (r: (Process, Val))
    ensures
        r == spec_cell_finish(pair, l),
{
    if pair {
        match l {
            SlotList::Cons(h1, t) => match (h1, *t) {
                (Some(s1), SlotList::Cons(Some(s2), _)) => (
                    Process::Join(
                        crate::process::Join { p1: Box::new(s1.p), p2: Box::new(s2.p) },
                    ),
                    Val::Pair(Box::new(s1.v), Box::new(s2.v)),
                ),
                _ => (Process::Value(Value { val: Val::Unit }), Val::Unit),
            },
            _ => (Process::Value(Value { val: Val::Unit }), Val::Unit),
        }
    } else {
        let parts = split_slots(l);
        (
            Process::MultiJoin(MultiJoin { processes: parts.0 }),
            Val::List(Box::new(parts.1)),
        )
    }
}

impl Core {
    /// Replaces the rendezvous cell at `idx`, which must be in range.
    fn set_cell(&mut self, idx: usize, cell: JoinCell)
        requires
            idx < old(self)@.cells.len(),
        ensures
            final(self)@ == (CoreModel {
                cells: old(self)@.cells.update(idx as int, cell),
                ..old(self)@
            }),
    {
        let _gone = self.cells.remove(idx);
        self.cells.insert(idx, cell);
        proof {
            assert(self.cells@ =~= old(self)@.cells.update(idx as int, cell));
            assert(self@ =~= (CoreModel {
                cells: old(self)@.cells.update(idx as int, cell),
                ..old(self)@
            }));
        }
    }

    /// Takes the rendezvous cell at `idx` out, leaving a dead cell.
    fn take_cell(&mut self, idx: usize) -> (cell: JoinCell)
        requires
            idx < old(self)@.cells.len(),
        ensures
            cell == old(self)@.cells[idx as int],
            final(self)@ == (CoreModel {
                cells: old(self)@.cells.update(
                    idx as int,
                    (JoinCell { slots: SlotList::Nil, next: None, pair: false }),
                ),
                ..old(self)@
            }),
    {
        let cell = self.cells.remove(idx);
        self.cells.insert(idx, JoinCell { slots: SlotList::Nil, next: None, pair: false });
        proof {
            assert(self.cells@ =~= old(self)@.cells.update(
                idx as int,
                (JoinCell { slots: SlotList::Nil, next: None, pair: false }),
            ));
            assert(self@ =~= (CoreModel {
                cells: old(self)@.cells.update(
                    idx as int,
                    (JoinCell { slots: SlotList::Nil, next: None, pair: false }),
                ),
                ..old(self)@
            }));
        }
        cell
    }

    /// Fills one slot of a rendezvous cell; see [`spec_fill_slot`].
    fn fill_slot(&mut self, cell: usize, idx: usize, p: Process, v: Val)
        ensures
            final(self)@ == spec_fill_slot(old(self)@, cell, idx, p, v),
    {
        let ghost c0 = self@;
        let ghost p0 = p;
        let ghost v0 = v;
        if cell >= self.cells.len() {
            return ;
        }
        let jc = self.take_cell(cell);
        let JoinCell { slots, next, pair } = jc;
        let slots2 = slot_set(slots, idx, Slot { p, v });
        let full = all_filled(&slots2);
        match next {
            Some(k) if full => {
                let fin = cell_finish(pair, slots2);
                self.set_cell(cell, JoinCell { slots: SlotList::Nil, next: None, pair });
                self.current.push(Task::Resume { next: k, rebuilt: fin.0, value: fin.1 });
                proof {
                    assert(self@ =~= spec_fill_slot(c0, cell, idx, p0, v0));
                }
            },
            other => {
                self.set_cell(cell, JoinCell { slots: slots2, next: other, pair });
                proof {
                    assert(self@ =~= spec_fill_slot(c0, cell, idx, p0, v0));
                }
            },
        }
    }

    /// Seeds the branches of a `multi_join` onto the current bank, in input
    /// order; see [`spec_seed`].
    fn seed_multi(&mut self, ps: ProcList, cell: usize, idx: usize)
        ensures
            final(self)@ == (CoreModel {
                current: spec_seed(old(self)@.current, ps, cell, idx),
                ..old(self)@
            }),
        decreases ps,
    {
        match ps {
            ProcList::Nil => {
                proof {
                    assert(self@ =~= (CoreModel {
                        current: spec_seed(old(self)@.current, ps, cell, idx),
                        ..old(self)@
                    }));
                }
            },
            ProcList::Cons(h, t) => {
                if idx == usize::MAX {
                    proof {
                        assert(self@ =~= (CoreModel {
                            current: spec_seed(
                                old(self)@.current,
                                ProcList::Cons(h, t),
                                cell,
                                idx,
                            ),
                            ..old(self)@
                        }));
                    }
                } else {
                    self.current.push(
                        Task::Call { process: *h, next: Continuation::ToSlot { cell, idx } },
                    );
                    self.seed_multi(*t, cell, idx + 1);
                }
            },
        }
    }

    /// Executes one task; see [`spec_run_task`].
    pub fn run_task(&mut self, t: Task)
        ensures
            final(self)@ == spec_run_task(old(self)@, t),
    {
        let ghost c0 = self@;
        let ghost t0 = t;
        match t {
            Task::Call { process, next } => match process {
                Process::Value(vl) => {
                    let copy = clone_val(&vl.val);
                    self.current.push(
                        Task::Resume {
                            next,
                            rebuilt: Process::Value(Value { val: copy }),
                            value: vl.val,
                        },
                    );
                },
                Process::Mapped(m) => {
                    self.current.push(
                        Task::Call {
                            process: *m.process,
                            next: Continuation::Mapped { func: m.func, next: Box::new(next) },
                        },
                    );
                },
                Process::Pause(p) => {
                    self.next_current.push(
                        Task::Call {
                            process: *p.process,
                            next: Continuation::AfterPause { next: Box::new(next) },
                        },
                    );
                },
                Process::Flatten(f) => {
                    self.current.push(
                        Task::Call {
                            process: *f.process,
                            next: Continuation::FlattenOuter { next: Box::new(next) },
                        },
                    );
                },
                Process::Then(t2) => {
                    self.current.push(
                        Task::Call {
                            process: *t2.p,
                            next: Continuation::ThenFirst { q: t2.q, next: Box::new(next) },
                        },
                    );
                },
                Process::Join(j) => {
                    let cell = self.cells.len();
                    self.cells.push(
                        JoinCell {
                            slots: SlotList::Cons(
                                None,
                                Box::new(SlotList::Cons(None, Box::new(SlotList::Nil))),
                            ),
                            next: Some(next),
                            pair: true,
                        },
                    );
                    self.current.push(
                        Task::Call { process: *j.p1, next: Continuation::ToSlot { cell, idx: 0 } },
                    );
                    self.current.push(
                        Task::Call { process: *j.p2, next: Continuation::ToSlot { cell, idx: 1 } },
                    );
                },
                Process::MultiJoin(m) => {
                    let cell = self.cells.len();
                    let slots = empty_slots(&m.processes);
                    self.cells.push(JoinCell { slots, next: Some(next), pair: false });
                    self.seed_multi(m.processes, cell, 0);
                },
                Process::While(w) => {
                    self.current.push(
                        Task::Call {
                            process: *w.process,
                            next: Continuation::InLoop { next: Box::new(next) },
                        },
                    );
                },
                Process::If(i) => {
                    self.current.push(
                        Task::Call {
                            process: *i.process_cond,
                            next: Continuation::IfCond {
                                p: i.process_if,
                                q: i.process_else,
                                next: Box::new(next),
                            },
                        },
                    );
                },
                Process::PAwaitImmediate(a) => {
                    self.ensure_sig(
                        a.signal.id,
                        a.signal.init_status,
                        &Val::Unit,
                        Gather::Sum,
                        SigKind::Pure,
                    );
                    let id = a.signal.id;
                    self.do_await_immediate(
                        id,
                        Waiter { next, rebuilt: Process::PAwaitImmediate(a) },
                    );
                },
                Process::PEmit(e) => {
                    self.ensure_sig(
                        e.signal.id,
                        e.signal.init_status,
                        &Val::Unit,
                        Gather::Sum,
                        SigKind::Pure,
                    );
                    let id = e.signal.id;
                    self.do_emit(id, Val::Unit);
                    self.current.push(
                        Task::Resume { next, rebuilt: Process::PEmit(e), value: Val::Unit },
                    );
                },
                Process::PPresent(q) => {
                    self.ensure_sig(
                        q.signal.id,
                        q.signal.init_status,
                        &Val::Unit,
                        Gather::Sum,
                        SigKind::Pure,
                    );
                    let id = q.signal.id;
                    self.do_present(id, Waiter { next, rebuilt: Process::PPresent(q) });
                },
                Process::VAwaitImmediate(a) => {
                    self.ensure_sig(
                        a.signal.id,
                        false,
                        &a.signal.default_value,
                        a.signal.gather,
                        SigKind::Gathered,
                    );
                    let id = a.signal.id;
                    self.do_await_immediate(
                        id,
                        Waiter { next, rebuilt: Process::VAwaitImmediate(a) },
                    );
                },
                Process::VAwait(a) => {
                    self.ensure_sig(
                        a.signal.id,
                        false,
                        &a.signal.default_value,
                        a.signal.gather,
                        SigKind::Gathered,
                    );
                    let id = a.signal.id;
                    self.do_await_value(id, Waiter { next, rebuilt: Process::VAwait(a) });
                },
                Process::VEmit(e) => {
                    self.current.push(
                        Task::Call {
                            process: *e.value,
                            next: Continuation::EmitGathered {
                                signal: e.signal,
                                next: Box::new(next),
                            },
                        },
                    );
                },
                Process::VPresent(q) => {
                    self.ensure_sig(
                        q.signal.id,
                        false,
                        &q.signal.default_value,
                        q.signal.gather,
                        SigKind::Gathered,
                    );
                    let id = q.signal.id;
                    self.do_present(id, Waiter { next, rebuilt: Process::VPresent(q) });
                },
                Process::UCAwaitImmediate(a) => {
                    self.ensure_sig(
                        a.signal.id,
                        false,
                        &a.signal.default_value,
                        a.signal.gather,
                        SigKind::UniqueConsumer,
                    );
                    let id = a.signal.id;
                    self.do_await_immediate(
                        id,
                        Waiter { next, rebuilt: Process::UCAwaitImmediate(a) },
                    );
                },
                Process::UCAwait(a) => {
                    self.ensure_sig(
                        a.signal.id,
                        false,
                        &a.signal.default_value,
                        a.signal.gather,
                        SigKind::UniqueConsumer,
                    );
                    let id = a.signal.id;
                    self.do_await_value(id, Waiter { next, rebuilt: Process::UCAwait(a) });
                },
                Process::UCEmit(e) => {
                    self.current.push(
                        Task::Call {
                            process: *e.value,
                            next: Continuation::EmitUc { signal: e.signal, next: Box::new(next) },
                        },
                    );
                },
                Process::UCPresent(q) => {
                    self.ensure_sig(
                        q.signal.id,
                        false,
                        &q.signal.default_value,
                        q.signal.gather,
                        SigKind::UniqueConsumer,
                    );
                    let id = q.signal.id;
                    self.do_present(id, Waiter { next, rebuilt: Process::UCPresent(q) });
                },
                Process::UPAwaitImmediate(a) => {
                    self.ensure_sig(
                        a.signal.id,
                        false,
                        &a.signal.default_value,
                        Gather::Sum,
                        SigKind::UniqueProducer,
                    );
                    let id = a.signal.id;
                    self.do_await_immediate(
                        id,
                        Waiter { next, rebuilt: Process::UPAwaitImmediate(a) },
                    );
                },
                Process::UPEmit(e) => {
                    self.current.push(
                        Task::Call {
                            process: *e.value,
                            next: Continuation::EmitUp { signal: e.signal, next: Box::new(next) },
                        },
                    );
                },
                Process::UPPresent(q) => {
                    self.ensure_sig(
                        q.signal.id,
                        false,
                        &q.signal.default_value,
                        Gather::Sum,
                        SigKind::UniqueProducer,
                    );
                    let id = q.signal.id;
                    self.do_present(id, Waiter { next, rebuilt: Process::UPPresent(q) });
                },
            },
            Task::Resume { next, rebuilt, value } => match next {
                Continuation::Store => {
                    self.result = Some(value);
                },
                Continuation::ToSlot { cell, idx } => {
                    self.fill_slot(cell, idx, rebuilt, value);
                },
                Continuation::Mapped { func, next } => {
                    let fv = fun_apply(func, value);
                    self.current.push(
                        Task::Resume {
                            next: *next,
                            rebuilt: Process::Mapped(
                                Mapped { process: Box::new(rebuilt), func: fv.0 },
                            ),
                            value: fv.1,
                        },
                    );
                },
                Continuation::Paused { next } => {
                    self.next_current.push(Task::Resume { next: *next, rebuilt, value });
                },
                Continuation::AfterPause { next } => {
                    self.current.push(
                        Task::Resume {
                            next: *next,
                            rebuilt: Process::Pause(Pause { process: Box::new(rebuilt) }),
                            value,
                        },
                    );
                },
                Continuation::ThenFirst { q, next } => {
                    self.current.push(
                        Task::Call {
                            process: *q,
                            next: Continuation::ThenSecond { p: Box::new(rebuilt), next },
                        },
                    );
                },
                Continuation::ThenSecond { p, next } => {
                    self.current.push(
                        Task::Resume {
                            next: *next,
                            rebuilt: Process::Then(Then { p, q: Box::new(rebuilt) }),
                            value,
                        },
                    );
                },
                Continuation::FlattenOuter { next } => match value {
                    Val::Prog(q) => {
                        self.current.push(
                            Task::Call {
                                process: *q,
                                next: Continuation::FlattenInner {
                                    outer: Box::new(rebuilt),
                                    next,
                                },
                            },
                        );
                    },
                    _ => {},
                },
                Continuation::FlattenInner { outer, next } => {
                    self.current.push(
                        Task::Resume {
                            next: *next,
                            rebuilt: Process::Flatten(Flatten { process: outer }),
                            value,
                        },
                    );
                },
                Continuation::InLoop { next } => match value {
                    Val::Status(st) => match *st {
                        crate::value::LoopStatus::Continue => {
                            self.current.push(
                                Task::Call {
                                    process: rebuilt,
                                    next: Continuation::InLoop { next },
                                },
                            );
                        },
                        crate::value::LoopStatus::Exit(v) => {
                            self.current.push(
                                Task::Resume {
                                    next: *next,
                                    rebuilt: Process::While(
                                        While { process: Box::new(rebuilt) },
                                    ),
                                    value: *v,
                                },
                            );
                        },
                    },
                    _ => {},
                },
                Continuation::IfCond { p, q, next } => match value {
                    Val::Bool(b) => if b {
                        self.current.push(
                            Task::Call {
                                process: *p,
                                next: Continuation::IfTrue { cond: Box::new(rebuilt), q, next },
                            },
                        );
                    } else {
                        self.current.push(
                            Task::Call {
                                process: *q,
                                next: Continuation::IfFalse { cond: Box::new(rebuilt), p, next },
                            },
                        );
                    },
                    _ => {},
                },
                Continuation::IfTrue { cond, q, next } => {
                    self.current.push(
                        Task::Resume {
                            next: *next,
                            rebuilt: Process::If(
                                If {
                                    process_if: Box::new(rebuilt),
                                    process_else: q,
                                    process_cond: cond,
                                },
                            ),
                            value,
                        },
                    );
                },
                Continuation::IfFalse { cond, p, next } => {
                    self.current.push(
                        Task::Resume {
                            next: *next,
                            rebuilt: Process::If(
                                If {
                                    process_if: p,
                                    process_else: Box::new(rebuilt),
                                    process_cond: cond,
                                },
                            ),
                            value,
                        },
                    );
                },
                Continuation::EmitGathered { signal, next } => {
                    self.ensure_sig(
                        signal.id,
                        false,
                        &signal.default_value,
                        signal.gather,
                        SigKind::Gathered,
                    );
                    let id = signal.id;
                    self.do_emit(id, value);
                    self.current.push(
                        Task::Resume {
                            next: *next,
                            rebuilt: Process::VEmit(
                                VEmit { signal, value: Box::new(rebuilt) },
                            ),
                            value: Val::Unit,
                        },
                    );
                },
                Continuation::EmitUc { signal, next } => {
                    self.ensure_sig(
                        signal.id,
                        false,
                        &signal.default_value,
                        signal.gather,
                        SigKind::UniqueConsumer,
                    );
                    let id = signal.id;
                    self.do_emit(id, value);
                    self.current.push(
                        Task::Resume {
                            next: *next,
                            rebuilt: Process::UCEmit(
                                UCEmit { signal, value: Box::new(rebuilt) },
                            ),
                            value: Val::Unit,
                        },
                    );
                },
                Continuation::EmitUp { signal, next } => {
                    self.ensure_sig(
                        signal.id,
                        false,
                        &signal.default_value,
                        Gather::Sum,
                        SigKind::UniqueProducer,
                    );
                    let id = signal.id;
                    self.do_emit(id, value);
                    self.current.push(
                        Task::Resume {
                            next: *next,
                            rebuilt: Process::UPEmit(
                                UPEmit { signal, value: Box::new(rebuilt) },
                            ),
                            value: Val::Unit,
                        },
                    );
                },
            },
            Task::EndEmit { id } => {
                self.do_end_emit(id);
            },
            Task::EndPresent { id } => {
                self.do_end_present(id);
            },
        }
        proof {
            reveal(spec_run_task);
            assert(self@ =~= spec_run_task(c0, t0));
        }
    }
}

} // verus!
