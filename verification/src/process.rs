//! Reactive processes and their combinators.
//!
//! A process is a description of a computation that, when executed, delivers
//! exactly one value to its continuation, possibly in a later instant. When
//! that value is delivered, the scheduler also hands back a rebuilt copy of
//! the process, which is how `while_loop` restarts its body.

use vstd::prelude::*;

verus! {

use crate::value::{Val, Fun, clone_val, clone_fun};
use crate::continuation::Continuation;
use crate::task::Task;
use crate::sequential_runtime::SequentialRuntime;
use crate::semantics::{boot, machine_run, machine_done, machine_halts, machine_outcome, lemma_outcome_unique};
use crate::parallel_runtime::{
    ParallelRuntime, par_boot, par_run, par_done, par_halts, par_outcome, lemma_par_outcome_unique,
};
use crate::signal::{
    PAwaitImmediate, PEmit, PPresent, VAwaitImmediate, VAwait, VEmit, VPresent, UCAwaitImmediate,
    UCAwait, UCEmit, UCPresent, UPAwaitImmediate, UPEmit, UPPresent, clone_v_ref, clone_uc_ref,
    clone_up_ref,
};

/// A process that immediately yields a fixed value.
#[derive(Debug, PartialEq, Eq)]
pub struct Value {
    pub val: Val,
}

/// A process that applies a mapping function to another process's value.
#[derive(Debug, PartialEq, Eq)]
pub struct Mapped {
    pub process: Box<Process>,
    pub func: Fun,
}

/// A process that runs its body one instant later.
#[derive(Debug, PartialEq, Eq)]
pub struct Pause {
    pub process: Box<Process>,
}

/// A process whose body yields a process, which then runs in turn; the
/// value of the whole is the inner value.
#[derive(Debug, PartialEq, Eq)]
pub struct Flatten {
    pub process: Box<Process>,
}

/// Runs `p` for its effects, discards its value, then runs `q`.
#[derive(Debug, PartialEq, Eq)]
pub struct Then {
    pub p: Box<Process>,
    pub q: Box<Process>,
}

/// Runs both branches within the cooperative model; yields the pair of
/// their values once both have arrived.
#[derive(Debug, PartialEq, Eq)]
pub struct Join {
    pub p1: Box<Process>,
    pub p2: Box<Process>,
}

/// A list of processes, the branches of a `multi_join`.
#[derive(Debug, PartialEq, Eq)]
pub enum ProcList {
    Nil,
    Cons(Box<Process>, Box<ProcList>),
}

/// The n-ary join: yields the list of branch values, aligned to input order.
#[derive(Debug, PartialEq, Eq)]
pub struct MultiJoin {
    pub processes: ProcList,
}

/// Reruns its body while it yields `Continue`; yields the value carried by
/// the first `Exit`.
#[derive(Debug, PartialEq, Eq)]
pub struct While {
    pub process: Box<Process>,
}

/// Runs the condition, then exactly one of the two branches.
#[derive(Debug, PartialEq, Eq)]
pub struct If {
    pub process_if: Box<Process>,
    pub process_else: Box<Process>,
    pub process_cond: Box<Process>,
}

/// A reactive process. Combinator nodes are ordinary data; executing them
/// is the scheduler's business.
#[derive(Debug, PartialEq, Eq)]
pub enum Process {
    Value(Value),
    Mapped(Mapped),
    Pause(Pause),
    Flatten(Flatten),
    Then(Then),
    Join(Join),
    MultiJoin(MultiJoin),
    While(While),
    If(If),
    PAwaitImmediate(PAwaitImmediate),
    PEmit(PEmit),
    PPresent(PPresent),
    VAwaitImmediate(VAwaitImmediate),
    VAwait(VAwait),
    VEmit(VEmit),
    VPresent(VPresent),
    UCAwaitImmediate(UCAwaitImmediate),
    UCAwait(UCAwait),
    UCEmit(UCEmit),
    UCPresent(UCPresent),
    UPAwaitImmediate(UPAwaitImmediate),
    UPEmit(UPEmit),
    UPPresent(UPPresent),
}

/// Executes a process graph to completion on a fresh sequential runtime,
/// within a budget of `fuel` machine steps.
///
/// When the run finishes within the budget, the returned value is exactly
/// the result of the specification machine's run: the value the graph's
/// root delivered, or `None` if the graph lost its continuation. When the
/// budget runs out first (in particular on a divergent graph), the call
/// returns `None`.
pub fn execute_process(p: Process, fuel: u64) -> (r: Option<Val>)
    ensures
        (exists|n: nat| n <= fuel && machine_done(machine_run(boot(p), n))) ==> {
            &&& machine_halts(boot(p))
            &&& r == machine_outcome(boot(p)).core.result
        },
        !(exists|n: nat| n <= fuel && machine_done(machine_run(boot(p), n))) ==> r == None::<Val>,
{
    let ghost p0 = p;
    let mut rt = SequentialRuntime::new();
    rt.on_current_instant(Task::Call { process: p, next: Continuation::Store });
    proof {
        assert(rt@.core.current =~= boot(p0).core.current);
        assert(rt@ =~~= boot(p0));
    }
    let completed = rt.execute(fuel);
    if completed {
        proof {
            let n = choose|n: nat| n <= fuel && rt@ == machine_run(boot(p0), n);
            assert(machine_done(machine_run(boot(p0), n)));
            lemma_outcome_unique(boot(p0), n);
        }
        rt.core.result
    } else {
        None
    }
}

/// Executes a process graph to completion on a fresh pool runtime of
/// twelve workers, within a budget of `fuel` machine steps.
///
/// The answer relates to the pool machine exactly as `execute_process`'s
/// relates to the sequential one.
pub fn execute_process_par(p: Process, fuel: u64) -> (r: Option<Val>)
    ensures
        (exists|n: nat| n <= fuel && par_done(par_run(par_boot(p), n))) ==> {
            &&& par_halts(par_boot(p))
            &&& r == par_outcome(par_boot(p)).core.result
        },
        !(exists|n: nat| n <= fuel && par_done(par_run(par_boot(p), n))) ==> r == None::<Val>,
{
    let ghost p0 = p;
    let mut rt = ParallelRuntime::new(12);
    rt.on_current_instant(Task::Call { process: p, next: Continuation::Store });
    proof {
        assert(rt@.core.current =~= par_boot(p0).core.current);
        assert(rt@ =~~= par_boot(p0));
    }
    let completed = rt.execute(fuel);
    if completed {
        proof {
            let n = choose|n: nat| n <= fuel && rt@ == par_run(par_boot(p0), n);
            assert(par_done(par_run(par_boot(p0), n)));
            lemma_par_outcome_unique(par_boot(p0), n);
        }
        rt.core.result
    } else {
        None
    }
}

/// The process that immediately yields `val`.
pub fn value(val: Val) -> (p: Process)
    ensures
        p == Process::Value((Value { val })),
{
    Process::Value(Value { val })
}

/// The two-way join of `p1` and `p2`.
pub fn join(p1: Process, p2: Process) -> (p: Process)
    ensures
        p == Process::Join((Join { p1: Box::new(p1), p2: Box::new(p2) })),
{
    Process::Join(Join { p1: Box::new(p1), p2: Box::new(p2) })
}

pub open spec fn spec_seq_to_proclist(s: Seq<Process>) -> ProcList
    decreases s.len(),
{
    if s.len() == 0 {
        ProcList::Nil
    } else {
        ProcList::Cons(Box::new(s[0]), Box::new(spec_seq_to_proclist(s.drop_first())))
    }
}

/// The n-ary join of `processes`; its value lists the branch values in
/// input order.
pub fn multi_join(processes: Vec<Process>) -> (p: Process)
    ensures
        p == Process::MultiJoin((MultiJoin { processes: spec_seq_to_proclist(processes@) })),
{
    let mut rest = processes;
    let mut out: ProcList = ProcList::Nil;
    proof {
        assert(processes@ =~= rest@ + proclist_to_seq(out));
    }
    while rest.len() > 0
        invariant
            processes@ == rest@ + proclist_to_seq(out),
        decreases rest@.len(),
    {
        let ghost old_rest: Seq<Process> = rest@;
        let q = rest.pop().unwrap();
        proof {
            assert(old_rest == rest@.push(q));
            assert(rest@.push(q) + proclist_to_seq(out) =~= rest@ + (seq![q] + proclist_to_seq(
                out,
            )));
        }
        out = ProcList::Cons(Box::new(q), Box::new(out));
    }
    proof {
        assert(proclist_to_seq(out) =~= processes@);
        lemma_seq_to_proclist_roundtrip(out);
    }
    Process::MultiJoin(MultiJoin { processes: out })
}

pub open spec fn proclist_to_seq(l: ProcList) -> Seq<Process>
    decreases l,
{
    match l {
        ProcList::Nil => Seq::empty(),
        ProcList::Cons(h, t) => seq![*h] + proclist_to_seq(*t),
    }
}

proof fn lemma_seq_to_proclist_roundtrip(l: ProcList)
    ensures
        spec_seq_to_proclist(proclist_to_seq(l)) == l,
    decreases l,
{
    match l {
        ProcList::Nil => {
            assert(proclist_to_seq(l).len() == 0);
        },
        ProcList::Cons(h, t) => {
            lemma_seq_to_proclist_roundtrip(*t);
            assert(proclist_to_seq(l)[0] == *h);
            assert(proclist_to_seq(l).drop_first() =~= proclist_to_seq(*t));
        },
    }
}

/// Runs `r` for a boolean, then `p` on `true` and `q` on `false`.
pub fn if_else(r: Process, p: Process, q: Process) -> (out: Process)
    ensures
        out == Process::If((If {
            process_if: Box::new(p),
            process_else: Box::new(q),
            process_cond: Box::new(r),
        })),
{
    Process::If(If { process_if: Box::new(p), process_else: Box::new(q), process_cond: Box::new(r) })
}

impl Process {
    /// Applies `func` to this process's value.
    pub fn map(self, func: Fun) -> (p: Process)
        ensures
            p == Process::Mapped((Mapped { process: Box::new(self), func })),
    {
        Process::Mapped(Mapped { process: Box::new(self), func })
    }

    /// Defers this process by one instant.
    pub fn pause(self) -> (p: Process)
        ensures
            p == Process::Pause((Pause { process: Box::new(self) })),
    {
        Process::Pause(Pause { process: Box::new(self) })
    }

    /// Runs this process, then the process it yields; the value of the
    /// whole is the inner one's.
    pub fn flatten(self) -> (p: Process)
        ensures
            p == Process::Flatten((Flatten { process: Box::new(self) })),
    {
        Process::Flatten(Flatten { process: Box::new(self) })
    }

    /// Maps this process's value to a process, then runs it: `map`
    /// followed by `flatten`.
    pub fn and_then(self, func: Fun) -> (p: Process)
        ensures
            p == Process::Flatten((Flatten {
                process: Box::new(Process::Mapped((Mapped { process: Box::new(self), func }))),
            })),
    {
        self.map(func).flatten()
    }

    /// Runs this process for its effects, discards its value, then runs `q`.
    pub fn then_with(self, q: Process) -> (p: Process)
        ensures
            p == Process::Then((Then { p: Box::new(self), q: Box::new(q) })),
    {
        Process::Then(Then { p: Box::new(self), q: Box::new(q) })
    }

    /// The two-way join of this process and `q`.
    pub fn join_with(self, q: Process) -> (p: Process)
        ensures
            p == Process::Join((Join { p1: Box::new(self), p2: Box::new(q) })),
    {
        Process::Join(Join { p1: Box::new(self), p2: Box::new(q) })
    }

    /// Reruns this process while it yields `Continue`; stops with the value
    /// carried by the first `Exit`.
    pub fn while_loop(self) -> (p: Process)
        ensures
            p == Process::While((While { process: Box::new(self) })),
    {
        Process::While(While { process: Box::new(self) })
    }
}

/// A clone of a process that Verus knows to be equal to the original.
pub fn clone_process(p: &Process) -> (r: Process)
    ensures
        r == *p,
    decreases p,
{
    match p {
        Process::Value(v) => Process::Value(Value { val: clone_val(&v.val) }),
        Process::Mapped(m) => Process::Mapped(
            Mapped { process: Box::new(clone_process(&m.process)), func: clone_fun(&m.func) },
        ),
        Process::Pause(q) => Process::Pause(Pause { process: Box::new(clone_process(&q.process)) }),
        Process::Flatten(q) => Process::Flatten(
            Flatten { process: Box::new(clone_process(&q.process)) },
        ),
        Process::Then(t) => Process::Then(
            Then { p: Box::new(clone_process(&t.p)), q: Box::new(clone_process(&t.q)) },
        ),
        Process::Join(j) => Process::Join(
            Join { p1: Box::new(clone_process(&j.p1)), p2: Box::new(clone_process(&j.p2)) },
        ),
        Process::MultiJoin(m) => Process::MultiJoin(
            MultiJoin { processes: clone_proclist(&m.processes) },
        ),
        Process::While(w) => Process::While(While { process: Box::new(clone_process(&w.process)) }),
        Process::If(i) => Process::If(
            If {
                process_if: Box::new(clone_process(&i.process_if)),
                process_else: Box::new(clone_process(&i.process_else)),
                process_cond: Box::new(clone_process(&i.process_cond)),
            },
        ),
        Process::PAwaitImmediate(a) => Process::PAwaitImmediate(PAwaitImmediate { signal: a.signal }),
        Process::PEmit(e) => Process::PEmit(PEmit { signal: e.signal }),
        Process::PPresent(q) => Process::PPresent(PPresent { signal: q.signal }),
        Process::VAwaitImmediate(a) => Process::VAwaitImmediate(
            VAwaitImmediate { signal: clone_v_ref(&a.signal) },
        ),
        Process::VAwait(a) => Process::VAwait(VAwait { signal: clone_v_ref(&a.signal) }),
        Process::VEmit(e) => Process::VEmit(
            VEmit { signal: clone_v_ref(&e.signal), value: Box::new(clone_process(&e.value)) },
        ),
        Process::VPresent(q) => Process::VPresent(VPresent { signal: clone_v_ref(&q.signal) }),
        Process::UCAwaitImmediate(a) => Process::UCAwaitImmediate(
            UCAwaitImmediate { signal: clone_uc_ref(&a.signal) },
        ),
        Process::UCAwait(a) => Process::UCAwait(UCAwait { signal: clone_uc_ref(&a.signal) }),
        Process::UCEmit(e) => Process::UCEmit(
            UCEmit { signal: clone_uc_ref(&e.signal), value: Box::new(clone_process(&e.value)) },
        ),
        Process::UCPresent(q) => Process::UCPresent(UCPresent { signal: clone_uc_ref(&q.signal) }),
        Process::UPAwaitImmediate(a) => Process::UPAwaitImmediate(
            UPAwaitImmediate { signal: clone_up_ref(&a.signal) },
        ),
        Process::UPEmit(e) => Process::UPEmit(
            UPEmit { signal: clone_up_ref(&e.signal), value: Box::new(clone_process(&e.value)) },
        ),
        Process::UPPresent(q) => Process::UPPresent(UPPresent { signal: clone_up_ref(&q.signal) }),
    }
}

pub fn clone_proclist(l: &ProcList) -> (r: ProcList)
    ensures
        r == *l,
    decreases l,
{
    match l {
        ProcList::Nil => ProcList::Nil,
        ProcList::Cons(h, t) => ProcList::Cons(
            Box::new(clone_process(h)),
            Box::new(clone_proclist(t)),
        ),
    }
}

} // verus!
