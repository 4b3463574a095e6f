//! The worker-pool scheduler.
//!
//! The pool form shares one ready queue (`todo`) among its workers and
//! separates the phases of an instant with barriers: no end-of-instant hook
//! runs before the current phase has fully drained, and tasks registered
//! for the next instant are promoted only after the hooks have run. Here
//! the pool is driven cooperatively — the workers take turns on the shared
//! queue rather than racing on threads, which is what makes every one of
//! its steps provable — so the barriers are exact and the order of tasks
//! within a phase stays implementation-defined, as the model demands.

use vstd::prelude::*;

verus! {

use crate::value::{Val, clone_val};
use crate::task::{Task, Core};
use crate::continuation::Continuation;
use crate::process::Process;
use crate::semantics::{CoreModel, spec_run_task, inc_sat};

/// Which stage of an instant the pool stands in.
#[derive(Debug, Clone, Copy, PartialEq, Eq, Structural)]
pub enum ParPhase {
    /// Draining the current bank through the shared queue.
    Active,
    /// Moving the end-of-instant hooks onto the shared queue.
    Flushing,
    /// Draining the hooks (and what they spawn) through the shared queue.
    Ending,
    /// Moving the tasks registered for the next instant into place.
    Promoting,
}

/// The mathematical image of the pool scheduler.
#[verifier::ext_equal]
pub struct ParState {
    pub core: CoreModel,
    /// The shared ready queue the workers draw from.
    pub todo: Seq<Task>,
    pub phase: ParPhase,
    /// True exactly when the last step taken was an instant wrap.
    pub rested: bool,
    pub instants: u64,
}

/// Nothing is left to do: the instant just wrapped and nothing is pending.
pub open spec fn par_done(s: ParState) -> bool {
    &&& s.phase is Active
    &&& s.rested
    &&& s.todo.len() == 0
    &&& s.core.current.len() == 0
    &&& s.core.end.len() == 0
}

/// One step of the pool machine: move one task between banks, run one task
/// from the shared queue, or cross a phase barrier.
pub open spec fn par_step(s: ParState) -> ParState {
    if par_done(s) {
        s
    } else {
        match s.phase {
            ParPhase::Active => if s.core.current.len() > 0 {
                ParState {
                    core: CoreModel { current: s.core.current.drop_last(), ..s.core },
                    todo: s.todo.push(s.core.current.last()),
                    rested: false,
                    ..s
                }
            } else if s.todo.len() > 0 {
                ParState {
                    core: spec_run_task(s.core, s.todo.last()),
                    todo: s.todo.drop_last(),
                    rested: false,
                    ..s
                }
            } else {
                ParState { phase: ParPhase::Flushing, rested: false, ..s }
            },
            ParPhase::Flushing => if s.core.end.len() > 0 {
                ParState {
                    core: CoreModel { end: s.core.end.drop_last(), ..s.core },
                    todo: s.todo.push(s.core.end.last()),
                    ..s
                }
            } else {
                ParState { phase: ParPhase::Ending, ..s }
            },
            ParPhase::Ending => if s.core.next_end.len() > 0 {
                ParState {
                    core: CoreModel { next_end: s.core.next_end.drop_last(), ..s.core },
                    todo: s.todo.push(s.core.next_end.last()),
                    ..s
                }
            } else if s.todo.len() > 0 {
                ParState {
                    core: spec_run_task(s.core, s.todo.last()),
                    todo: s.todo.drop_last(),
                    ..s
                }
            } else {
                ParState { phase: ParPhase::Promoting, ..s }
            },
            ParPhase::Promoting => if s.core.next_current.len() > 0 {
                ParState {
                    core: CoreModel {
                        current: s.core.current.push(s.core.next_current.last()),
                        next_current: s.core.next_current.drop_last(),
                        ..s.core
                    },
                    ..s
                }
            } else {
                ParState {
                    phase: ParPhase::Active,
                    rested: true,
                    instants: inc_sat(s.instants),
                    ..s
                }
            },
        }
    }
}

/// The pool machine after `n` steps.
pub open spec fn par_run(s: ParState, n: nat) -> ParState
    decreases n,
{
    if n == 0 {
        s
    } else {
        par_step(par_run(s, (n - 1) as nat))
    }
}

/// Some number of steps finishes the run.
pub open spec fn par_halts(s: ParState) -> bool {
    exists|n: nat| par_done(par_run(s, n))
}

/// The finished state a halting run reaches.
pub open spec fn par_outcome(s: ParState) -> ParState {
    par_run(s, choose|n: nat| par_done(par_run(s, n)))
}

/// The state an execution of process `p` starts the pool machine from.
pub open spec fn par_boot(p: Process) -> ParState {
    ParState {
        core: CoreModel {
            current: seq![Task::Call { process: p, next: Continuation::Store }],
            end: Seq::empty(),
            next_current: Seq::empty(),
            next_end: Seq::empty(),
            signals: Seq::empty(),
            cells: Seq::empty(),
            result: None,
            fault: false,
        },
        todo: Seq::empty(),
        phase: ParPhase::Active,
        rested: false,
        instants: 0,
    }
}

/// A finished state stays put, however many more steps run.
pub proof fn lemma_par_done_stable(s: ParState, n: nat)
    requires
        par_done(s),
    ensures
        par_run(s, n) == s,
    decreases n,
{
    if n > 0 {
        lemma_par_done_stable(s, (n - 1) as nat);
    }
}

/// Splitting a pool run.
pub proof fn lemma_par_run_add(s: ParState, m: nat, k: nat)
    ensures
        par_run(s, m + k) == par_run(par_run(s, m), k),
    decreases k,
{
    if k > 0 {
        lemma_par_run_add(s, m, (k - 1) as nat);
    }
}

/// All finished states of one pool run are the same state.
pub proof fn lemma_par_outcome_unique(s: ParState, n: nat)
    requires
        par_done(par_run(s, n)),
    ensures
        par_outcome(s) == par_run(s, n),
{
    let m = choose|m: nat| par_done(par_run(s, m));
    assert(par_done(par_run(s, m)));
    if m <= n {
        lemma_par_run_add(s, m, (n - m) as nat);
        lemma_par_done_stable(par_run(s, m), (n - m) as nat);
    } else {
        lemma_par_run_add(s, n, (m - n) as nat);
        lemma_par_done_stable(par_run(s, n), (m - n) as nat);
    }
}

/// The shared ready queue of the pool, with its outstanding-work counter.
#[derive(Debug)]
pub struct TodoQueue {
    pub queue: Vec<Task>,
    /// Tasks enqueued or still being run: the phase barrier waits for this
    /// to reach zero.
    pub count: usize,
}

impl TodoQueue {
    pub fn new() -> (q: TodoQueue)
        ensures
            q.queue@ == Seq::<Task>::empty(),
            q.count == 0,
    {
        TodoQueue { queue: Vec::new(), count: 0 }
    }

    /// Enqueues a task, counting it as outstanding.
    pub fn push(&mut self, t: Task)
        requires
            old(self).count == old(self).queue@.len(),
        ensures
            final(self).queue@ == old(self).queue@.push(t),
            final(self).count == final(self).queue@.len(),
    {
        self.queue.push(t);
        self.count = self.queue.len();
    }

    /// Takes one task off the queue; it stays counted as outstanding until
    /// `done` is called for it.
    pub fn pop(&mut self) -> (t: Option<Task>)
        ensures
            old(self).queue@.len() == 0 ==> t == None::<Task>
                && final(self).queue@ == old(self).queue@,
            old(self).queue@.len() > 0 ==> t == Some(old(self).queue@.last())
                && final(self).queue@ == old(self).queue@.drop_last(),
            final(self).count == old(self).count,
    {
        self.queue.pop()
    }

    /// Marks one popped task as finished.
    pub fn done(&mut self)
        requires
            old(self).count > 0,
        ensures
            final(self).count == old(self).count - 1,
            final(self).queue@ == old(self).queue@,
    {
        self.count = self.count - 1;
    }

    /// Whether work is still outstanding.
    pub fn is_active(&self) -> (b: bool)
        ensures
            b == (self.count > 0),
    {
        self.count > 0
    }
}

/// The pool runtime: the executing core, the shared ready queue, and the
/// phase bookkeeping. `worker_count` records the pool's configured width;
/// the cooperative driver lets the workers take turns, so it does not
/// change what a run computes.
#[derive(Debug)]
pub struct ParallelRuntime {
    pub core: Core,
    pub todo: TodoQueue,
    pub phase: ParPhase,
    pub rested: bool,
    pub instants: u64,
    pub worker_count: usize,
}

impl View for ParallelRuntime {
    type V = ParState;

    open spec fn view(&self) -> ParState {
        ParState {
            core: self.core@,
            todo: self.todo.queue@,
            phase: self.phase,
            rested: self.rested,
            instants: self.instants,
        }
    }
}

impl ParallelRuntime {
    /// The counter of the shared queue agrees with its contents.
    pub open spec fn wf(&self) -> bool {
        self.todo.count == self.todo.queue@.len()
    }

    /// A fresh pool of the given width, with empty banks.
    pub fn new(worker_count: usize) -> (rt: ParallelRuntime)
        ensures
            rt.wf(),
            rt@ == (ParState {
                core: CoreModel {
                    current: Seq::<Task>::empty(),
                    end: Seq::<Task>::empty(),
                    next_current: Seq::<Task>::empty(),
                    next_end: Seq::<Task>::empty(),
                    signals: Seq::empty(),
                    cells: Seq::empty(),
                    result: None::<Val>,
                    fault: false,
                },
                todo: Seq::<Task>::empty(),
                phase: ParPhase::Active,
                rested: false,
                instants: 0,
            }),
    {
        let rt = ParallelRuntime {
            core: Core::new(),
            todo: TodoQueue::new(),
            phase: ParPhase::Active,
            rested: false,
            instants: 0,
            worker_count,
        };
        proof {
            assert(rt@ =~~= (ParState {
                core: CoreModel {
                    current: Seq::<Task>::empty(),
                    end: Seq::<Task>::empty(),
                    next_current: Seq::<Task>::empty(),
                    next_end: Seq::<Task>::empty(),
                    signals: Seq::empty(),
                    cells: Seq::empty(),
                    result: None::<Val>,
                    fault: false,
                },
                todo: Seq::<Task>::empty(),
                phase: ParPhase::Active,
                rested: false,
                instants: 0,
            }));
        }
        rt
    }

    /// Registers a task to run within the current instant.
    pub fn on_current_instant(&mut self, t: Task)
        ensures
            final(self).wf() == old(self).wf(),
            final(self)@ == (ParState {
                core: CoreModel {
                    current: old(self)@.core.current.push(t),
                    ..old(self)@.core
                },
                ..old(self)@
            }),
    {
        self.core.current.push(t);
        proof {
            assert(self@ =~= (ParState {
                core: CoreModel {
                    current: old(self)@.core.current.push(t),
                    ..old(self)@.core
                },
                ..old(self)@
            }));
        }
    }

    /// Registers a task to run from the next instant on.
    pub fn on_next_instant(&mut self, t: Task)
        ensures
            final(self).wf() == old(self).wf(),
            final(self)@ == (ParState {
                core: CoreModel {
                    next_current: old(self)@.core.next_current.push(t),
                    ..old(self)@.core
                },
                ..old(self)@
            }),
    {
        self.core.next_current.push(t);
        proof {
            assert(self@ =~= (ParState {
                core: CoreModel {
                    next_current: old(self)@.core.next_current.push(t),
                    ..old(self)@.core
                },
                ..old(self)@
            }));
        }
    }

    /// Registers a task to run once the current phase has drained.
    pub fn on_end_of_instant(&mut self, t: Task)
        ensures
            final(self).wf() == old(self).wf(),
            final(self)@ == (ParState {
                core: CoreModel { end: old(self)@.core.end.push(t), ..old(self)@.core },
                ..old(self)@
            }),
    {
        self.core.end.push(t);
        proof {
            assert(self@ =~= (ParState {
                core: CoreModel { end: old(self)@.core.end.push(t), ..old(self)@.core },
                ..old(self)@
            }));
        }
    }

    /// Whether the run is finished.
    pub fn is_done(&self) -> (b: bool)
        ensures
            b == par_done(self@),
    {
        let in_active = match self.phase {
            ParPhase::Active => true,
            _ => false,
        };
        in_active && self.rested && self.todo.queue.len() == 0 && self.core.current.len() == 0
            && self.core.end.len() == 0
    }

    /// One step of the pool machine.
    pub fn step_once(&mut self)
        requires
            old(self).wf(),
        ensures
            final(self).wf(),
            final(self)@ == par_step(old(self)@),
    {
        let ghost s0 = self@;
        if self.is_done() {
            return ;
        }
        match self.phase {
            ParPhase::Active => {
                match self.core.current.pop() {
                    Some(t) => {
                        self.todo.push(t);
                        self.rested = false;
                        proof {
                            assert(self@ =~= par_step(s0));
                        }
                    },
                    None => {
                        match self.todo.pop() {
                            Some(t) => {
                                self.core.run_task(t);
                                self.todo.done();
                                self.rested = false;
                                proof {
                                    assert(self@ =~= par_step(s0));
                                }
                            },
                            None => {
                                self.phase = ParPhase::Flushing;
                                self.rested = false;
                                proof {
                                    assert(self@ =~= par_step(s0));
                                }
                            },
                        }
                    },
                }
            },
            ParPhase::Flushing => {
                match self.core.end.pop() {
                    Some(t) => {
                        self.todo.push(t);
                        proof {
                            assert(self@ =~= par_step(s0));
                        }
                    },
                    None => {
                        self.phase = ParPhase::Ending;
                        proof {
                            assert(self@ =~= par_step(s0));
                        }
                    },
                }
            },
            ParPhase::Ending => {
                match self.core.next_end.pop() {
                    Some(t) => {
                        self.todo.push(t);
                        proof {
                            assert(self@ =~= par_step(s0));
                        }
                    },
                    None => {
                        match self.todo.pop() {
                            Some(t) => {
                                self.core.run_task(t);
                                self.todo.done();
                                proof {
                                    assert(self@ =~= par_step(s0));
                                }
                            },
                            None => {
                                self.phase = ParPhase::Promoting;
                                proof {
                                    assert(self@ =~= par_step(s0));
                                }
                            },
                        }
                    },
                }
            },
            ParPhase::Promoting => {
                match self.core.next_current.pop() {
                    Some(t) => {
                        self.core.current.push(t);
                        proof {
                            assert(self@ =~= par_step(s0));
                        }
                    },
                    None => {
                        self.phase = ParPhase::Active;
                        self.rested = true;
                        self.instants = if self.instants < u64::MAX {
                            self.instants + 1
                        } else {
                            self.instants
                        };
                        proof {
                            assert(self@ =~= par_step(s0));
                        }
                    },
                }
            },
        }
    }

    /// Runs one whole instant, within a step budget; see the sequential
    /// scheduler's `instant` for the shape of the answer.
    pub fn instant(&mut self, fuel: u64) -> (r: Option<bool>)
        requires
            old(self).wf(),
        ensures
            final(self).wf(),
            exists|n: nat|
                n <= fuel && final(self)@ == par_run(old(self)@, n),
            par_done(old(self)@) ==> final(self)@ == old(self)@ && r == Some(false),
            (!par_done(old(self)@) && r is Some) ==> {
                &&& final(self)@.instants == inc_sat(old(self)@.instants)
                &&& r == Some(
                    final(self)@.core.current.len() > 0 || final(self)@.core.end.len() > 0,
                )
            },
            r is None ==> final(self)@ == par_run(old(self)@, fuel as nat),
    {
        let ghost s0 = self@;
        if self.is_done() {
            proof {
                assert(self@ == par_run(s0, 0));
            }
            return Some(false);
        }
        let start_instants = self.instants;
        let mut used: u64 = 0;
        while used < fuel
            invariant
                old(self)@ == s0,
                !par_done(s0),
                self.wf(),
                used <= fuel,
                self@ == par_run(s0, used as nat),
                self@.instants == s0.instants,
                start_instants == s0.instants,
            decreases fuel - used,
        {
            self.step_once();
            used = used + 1;
            proof {
                assert(par_run(s0, used as nat) == par_step(par_run(s0, (used - 1) as nat)));
            }
            if self.instants != start_instants {
                let more = self.core.current.len() > 0 || self.core.end.len() > 0;
                proof {
                    assert(self@.instants == inc_sat(s0.instants));
                }
                return Some(more);
            }
        }
        None
    }

    /// Steps the pool machine until the run finishes or the budget runs
    /// out. True exactly when a finished state was reached.
    pub fn execute(&mut self, fuel: u64) -> (completed: bool)
        requires
            old(self).wf(),
        ensures
            final(self).wf(),
            exists|n: nat|
                n <= fuel && final(self)@ == par_run(old(self)@, n),
            completed ==> par_done(final(self)@),
            !completed ==> forall|m: nat| m <= fuel ==> !par_done(par_run(old(self)@, m)),
            !completed ==> final(self)@ == par_run(old(self)@, fuel as nat),
    {
        let ghost s0 = self@;
        let mut used: u64 = 0;
        while used < fuel
            invariant
                old(self)@ == s0,
                self.wf(),
                used <= fuel,
                self@ == par_run(s0, used as nat),
                forall|m: nat| m < used as nat ==> !par_done(par_run(s0, m)),
            decreases fuel - used,
        {
            if self.is_done() {
                return true;
            }
            self.step_once();
            used = used + 1;
            proof {
                assert(par_run(s0, used as nat) == par_step(par_run(s0, (used - 1) as nat)));
            }
        }
        if self.is_done() {
            return true;
        }
        false
    }

    /// A copy of the result delivered so far, if any.
    pub fn result_value(&self) -> (r: Option<Val>)
        ensures
            r == self@.core.result,
    {
        match &self.core.result {
            None => None,
            Some(v) => Some(clone_val(v)),
        }
    }
}

} // verus!
