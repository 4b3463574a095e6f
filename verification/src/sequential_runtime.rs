//! The single-worker scheduler.
//!
//! An instant drains the current bank, swaps in the banks registered for
//! the next instant, then drains the end-of-instant bank. Every public
//! operation is proved to implement [`machine_step`] runs of the
//! specification machine exactly; the only liberty an execution takes is a
//! caller-supplied step budget, since a process graph may describe an
//! unbounded computation.

use vstd::prelude::*;

verus! {

use crate::value::{Val, clone_val};
use crate::task::{Task, Core};
use crate::semantics::{
    CoreModel, RunState, machine_step, machine_run, machine_done, machine_halts, machine_outcome,
    inc_sat,
};

/// The sequential runtime: the executing core plus the instant bookkeeping.
#[derive(Debug)]
pub struct SequentialRuntime {
    pub core: Core,
    /// False while the current bank drains; true while the end-of-instant
    /// bank drains.
    pub closing: bool,
    /// True exactly when the last step taken was an instant wrap.
    pub rested: bool,
    /// How many instants have completed.
    pub instants: u64,
}

impl View for SequentialRuntime {
    type V = RunState;

    open spec fn view(&self) -> RunState {
        RunState {
            core: self.core@,
            closing: self.closing,
            rested: self.rested,
            instants: self.instants,
        }
    }
}

impl SequentialRuntime {
    /// A fresh runtime with empty banks, at the start of its first instant.
    pub fn new() -> (rt: SequentialRuntime)
        ensures
            rt@ == (RunState {
                core: CoreModel {
                    current: Seq::<Task>::empty(),
                    end: Seq::<Task>::empty(),
                    next_current: Seq::<Task>::empty(),
                    next_end: Seq::<Task>::empty(),
                    signals: Seq::empty(),
                    cells: Seq::empty(),
                    result: None::<Val>,
                    fault: false,
                },
                closing: false,
                rested: false,
                instants: 0,
            }),
    {
        let rt = SequentialRuntime { core: Core::new(), closing: false, rested: false, instants: 0 };
        proof {
            assert(rt@ =~= (RunState {
                core: CoreModel {
                    current: Seq::<Task>::empty(),
                    end: Seq::<Task>::empty(),
                    next_current: Seq::<Task>::empty(),
                    next_end: Seq::<Task>::empty(),
                    signals: Seq::empty(),
                    cells: Seq::empty(),
                    result: None::<Val>,
                    fault: false,
                },
                closing: false,
                rested: false,
                instants: 0,
            }));
        }
        rt
    }

    /// Registers a task to run within the current instant.
    pub fn on_current_instant(&mut self, t: Task)
        ensures
            final(self)@ == (RunState {
                core: CoreModel {
                    current: old(self)@.core.current.push(t),
                    ..old(self)@.core
                },
                ..old(self)@
            }),
    {
        self.core.current.push(t);
        proof {
            assert(self@ =~= (RunState {
                core: CoreModel {
                    current: old(self)@.core.current.push(t),
                    ..old(self)@.core
                },
                ..old(self)@
            }));
        }
    }

    /// Registers a task to run from the next instant on.
    pub fn on_next_instant(&mut self, t: Task)
        ensures
            final(self)@ == (RunState {
                core: CoreModel {
                    next_current: old(self)@.core.next_current.push(t),
                    ..old(self)@.core
                },
                ..old(self)@
            }),
    {
        self.core.next_current.push(t);
        proof {
            assert(self@ =~= (RunState {
                core: CoreModel {
                    next_current: old(self)@.core.next_current.push(t),
                    ..old(self)@.core
                },
                ..old(self)@
            }));
        }
    }

    /// Registers a task to run once the current bank has drained.
    pub fn on_end_of_instant(&mut self, t: Task)
        ensures
            final(self)@ == (RunState {
                core: CoreModel { end: old(self)@.core.end.push(t), ..old(self)@.core },
                ..old(self)@
            }),
    {
        self.core.end.push(t);
        proof {
            assert(self@ =~= (RunState {
                core: CoreModel { end: old(self)@.core.end.push(t), ..old(self)@.core },
                ..old(self)@
            }));
        }
    }

    /// Whether the run is finished: the instant just wrapped and nothing is
    /// pending.
    pub fn is_done(&self) -> (b: bool)
        ensures
            b == machine_done(self@),
    {
        !self.closing && self.rested && self.core.current.len() == 0
            && self.core.end.len() == 0 && self.core.next_end.len() == 0
    }

    /// One step of the specification machine.
    pub fn step_once(&mut self)
        ensures
            final(self)@ == machine_step(old(self)@),
    {
        let ghost s0 = self@;
        if self.is_done() {
            return ;
        }
        if !self.closing {
            match self.core.current.pop() {
                Some(t) => {
                    self.rested = false;
                    proof {
                        assert(self@.core =~= (CoreModel {
                            current: s0.core.current.drop_last(),
                            ..s0.core
                        }));
                    }
                    self.core.run_task(t);
                    proof {
                        assert(self@ =~= machine_step(s0));
                    }
                },
                None => {
                    core::mem::swap(&mut self.core.current, &mut self.core.next_current);
                    core::mem::swap(&mut self.core.end, &mut self.core.next_end);
                    self.closing = true;
                    self.rested = false;
                    proof {
                        assert(self@ =~= machine_step(s0));
                    }
                },
            }
        } else {
            match self.core.next_end.pop() {
                Some(t) => {
                    self.rested = false;
                    proof {
                        assert(self@.core =~= (CoreModel {
                            next_end: s0.core.next_end.drop_last(),
                            ..s0.core
                        }));
                    }
                    self.core.run_task(t);
                    proof {
                        assert(self@ =~= machine_step(s0));
                    }
                },
                None => {
                    self.closing = false;
                    self.rested = true;
                    self.instants = if self.instants < u64::MAX {
                        self.instants + 1
                    } else {
                        self.instants
                    };
                    proof {
                        assert(self@ =~= machine_step(s0));
                    }
                },
            }
        }
    }

    /// Runs one whole instant, within a step budget.
    ///
    /// `Some(more)` says the instant completed and whether work remains;
    /// `Some(false)` on an already finished runtime. `None` says the budget
    /// ran out mid-instant, after exactly `fuel` machine steps.
    pub fn instant(&mut self, fuel: u64) -> (r: Option<bool>)
        ensures
            exists|n: nat|
                n <= fuel && final(self)@ == machine_run(old(self)@, n),
            machine_done(old(self)@) ==> final(self)@ == old(self)@ && r == Some(false),
            (!machine_done(old(self)@) && r is Some) ==> {
                &&& !final(self)@.closing
                &&& final(self)@.instants == inc_sat(old(self)@.instants)
                &&& r == Some(
                    final(self)@.core.current.len() > 0 || final(self)@.core.end.len() > 0
                        || final(self)@.core.next_end.len() > 0,
                )
            },
            r is None ==> final(self)@ == machine_run(old(self)@, fuel as nat),
    {
        let ghost s0 = self@;
        if self.is_done() {
            proof {
                assert(self@ == machine_run(s0, 0));
            }
            return Some(false);
        }
        let start_instants = self.instants;
        let mut used: u64 = 0;
        while used < fuel
            invariant
                old(self)@ == s0,
                !machine_done(s0),
                used <= fuel,
                self@ == machine_run(s0, used as nat),
                self@.instants == s0.instants,
                start_instants == s0.instants,
            decreases fuel - used,
        {
            let ghost before = self@;
            self.step_once();
            used = used + 1;
            proof {
                assert(machine_run(s0, used as nat) == machine_step(
                    machine_run(s0, (used - 1) as nat),
                ));
            }
            if self.instants != start_instants {
                let more = self.core.current.len() > 0 || self.core.end.len() > 0
                    || self.core.next_end.len() > 0;
                proof {
                    assert(!self@.closing && self@.instants == inc_sat(s0.instants));
                }
                return Some(more);
            }
        }
        None
    }

    /// Steps the machine until the run finishes or the budget runs out.
    /// True exactly when a finished state was reached.
    pub fn execute(&mut self, fuel: u64) -> (completed: bool)
        ensures
            exists|n: nat|
                n <= fuel && final(self)@ == machine_run(old(self)@, n),
            completed ==> machine_done(final(self)@),
            !completed ==> forall|m: nat|
                m <= fuel ==> !machine_done(machine_run(old(self)@, m)),
            !completed ==> final(self)@ == machine_run(old(self)@, fuel as nat),
    {
        let ghost s0 = self@;
        let mut used: u64 = 0;
        while used < fuel
            invariant
                old(self)@ == s0,
                used <= fuel,
                self@ == machine_run(s0, used as nat),
                forall|m: nat| m < used as nat ==> !machine_done(machine_run(s0, m)),
            decreases fuel - used,
        {
            if self.is_done() {
                return true;
            }
            self.step_once();
            used = used + 1;
            proof {
                assert(machine_run(s0, used as nat) == machine_step(
                    machine_run(s0, (used - 1) as nat),
                ));
            }
        }
        if self.is_done() {
            return true;
        }
        false
    }

    /// A copy of the result delivered so far, if any.
    pub fn result_value(&self) -> (r: Option<Val>)
        ensures
            r == self@.core.result,
    {
        match &self.core.result {
            None => None,
            Some(v) => Some(clone_val(v)),
        }
    }

    /// Whether a contract violation was detected during the run.
    pub fn faulted(&self) -> (b: bool)
        ensures
            b == self@.core.fault,
    {
        self.core.fault
    }

    /// How many instants have completed.
    pub fn instants_elapsed(&self) -> (n: u64)
        ensures
            n == self@.instants,
    {
        self.instants
    }
}

} // verus!
