//! The laws of the runtime, proved against the specification machine.
//!
//! Each law speaks of `boot(p)`, the machine state `execute_process` is
//! proved to run, so together with `execute_process`'s contract it is a
//! statement about what the executable scheduler returns.

use vstd::prelude::*;

verus! {

use crate::value::{Val, Fun, LoopStatus, Gather, spec_fun_apply, spec_gather_apply};
use crate::continuation::Continuation;
use crate::signal::{
    SignalRuntime, SigKind, Waiter, WaiterList, PSignalRuntimeRef, PPresent, PEmit,
    VSignalRuntimeRef, VEmit, VAwait,
};
use crate::process::{Process, Value, Mapped, Pause, While, Join, Then};
use crate::task::{Task, Slot, SlotList, JoinCell};
use crate::semantics::{
    CoreModel, RunState, machine_step, machine_run, machine_done, machine_halts, machine_outcome,
    boot, spec_run_task, lemma_outcome_unique, lemma_run_add, lemma_done_stable,
};

/// A core with nothing pending and nothing recorded.
pub open spec fn empty_core() -> CoreModel {
    CoreModel {
        current: Seq::empty(),
        end: Seq::empty(),
        next_current: Seq::empty(),
        next_end: Seq::empty(),
        signals: Seq::empty(),
        cells: Seq::empty(),
        result: None,
        fault: false,
    }
}

/// Executing `value(v)` delivers exactly `v`, within one instant.
pub proof fn law_value_yields(v: Val)
    ensures
        machine_halts(boot(Process::Value((Value { val: v })))),
        machine_outcome(boot(Process::Value((Value { val: v })))).core.result == Some(v),
        machine_outcome(boot(Process::Value((Value { val: v })))).instants == 1,
        machine_done(machine_run(boot(Process::Value((Value { val: v }))), 4)),
{
    let p = Process::Value(Value { val: v });
    let s0 = boot(p);
    let s1 = RunState {
        core: CoreModel {
            current: seq![
                Task::Resume { next: Continuation::Store, rebuilt: p, value: v },
            ],
            ..empty_core()
        },
        closing: false,
        rested: false,
        instants: 0,
    };
    assert(machine_step(s0) =~~= s1) by {
        reveal(spec_run_task);
    }
    let s2 = RunState {
        core: CoreModel { result: Some(v), ..empty_core() },
        closing: false,
        rested: false,
        instants: 0,
    };
    assert(machine_step(s1) =~~= s2) by {
        reveal(spec_run_task);
    }
    let s3 = RunState { core: s2.core, closing: true, rested: false, instants: 0 };
    assert(machine_step(s2) =~~= s3);
    let s4 = RunState { core: s2.core, closing: false, rested: true, instants: 1 };
    assert(machine_step(s3) =~~= s4);
    assert(machine_run(s0, 0) == s0);
    assert(machine_run(s0, 1) == machine_step(s0));
    assert(machine_run(s0, 2) == machine_step(machine_run(s0, 1)));
    assert(machine_run(s0, 3) == machine_step(machine_run(s0, 2)));
    assert(machine_run(s0, 4) == machine_step(machine_run(s0, 3)));
    assert(machine_run(s0, 4) == s4);
    assert(machine_done(s4));
    assert(machine_halts(s0));
    lemma_outcome_unique(s0, 4);
}

/// Executing `value(v).pause().map(f)` delivers exactly `f(v)`, and takes
/// exactly two instants: the pause moves the delivery past one instant
/// boundary.
pub proof fn law_pause_map(v: Val, f: Fun)
    ensures
        machine_halts(
            boot(
                Process::Mapped(
                    (Mapped {
                        process: Box::new(
                            Process::Pause(
                                (Pause {
                                    process: Box::new(Process::Value((Value { val: v }))),
                                }),
                            ),
                        ),
                        func: f,
                    }),
                ),
            ),
        ),
        machine_outcome(
            boot(
                Process::Mapped(
                    (Mapped {
                        process: Box::new(
                            Process::Pause(
                                (Pause {
                                    process: Box::new(Process::Value((Value { val: v }))),
                                }),
                            ),
                        ),
                        func: f,
                    }),
                ),
            ),
        ).core.result == Some(spec_fun_apply(f, v).1),
        machine_outcome(
            boot(
                Process::Mapped(
                    (Mapped {
                        process: Box::new(
                            Process::Pause(
                                (Pause {
                                    process: Box::new(Process::Value((Value { val: v }))),
                                }),
                            ),
                        ),
                        func: f,
                    }),
                ),
            ),
        ).instants == 2,
        machine_done(
            machine_run(
                boot(
                    Process::Mapped(
                        (Mapped {
                            process: Box::new(
                                Process::Pause(
                                    (Pause {
                                        process: Box::new(Process::Value((Value { val: v }))),
                                    }),
                                ),
                            ),
                            func: f,
                        }),
                    ),
                ),
                10,
            ),
        ),
{
    let inner = Process::Value(Value { val: v });
    let paused = Process::Pause(Pause { process: Box::new(inner) });
    let p = Process::Mapped(Mapped { process: Box::new(paused), func: f });
    let s0 = boot(p);
    let k1 = Continuation::Mapped { func: f, next: Box::new(Continuation::Store) };
    let s1 = RunState {
        core: CoreModel {
            current: seq![Task::Call { process: paused, next: k1 }],
            ..empty_core()
        },
        closing: false,
        rested: false,
        instants: 0,
    };
    assert(machine_step(s0) =~~= s1) by {
        reveal(spec_run_task);
    }
    let k2 = Continuation::AfterPause { next: Box::new(k1) };
    let s2 = RunState {
        core: CoreModel {
            next_current: seq![Task::Call { process: inner, next: k2 }],
            ..empty_core()
        },
        closing: false,
        rested: false,
        instants: 0,
    };
    assert(machine_step(s1) =~~= s2) by {
        reveal(spec_run_task);
    }
    let s3 = RunState {
        core: CoreModel {
            current: seq![Task::Call { process: inner, next: k2 }],
            ..empty_core()
        },
        closing: true,
        rested: false,
        instants: 0,
    };
    assert(machine_step(s2) =~~= s3);
    let s4 = RunState { core: s3.core, closing: false, rested: true, instants: 1 };
    assert(machine_step(s3) =~~= s4);
    let s5 = RunState {
        core: CoreModel {
            current: seq![Task::Resume { next: k2, rebuilt: inner, value: v }],
            ..empty_core()
        },
        closing: false,
        rested: false,
        instants: 1,
    };
    assert(machine_step(s4) =~~= s5) by {
        reveal(spec_run_task);
    }
    let s6 = RunState {
        core: CoreModel {
            current: seq![Task::Resume { next: k1, rebuilt: paused, value: v }],
            ..empty_core()
        },
        closing: false,
        rested: false,
        instants: 1,
    };
    assert(machine_step(s5) =~~= s6) by {
        reveal(spec_run_task);
    }
    let f2 = spec_fun_apply(f, v).0;
    let v2 = spec_fun_apply(f, v).1;
    let rebuilt = Process::Mapped(Mapped { process: Box::new(paused), func: f2 });
    let s7 = RunState {
        core: CoreModel {
            current: seq![
                Task::Resume { next: Continuation::Store, rebuilt, value: v2 },
            ],
            ..empty_core()
        },
        closing: false,
        rested: false,
        instants: 1,
    };
    assert(machine_step(s6) =~~= s7) by {
        reveal(spec_run_task);
    }
    let s8 = RunState {
        core: CoreModel { result: Some(v2), ..empty_core() },
        closing: false,
        rested: false,
        instants: 1,
    };
    assert(machine_step(s7) =~~= s8) by {
        reveal(spec_run_task);
    }
    let s9 = RunState { core: s8.core, closing: true, rested: false, instants: 1 };
    assert(machine_step(s8) =~~= s9);
    let s10 = RunState { core: s8.core, closing: false, rested: true, instants: 2 };
    assert(machine_step(s9) =~~= s10);
    assert(machine_run(s0, 0) == s0);
    assert(machine_run(s0, 1) == machine_step(s0));
    assert(machine_run(s0, 2) == machine_step(machine_run(s0, 1)));
    assert(machine_run(s0, 3) == machine_step(machine_run(s0, 2)));
    assert(machine_run(s0, 4) == machine_step(machine_run(s0, 3)));
    assert(machine_run(s0, 5) == machine_step(machine_run(s0, 4)));
    assert(machine_run(s0, 6) == machine_step(machine_run(s0, 5)));
    assert(machine_run(s0, 7) == machine_step(machine_run(s0, 6)));
    assert(machine_run(s0, 8) == machine_step(machine_run(s0, 7)));
    assert(machine_run(s0, 9) == machine_step(machine_run(s0, 8)));
    assert(machine_run(s0, 10) == machine_step(machine_run(s0, 9)));
    assert(machine_run(s0, 10) == s10);
    assert(machine_done(s10));
    assert(machine_halts(s0));
    lemma_outcome_unique(s0, 10);
}

/// Executing `join(value(a), value(b))` delivers exactly the pair `(a, b)`.
pub proof fn law_join_values(a: Val, b: Val)
    ensures
        machine_halts(
            boot(
                Process::Join(
                    (Join {
                        p1: Box::new(Process::Value((Value { val: a }))),
                        p2: Box::new(Process::Value((Value { val: b }))),
                    }),
                ),
            ),
        ),
        machine_outcome(
            boot(
                Process::Join(
                    (Join {
                        p1: Box::new(Process::Value((Value { val: a }))),
                        p2: Box::new(Process::Value((Value { val: b }))),
                    }),
                ),
            ),
        ).core.result == Some(Val::Pair(Box::new(a), Box::new(b))),
        machine_done(
            machine_run(
                boot(
                    Process::Join(
                        (Join {
                            p1: Box::new(Process::Value((Value { val: a }))),
                            p2: Box::new(Process::Value((Value { val: b }))),
                        }),
                    ),
                ),
                8,
            ),
        ),
{
    let pa = Process::Value(Value { val: a });
    let pb = Process::Value(Value { val: b });
    let p = Process::Join(Join { p1: Box::new(pa), p2: Box::new(pb) });
    let s0 = boot(p);
    let slots0 = SlotList::Cons(None, Box::new(SlotList::Cons(None, Box::new(SlotList::Nil))));
    let cell0 = JoinCell { slots: slots0, next: Some(Continuation::Store), pair: true };
    let ka = Continuation::ToSlot { cell: 0, idx: 0 };
    let kb = Continuation::ToSlot { cell: 0, idx: 1 };
    let s1 = RunState {
        core: CoreModel {
            current: seq![
                Task::Call { process: pa, next: ka },
                Task::Call { process: pb, next: kb },
            ],
            cells: seq![cell0],
            ..empty_core()
        },
        closing: false,
        rested: false,
        instants: 0,
    };
    assert(machine_step(s0) =~~= s1) by {
        reveal(spec_run_task);
    }
    let s2 = RunState {
        core: CoreModel {
            current: seq![
                Task::Call { process: pa, next: ka },
                Task::Resume { next: kb, rebuilt: pb, value: b },
            ],
            cells: seq![cell0],
            ..empty_core()
        },
        closing: false,
        rested: false,
        instants: 0,
    };
    assert(machine_step(s1) =~~= s2) by {
        reveal(spec_run_task);
    }
    let slots1 = SlotList::Cons(
        None,
        Box::new(SlotList::Cons(Some(Slot { p: pb, v: b }), Box::new(SlotList::Nil))),
    );
    let cell1 = JoinCell { slots: slots1, next: Some(Continuation::Store), pair: true };
    let s3 = RunState {
        core: CoreModel {
            current: seq![Task::Call { process: pa, next: ka }],
            cells: seq![cell1],
            ..empty_core()
        },
        closing: false,
        rested: false,
        instants: 0,
    };
    assert(machine_step(s2) =~~= s3) by {
        reveal(spec_run_task);
        reveal_with_fuel(crate::semantics::spec_slot_set, 3);
        reveal_with_fuel(crate::semantics::spec_all_filled, 3);
    }
    let s4 = RunState {
        core: CoreModel {
            current: seq![Task::Resume { next: ka, rebuilt: pa, value: a }],
            cells: seq![cell1],
            ..empty_core()
        },
        closing: false,
        rested: false,
        instants: 0,
    };
    assert(machine_step(s3) =~~= s4) by {
        reveal(spec_run_task);
    }
    let joined = Process::Join(Join { p1: Box::new(pa), p2: Box::new(pb) });
    let s5 = RunState {
        core: CoreModel {
            current: seq![
                Task::Resume {
                    next: Continuation::Store,
                    rebuilt: joined,
                    value: Val::Pair(Box::new(a), Box::new(b)),
                },
            ],
            cells: seq![(JoinCell { slots: SlotList::Nil, next: None, pair: true })],
            ..empty_core()
        },
        closing: false,
        rested: false,
        instants: 0,
    };
    assert(machine_step(s4) =~~= s5) by {
        reveal(spec_run_task);
        reveal_with_fuel(crate::semantics::spec_slot_set, 3);
        reveal_with_fuel(crate::semantics::spec_all_filled, 3);
    }
    let s6 = RunState {
        core: CoreModel {
            result: Some(Val::Pair(Box::new(a), Box::new(b))),
            cells: seq![(JoinCell { slots: SlotList::Nil, next: None, pair: true })],
            ..empty_core()
        },
        closing: false,
        rested: false,
        instants: 0,
    };
    assert(machine_step(s5) =~~= s6) by {
        reveal(spec_run_task);
    }
    let s7 = RunState { core: s6.core, closing: true, rested: false, instants: 0 };
    assert(machine_step(s6) =~~= s7);
    let s8 = RunState { core: s6.core, closing: false, rested: true, instants: 1 };
    assert(machine_step(s7) =~~= s8);
    assert(machine_run(s0, 0) == s0);
    assert(machine_run(s0, 1) == machine_step(s0));
    assert(machine_run(s0, 2) == machine_step(machine_run(s0, 1)));
    assert(machine_run(s0, 3) == machine_step(machine_run(s0, 2)));
    assert(machine_run(s0, 4) == machine_step(machine_run(s0, 3)));
    assert(machine_run(s0, 5) == machine_step(machine_run(s0, 4)));
    assert(machine_run(s0, 6) == machine_step(machine_run(s0, 5)));
    assert(machine_run(s0, 7) == machine_step(machine_run(s0, 6)));
    assert(machine_run(s0, 8) == machine_step(machine_run(s0, 7)));
    assert(machine_run(s0, 8) == s8);
    assert(machine_done(s8));
    assert(machine_halts(s0));
    lemma_outcome_unique(s0, 8);
}

/// The mapping function as it stands after `k` iterations of a loop body
/// that feeds it `Unit`.
pub open spec fn fun_iter(f: Fun, k: nat) -> Fun
    decreases k,
{
    if k == 0 {
        f
    } else {
        spec_fun_apply(fun_iter(f, (k - 1) as nat), Val::Unit).0
    }
}

/// What the mapping function yields on its `k`-th application to `Unit`.
pub open spec fn fun_out(f: Fun, k: nat) -> Val {
    spec_fun_apply(fun_iter(f, k), Val::Unit).1
}

/// The canonical loop: `value(Unit).map(f).while_loop()`.
pub open spec fn unit_loop(f: Fun) -> Process {
    Process::While(
        While {
            process: Box::new(
                Process::Mapped(
                    Mapped { process: Box::new(Process::Value(Value { val: Val::Unit })), func: f },
                ),
            ),
        },
    )
}

/// The loop body about to run with the mapping function in state `g`.
pub open spec fn loop_state(g: Fun) -> RunState {
    RunState {
        core: CoreModel {
            current: seq![
                Task::Call {
                    process: Process::Mapped(
                        Mapped {
                            process: Box::new(Process::Value(Value { val: Val::Unit })),
                            func: g,
                        },
                    ),
                    next: Continuation::InLoop { next: Box::new(Continuation::Store) },
                },
            ],
            ..empty_core()
        },
        closing: false,
        rested: false,
        instants: 0,
    }
}

/// One `Continue` iteration of the canonical loop takes four machine steps
/// and leaves the loop with the successor mapping function.
proof fn lemma_loop_iter(g: Fun)
    requires
        spec_fun_apply(g, Val::Unit).1 == Val::Status(Box::new(LoopStatus::Continue)),
    ensures
        machine_run(loop_state(g), 4) == loop_state(spec_fun_apply(g, Val::Unit).0),
{
    let s0 = loop_state(g);
    let vu = Process::Value(Value { val: Val::Unit });
    let kin = Continuation::InLoop { next: Box::new(Continuation::Store) };
    let body = Process::Mapped(Mapped { process: Box::new(vu), func: g });
    let km = Continuation::Mapped { func: g, next: Box::new(kin) };
    let s1 = RunState {
        core: CoreModel { current: seq![Task::Call { process: vu, next: km }], ..empty_core() },
        closing: false,
        rested: false,
        instants: 0,
    };
    assert(machine_step(s0) =~~= s1) by {
        reveal(spec_run_task);
    }
    let s2 = RunState {
        core: CoreModel {
            current: seq![Task::Resume { next: km, rebuilt: vu, value: Val::Unit }],
            ..empty_core()
        },
        closing: false,
        rested: false,
        instants: 0,
    };
    assert(machine_step(s1) =~~= s2) by {
        reveal(spec_run_task);
    }
    let g2 = spec_fun_apply(g, Val::Unit).0;
    let body2 = Process::Mapped(Mapped { process: Box::new(vu), func: g2 });
    let s3 = RunState {
        core: CoreModel {
            current: seq![
                Task::Resume {
                    next: kin,
                    rebuilt: body2,
                    value: Val::Status(Box::new(LoopStatus::Continue)),
                },
            ],
            ..empty_core()
        },
        closing: false,
        rested: false,
        instants: 0,
    };
    assert(machine_step(s2) =~~= s3) by {
        reveal(spec_run_task);
    }
    let s4 = RunState {
        core: CoreModel {
            current: seq![Task::Call { process: body2, next: kin }],
            ..empty_core()
        },
        closing: false,
        rested: false,
        instants: 0,
    };
    assert(machine_step(s3) =~~= s4) by {
        reveal(spec_run_task);
    }
    assert(machine_run(s0, 0) == s0);
    assert(machine_run(s0, 1) == machine_step(s0));
    assert(machine_run(s0, 2) == machine_step(machine_run(s0, 1)));
    assert(machine_run(s0, 3) == machine_step(machine_run(s0, 2)));
    assert(machine_run(s0, 4) == machine_step(machine_run(s0, 3)));
    assert(machine_run(s0, 4) =~~= loop_state(g2));
}

/// After `j` `Continue` iterations the canonical loop stands at the
/// `j`-times-advanced mapping function.
proof fn lemma_loop_reaches(f: Fun, j: nat)
    requires
        forall|i: nat|
            i < j ==> fun_out(f, i) == Val::Status(Box::new(LoopStatus::Continue)),
    ensures
        machine_run(boot(unit_loop(f)), 1 + 4 * j) == loop_state(fun_iter(f, j)),
    decreases j,
{
    let s0 = boot(unit_loop(f));
    if j == 0 {
        assert(machine_step(s0) =~~= loop_state(f)) by {
            reveal(spec_run_task);
        }
        assert(machine_run(s0, 0) == s0);
        assert(machine_run(s0, 1) == machine_step(s0));
    } else {
        lemma_loop_reaches(f, (j - 1) as nat);
        assert(fun_out(f, (j - 1) as nat) == Val::Status(Box::new(LoopStatus::Continue)));
        lemma_loop_iter(fun_iter(f, (j - 1) as nat));
        lemma_run_add(s0, 1 + 4 * (j - 1) as nat, 4);
        assert(1 + 4 * (j - 1) as nat + 4 == 1 + 4 * j);
        assert(spec_fun_apply(fun_iter(f, (j - 1) as nat), Val::Unit).0 == fun_iter(f, j));
    }
}

/// A `while_loop` whose body answers `Continue` `n` times and then
/// `Exit(v)` delivers exactly `v`, within the first instant.
pub proof fn law_while_exits(f: Fun, n: nat, v: Val)
    requires
        forall|i: nat|
            i < n ==> fun_out(f, i) == Val::Status(Box::new(LoopStatus::Continue)),
        fun_out(f, n) == Val::Status(Box::new(LoopStatus::Exit(Box::new(v)))),
    ensures
        machine_halts(boot(unit_loop(f))),
        machine_outcome(boot(unit_loop(f))).core.result == Some(v),
        machine_outcome(boot(unit_loop(f))).instants == 1,
        machine_done(machine_run(boot(unit_loop(f)), 1 + 4 * n + 7)),
{
    let s0 = boot(unit_loop(f));
    lemma_loop_reaches(f, n);
    let g = fun_iter(f, n);
    let sl = loop_state(g);
    let vu = Process::Value(Value { val: Val::Unit });
    let kin = Continuation::InLoop { next: Box::new(Continuation::Store) };
    let km = Continuation::Mapped { func: g, next: Box::new(kin) };
    let t1 = RunState {
        core: CoreModel { current: seq![Task::Call { process: vu, next: km }], ..empty_core() },
        closing: false,
        rested: false,
        instants: 0,
    };
    assert(machine_step(sl) =~~= t1) by {
        reveal(spec_run_task);
    }
    let t2 = RunState {
        core: CoreModel {
            current: seq![Task::Resume { next: km, rebuilt: vu, value: Val::Unit }],
            ..empty_core()
        },
        closing: false,
        rested: false,
        instants: 0,
    };
    assert(machine_step(t1) =~~= t2) by {
        reveal(spec_run_task);
    }
    let g2 = spec_fun_apply(g, Val::Unit).0;
    let body2 = Process::Mapped(Mapped { process: Box::new(vu), func: g2 });
    let t3 = RunState {
        core: CoreModel {
            current: seq![
                Task::Resume {
                    next: kin,
                    rebuilt: body2,
                    value: Val::Status(Box::new(LoopStatus::Exit(Box::new(v)))),
                },
            ],
            ..empty_core()
        },
        closing: false,
        rested: false,
        instants: 0,
    };
    assert(machine_step(t2) =~~= t3) by {
        reveal(spec_run_task);
    }
    let t4 = RunState {
        core: CoreModel {
            current: seq![
                Task::Resume {
                    next: Continuation::Store,
                    rebuilt: Process::While(While { process: Box::new(body2) }),
                    value: v,
                },
            ],
            ..empty_core()
        },
        closing: false,
        rested: false,
        instants: 0,
    };
    assert(machine_step(t3) =~~= t4) by {
        reveal(spec_run_task);
    }
    let t5 = RunState {
        core: CoreModel { result: Some(v), ..empty_core() },
        closing: false,
        rested: false,
        instants: 0,
    };
    assert(machine_step(t4) =~~= t5) by {
        reveal(spec_run_task);
    }
    let t6 = RunState { core: t5.core, closing: true, rested: false, instants: 0 };
    assert(machine_step(t5) =~~= t6);
    let t7 = RunState { core: t5.core, closing: false, rested: true, instants: 1 };
    assert(machine_step(t6) =~~= t7);
    assert(machine_run(sl, 0) == sl);
    assert(machine_run(sl, 1) == machine_step(sl));
    assert(machine_run(sl, 2) == machine_step(machine_run(sl, 1)));
    assert(machine_run(sl, 3) == machine_step(machine_run(sl, 2)));
    assert(machine_run(sl, 4) == machine_step(machine_run(sl, 3)));
    assert(machine_run(sl, 5) == machine_step(machine_run(sl, 4)));
    assert(machine_run(sl, 6) == machine_step(machine_run(sl, 5)));
    assert(machine_run(sl, 7) == machine_step(machine_run(sl, 6)));
    assert(machine_run(sl, 7) == t7);
    lemma_run_add(s0, 1 + 4 * n, 7);
    assert(machine_run(s0, 1 + 4 * n + 7) == t7);
    assert(machine_done(t7));
    assert(machine_done(machine_run(s0, 1 + 4 * n + 7)));
    assert(machine_halts(s0));
    lemma_outcome_unique(s0, 1 + 4 * n + 7);
}

/// A pure signal's state cell with the given presence status and nobody
/// waiting.
pub open spec fn quiet_pure_sig(status: bool) -> SignalRuntime {
    SignalRuntime {
        status,
        callbacks: WaiterList::Nil,
        waiting_present: WaiterList::Nil,
        waiting_await: WaiterList::Nil,
        current_value: Val::Unit,
        default_value: Val::Unit,
        gather: Gather::Sum,
        kind: SigKind::Pure,
    }
}

/// `present()` resolves to `true` when the same signal is emitted later
/// within the same instant.
#[verifier::rlimit(80)]
pub proof fn law_present_then_emit(id: usize)
    ensures
        machine_halts(
            boot(
                Process::Join(
                    (Join {
                        p1: Box::new(
                            Process::PPresent(
                                (PPresent {
                                    signal: PSignalRuntimeRef { id, init_status: false },
                                }),
                            ),
                        ),
                        p2: Box::new(
                            Process::PEmit(
                                (PEmit { signal: PSignalRuntimeRef { id, init_status: false } }),
                            ),
                        ),
                    }),
                ),
            ),
        ),
        machine_outcome(
            boot(
                Process::Join(
                    (Join {
                        p1: Box::new(
                            Process::PPresent(
                                (PPresent {
                                    signal: PSignalRuntimeRef { id, init_status: false },
                                }),
                            ),
                        ),
                        p2: Box::new(
                            Process::PEmit(
                                (PEmit { signal: PSignalRuntimeRef { id, init_status: false } }),
                            ),
                        ),
                    }),
                ),
            ),
        ).core.result == Some(Val::Pair(Box::new(Val::Bool(true)), Box::new(Val::Unit))),
        machine_done(
            machine_run(
                boot(
                    Process::Join(
                        (Join {
                            p1: Box::new(
                                Process::PPresent(
                                    (PPresent {
                                        signal: PSignalRuntimeRef { id, init_status: false },
                                    }),
                                ),
                            ),
                            p2: Box::new(
                                Process::PEmit(
                                    (PEmit {
                                        signal: PSignalRuntimeRef { id, init_status: false },
                                    }),
                                ),
                            ),
                        }),
                    ),
                ),
                9,
            ),
        ),
{
    let h = PSignalRuntimeRef { id, init_status: false };
    let prs = Process::PPresent(PPresent { signal: h });
    let ems = Process::PEmit(PEmit { signal: h });
    let sig_absent = quiet_pure_sig(false);
    let sig_present = quiet_pure_sig(true);
    let sigs0 = Seq::new((id + 1) as nat, |i: int| None::<SignalRuntime>);
    let sigs_absent = sigs0.update(id as int, Some(sig_absent));
    let sigs_present = sigs0.update(id as int, Some(sig_present));
    let k0 = Continuation::ToSlot { cell: 0, idx: 0 };
    let k1 = Continuation::ToSlot { cell: 0, idx: 1 };
    let fresh_slots = SlotList::Cons(None, Box::new(SlotList::Cons(None, Box::new(SlotList::Nil))));
    let dead_cell = JoinCell { slots: SlotList::Nil, next: None, pair: true };
    // First order: the present test stands before the emission.
    {
        let p = Process::Join(Join { p1: Box::new(prs), p2: Box::new(ems) });
        let s0 = boot(p);
        let s1 = RunState {
            core: CoreModel {
                current: seq![
                    Task::Call { process: prs, next: k0 },
                    Task::Call { process: ems, next: k1 },
                ],
                cells: seq![
                    (JoinCell { slots: fresh_slots, next: Some(Continuation::Store), pair: true }),
                ],
                ..empty_core()
            },
            closing: false,
            rested: false,
            instants: 0,
        };
        assert(machine_step(s0) =~~= s1) by {
            reveal(spec_run_task);
        }
        let s2 = RunState {
            core: CoreModel {
                current: seq![
                    Task::Call { process: prs, next: k0 },
                    Task::Resume { next: k1, rebuilt: ems, value: Val::Unit },
                ],
                end: seq![Task::EndEmit { id }],
                signals: sigs_present,
                cells: s1.core.cells,
                ..empty_core()
            },
            closing: false,
            rested: false,
            instants: 0,
        };
        assert(machine_step(s1) =~~= s2) by {
            reveal(spec_run_task);
        }
        let filled1 = SlotList::Cons(
            None,
            Box::new(
                SlotList::Cons(Some(Slot { p: ems, v: Val::Unit }), Box::new(SlotList::Nil)),
            ),
        );
        let s3 = RunState {
            core: CoreModel {
                current: seq![Task::Call { process: prs, next: k0 }],
                end: seq![Task::EndEmit { id }],
                signals: sigs_present,
                cells: seq![
                    (JoinCell { slots: filled1, next: Some(Continuation::Store), pair: true }),
                ],
                ..empty_core()
            },
            closing: false,
            rested: false,
            instants: 0,
        };
        assert(machine_step(s2) =~~= s3) by {
            reveal(spec_run_task);
            reveal_with_fuel(crate::semantics::spec_slot_set, 3);
            reveal_with_fuel(crate::semantics::spec_all_filled, 3);
        }
        let s4 = RunState {
            core: CoreModel {
                current: seq![Task::Resume { next: k0, rebuilt: prs, value: Val::Bool(true) }],
                end: seq![Task::EndEmit { id }],
                signals: sigs_present,
                cells: s3.core.cells,
                ..empty_core()
            },
            closing: false,
            rested: false,
            instants: 0,
        };
        assert(machine_step(s3) =~~= s4) by {
            reveal(spec_run_task);
        }
        let pairv = Val::Pair(Box::new(Val::Bool(true)), Box::new(Val::Unit));
        let s5 = RunState {
            core: CoreModel {
                current: seq![
                    Task::Resume {
                        next: Continuation::Store,
                        rebuilt: Process::Join(
                            (Join { p1: Box::new(prs), p2: Box::new(ems) }),
                        ),
                        value: pairv,
                    },
                ],
                end: seq![Task::EndEmit { id }],
                signals: sigs_present,
                cells: seq![dead_cell],
                ..empty_core()
            },
            closing: false,
            rested: false,
            instants: 0,
        };
        assert(machine_step(s4) =~~= s5) by {
            reveal(spec_run_task);
            reveal_with_fuel(crate::semantics::spec_slot_set, 3);
            reveal_with_fuel(crate::semantics::spec_all_filled, 3);
        }
        let s6 = RunState {
            core: CoreModel {
                result: Some(pairv),
                end: seq![Task::EndEmit { id }],
                signals: sigs_present,
                cells: seq![dead_cell],
                ..empty_core()
            },
            closing: false,
            rested: false,
            instants: 0,
        };
        assert(machine_step(s5) =~~= s6) by {
            reveal(spec_run_task);
        }
        let s7 = RunState {
            core: CoreModel {
                result: Some(pairv),
                next_end: seq![Task::EndEmit { id }],
                signals: sigs_present,
                cells: seq![dead_cell],
                ..empty_core()
            },
            closing: true,
            rested: false,
            instants: 0,
        };
        assert(machine_step(s6) =~~= s7);
        let s8 = RunState {
            core: CoreModel {
                result: Some(pairv),
                signals: sigs_absent,
                cells: seq![dead_cell],
                ..empty_core()
            },
            closing: true,
            rested: false,
            instants: 0,
        };
        assert(machine_step(s7) =~~= s8) by {
            reveal(spec_run_task);
        }
        let s9 = RunState { core: s8.core, closing: false, rested: true, instants: 1 };
        assert(machine_step(s8) =~~= s9);
        assert(machine_run(s0, 0) == s0);
        assert(machine_run(s0, 1) == machine_step(s0));
        assert(machine_run(s0, 2) == machine_step(machine_run(s0, 1)));
        assert(machine_run(s0, 3) == machine_step(machine_run(s0, 2)));
        assert(machine_run(s0, 4) == machine_step(machine_run(s0, 3)));
        assert(machine_run(s0, 5) == machine_step(machine_run(s0, 4)));
        assert(machine_run(s0, 6) == machine_step(machine_run(s0, 5)));
        assert(machine_run(s0, 7) == machine_step(machine_run(s0, 6)));
        assert(machine_run(s0, 8) == machine_step(machine_run(s0, 7)));
        assert(machine_run(s0, 9) == machine_step(machine_run(s0, 8)));
        assert(machine_run(s0, 9) == s9);
        assert(machine_done(s9));
        assert(machine_halts(s0));
        lemma_outcome_unique(s0, 9);
    }
}

/// `present()` resolves to `true` when the same signal was emitted
/// earlier within the same instant.
#[verifier::rlimit(80)]
pub proof fn law_emit_then_present(id: usize)
    ensures
        machine_halts(
            boot(
                Process::Join(
                    (Join {
                        p1: Box::new(
                            Process::PEmit(
                                (PEmit { signal: PSignalRuntimeRef { id, init_status: false } }),
                            ),
                        ),
                        p2: Box::new(
                            Process::PPresent(
                                (PPresent {
                                    signal: PSignalRuntimeRef { id, init_status: false },
                                }),
                            ),
                        ),
                    }),
                ),
            ),
        ),
        machine_outcome(
            boot(
                Process::Join(
                    (Join {
                        p1: Box::new(
                            Process::PEmit(
                                (PEmit { signal: PSignalRuntimeRef { id, init_status: false } }),
                            ),
                        ),
                        p2: Box::new(
                            Process::PPresent(
                                (PPresent {
                                    signal: PSignalRuntimeRef { id, init_status: false },
                                }),
                            ),
                        ),
                    }),
                ),
            ),
        ).core.result == Some(Val::Pair(Box::new(Val::Unit), Box::new(Val::Bool(true)))),
        machine_done(
            machine_run(
                boot(
                    Process::Join(
                        (Join {
                            p1: Box::new(
                                Process::PEmit(
                                    (PEmit {
                                        signal: PSignalRuntimeRef { id, init_status: false },
                                    }),
                                ),
                            ),
                            p2: Box::new(
                                Process::PPresent(
                                    (PPresent {
                                        signal: PSignalRuntimeRef { id, init_status: false },
                                    }),
                                ),
                            ),
                        }),
                    ),
                ),
                10,
            ),
        ),
{
    let h = PSignalRuntimeRef { id, init_status: false };
    let prs = Process::PPresent(PPresent { signal: h });
    let ems = Process::PEmit(PEmit { signal: h });
    let sig_absent = quiet_pure_sig(false);
    let sig_present = quiet_pure_sig(true);
    let sigs0 = Seq::new((id + 1) as nat, |i: int| None::<SignalRuntime>);
    let sigs_absent = sigs0.update(id as int, Some(sig_absent));
    let sigs_present = sigs0.update(id as int, Some(sig_present));
    let k0 = Continuation::ToSlot { cell: 0, idx: 0 };
    let k1 = Continuation::ToSlot { cell: 0, idx: 1 };
    let fresh_slots = SlotList::Cons(None, Box::new(SlotList::Cons(None, Box::new(SlotList::Nil))));
    let dead_cell = JoinCell { slots: SlotList::Nil, next: None, pair: true };
    // Second order: the emission stands before the present test.
    {
        let p = Process::Join(Join { p1: Box::new(ems), p2: Box::new(prs) });
        let s0 = boot(p);
        let s1 = RunState {
            core: CoreModel {
                current: seq![
                    Task::Call { process: ems, next: k0 },
                    Task::Call { process: prs, next: k1 },
                ],
                cells: seq![
                    (JoinCell { slots: fresh_slots, next: Some(Continuation::Store), pair: true }),
                ],
                ..empty_core()
            },
            closing: false,
            rested: false,
            instants: 0,
        };
        assert(machine_step(s0) =~~= s1) by {
            reveal(spec_run_task);
        }
        let w1 = Waiter { next: k1, rebuilt: prs };
        let sig_waiting = SignalRuntime {
            waiting_present: WaiterList::Cons(Box::new(w1), Box::new(WaiterList::Nil)),
            ..sig_absent
        };
        let s2 = RunState {
            core: CoreModel {
                current: seq![Task::Call { process: ems, next: k0 }],
                end: seq![Task::EndPresent { id }],
                signals: sigs0.update(id as int, Some(sig_waiting)),
                cells: s1.core.cells,
                ..empty_core()
            },
            closing: false,
            rested: false,
            instants: 0,
        };
        assert(machine_step(s1) =~~= s2) by {
            reveal(spec_run_task);
        }
        let s3 = RunState {
            core: CoreModel {
                current: seq![
                    Task::Resume { next: k1, rebuilt: prs, value: Val::Bool(true) },
                    Task::Resume { next: k0, rebuilt: ems, value: Val::Unit },
                ],
                end: seq![Task::EndPresent { id }, Task::EndEmit { id }],
                signals: sigs_present,
                cells: s1.core.cells,
                ..empty_core()
            },
            closing: false,
            rested: false,
            instants: 0,
        };
        assert(machine_step(s2) =~~= s3) by {
            reveal(spec_run_task);
            reveal_with_fuel(crate::semantics::spec_flush, 3);
        }
        let filled0 = SlotList::Cons(
            Some(Slot { p: ems, v: Val::Unit }),
            Box::new(SlotList::Cons(None, Box::new(SlotList::Nil))),
        );
        let s4 = RunState {
            core: CoreModel {
                current: seq![Task::Resume { next: k1, rebuilt: prs, value: Val::Bool(true) }],
                end: seq![Task::EndPresent { id }, Task::EndEmit { id }],
                signals: sigs_present,
                cells: seq![
                    (JoinCell { slots: filled0, next: Some(Continuation::Store), pair: true }),
                ],
                ..empty_core()
            },
            closing: false,
            rested: false,
            instants: 0,
        };
        assert(machine_step(s3) =~~= s4) by {
            reveal(spec_run_task);
            reveal_with_fuel(crate::semantics::spec_slot_set, 3);
            reveal_with_fuel(crate::semantics::spec_all_filled, 3);
        }
        let pairv = Val::Pair(Box::new(Val::Unit), Box::new(Val::Bool(true)));
        let s5 = RunState {
            core: CoreModel {
                current: seq![
                    Task::Resume {
                        next: Continuation::Store,
                        rebuilt: Process::Join(
                            (Join { p1: Box::new(ems), p2: Box::new(prs) }),
                        ),
                        value: pairv,
                    },
                ],
                end: seq![Task::EndPresent { id }, Task::EndEmit { id }],
                signals: sigs_present,
                cells: seq![dead_cell],
                ..empty_core()
            },
            closing: false,
            rested: false,
            instants: 0,
        };
        assert(machine_step(s4) =~~= s5) by {
            reveal(spec_run_task);
            reveal_with_fuel(crate::semantics::spec_slot_set, 3);
            reveal_with_fuel(crate::semantics::spec_all_filled, 3);
        }
        let s6 = RunState {
            core: CoreModel {
                result: Some(pairv),
                end: seq![Task::EndPresent { id }, Task::EndEmit { id }],
                signals: sigs_present,
                cells: seq![dead_cell],
                ..empty_core()
            },
            closing: false,
            rested: false,
            instants: 0,
        };
        assert(machine_step(s5) =~~= s6) by {
            reveal(spec_run_task);
        }
        let s7 = RunState {
            core: CoreModel {
                result: Some(pairv),
                next_end: seq![Task::EndPresent { id }, Task::EndEmit { id }],
                signals: sigs_present,
                cells: seq![dead_cell],
                ..empty_core()
            },
            closing: true,
            rested: false,
            instants: 0,
        };
        assert(machine_step(s6) =~~= s7);
        let s8 = RunState {
            core: CoreModel {
                result: Some(pairv),
                next_end: seq![Task::EndPresent { id }],
                signals: sigs_absent,
                cells: seq![dead_cell],
                ..empty_core()
            },
            closing: true,
            rested: false,
            instants: 0,
        };
        assert(machine_step(s7) =~~= s8) by {
            reveal(spec_run_task);
        }
        let s9 = RunState {
            core: CoreModel {
                result: Some(pairv),
                signals: sigs_absent,
                cells: seq![dead_cell],
                ..empty_core()
            },
            closing: true,
            rested: false,
            instants: 0,
        };
        assert(machine_step(s8) =~~= s9) by {
            reveal(spec_run_task);
        }
        let s10 = RunState { core: s9.core, closing: false, rested: true, instants: 1 };
        assert(machine_step(s9) =~~= s10);
        assert(machine_run(s0, 0) == s0);
        assert(machine_run(s0, 1) == machine_step(s0));
        assert(machine_run(s0, 2) == machine_step(machine_run(s0, 1)));
        assert(machine_run(s0, 3) == machine_step(machine_run(s0, 2)));
        assert(machine_run(s0, 4) == machine_step(machine_run(s0, 3)));
        assert(machine_run(s0, 5) == machine_step(machine_run(s0, 4)));
        assert(machine_run(s0, 6) == machine_step(machine_run(s0, 5)));
        assert(machine_run(s0, 7) == machine_step(machine_run(s0, 6)));
        assert(machine_run(s0, 8) == machine_step(machine_run(s0, 7)));
        assert(machine_run(s0, 9) == machine_step(machine_run(s0, 8)));
        assert(machine_run(s0, 10) == machine_step(machine_run(s0, 9)));
        assert(machine_run(s0, 10) == s10);
        assert(machine_done(s10));
        assert(machine_halts(s0));
        lemma_outcome_unique(s0, 10);
    }
}

/// A loop whose body answers `Continue` at every iteration never finishes:
/// the machine reaches no finished state from it. Together with
/// `execute_process`'s contract — which promises a finished state whenever
/// a value is returned — this is the divergent half of the termination
/// story: an execution terminates exactly when its graph stops scheduling
/// new work.
pub proof fn law_forever_continue_diverges(f: Fun)
    requires
        forall|i: nat| fun_out(f, i) == Val::Status(Box::new(LoopStatus::Continue)),
    ensures
        !machine_halts(boot(unit_loop(f))),
{
    let s0 = boot(unit_loop(f));
    if machine_halts(s0) {
        let n = choose|n: nat| machine_done(machine_run(s0, n));
        assert(machine_done(machine_run(s0, n)));
        lemma_loop_reaches(f, n);
        lemma_run_add(s0, n, (1 + 4 * n - n) as nat);
        lemma_done_stable(machine_run(s0, n), (1 + 4 * n - n) as nat);
        assert(machine_run(s0, 1 + 4 * n) == machine_run(s0, n));
        assert(machine_done(loop_state(fun_iter(f, n))));
        assert(loop_state(fun_iter(f, n)).core.current.len() == 1);
        assert(false);
    }
}

/// A sum signal's quiet cell: absent, accumulator at the default, nobody
/// waiting.
pub open spec fn quiet_sum_sig(d: i64) -> SignalRuntime {
    SignalRuntime {
        status: false,
        callbacks: WaiterList::Nil,
        waiting_present: WaiterList::Nil,
        waiting_await: WaiterList::Nil,
        current_value: Val::Int(d),
        default_value: Val::Int(d),
        gather: Gather::Sum,
        kind: SigKind::Gathered,
    }
}

/// The graph `join(s.emit(value(x)).then_with(s.emit(value(y))), s.await_value())`
/// on a sum signal with default `d`.
pub open spec fn sum_emits_graph(id: usize, d: i64, x: i64, y: i64) -> Process {
    let h = VSignalRuntimeRef { id, default_value: Box::new(Val::Int(d)), gather: Gather::Sum };
    Process::Join(
        Join {
            p1: Box::new(
                Process::Then(
                    Then {
                        p: Box::new(
                            Process::VEmit(
                                VEmit {
                                    signal: h,
                                    value: Box::new(Process::Value(Value { val: Val::Int(x) })),
                                },
                            ),
                        ),
                        q: Box::new(
                            Process::VEmit(
                                VEmit {
                                    signal: h,
                                    value: Box::new(Process::Value(Value { val: Val::Int(y) })),
                                },
                            ),
                        ),
                    },
                ),
            ),
            p2: Box::new(Process::VAwait(VAwait { signal: h })),
        },
    )
}

/// Two same-instant emissions onto a sum signal: the awaited value is the
/// default plus both, in emission order.
#[verifier::rlimit(100)]
proof fn lemma_sum_emits_run(id: usize, d: i64, x: i64, y: i64)
    requires
        i64::MIN <= d + x <= i64::MAX,
        i64::MIN <= d + x + y <= i64::MAX,
    ensures
        machine_halts(boot(sum_emits_graph(id, d, x, y))),
        machine_outcome(boot(sum_emits_graph(id, d, x, y))).core.result == Some(
            Val::Pair(Box::new(Val::Unit), Box::new(Val::Int((d + x + y) as i64))),
        ),
        machine_outcome(boot(sum_emits_graph(id, d, x, y))).instants == 2,
        machine_done(machine_run(boot(sum_emits_graph(id, d, x, y)), 20)),
{
    let h = VSignalRuntimeRef { id, default_value: Box::new(Val::Int(d)), gather: Gather::Sum };
    let pa = Process::VEmit(
        VEmit { signal: h, value: Box::new(Process::Value(Value { val: Val::Int(x) })) },
    );
    let pb = Process::VEmit(
        VEmit { signal: h, value: Box::new(Process::Value(Value { val: Val::Int(y) })) },
    );
    let pthen = Process::Then(Then { p: Box::new(pa), q: Box::new(pb) });
    let paw = Process::VAwait(VAwait { signal: h });
    let p = sum_emits_graph(id, d, x, y);
    let s0 = boot(p);
    let k0 = Continuation::ToSlot { cell: 0, idx: 0 };
    let k1 = Continuation::ToSlot { cell: 0, idx: 1 };
    let fresh_slots = SlotList::Cons(None, Box::new(SlotList::Cons(None, Box::new(SlotList::Nil))));
    let live_cell = JoinCell { slots: fresh_slots, next: Some(Continuation::Store), pair: true };
    let dead_cell = JoinCell { slots: SlotList::Nil, next: None, pair: true };
    let sigs0 = Seq::new((id + 1) as nat, |i: int| None::<SignalRuntime>);
    let sig0 = quiet_sum_sig(d);
    let w1 = Waiter { next: k1, rebuilt: paw };
    let wa1 = WaiterList::Cons(Box::new(w1), Box::new(WaiterList::Nil));
    let s1 = RunState {
        core: CoreModel {
            current: seq![
                Task::Call { process: pthen, next: k0 },
                Task::Call { process: paw, next: k1 },
            ],
            cells: seq![live_cell],
            ..empty_core()
        },
        closing: false,
        rested: false,
        instants: 0,
    };
    assert(machine_step(s0) =~~= s1) by {
        reveal(spec_run_task);
    }
    let sig_wa = SignalRuntime { waiting_await: wa1, ..sig0 };
    let s2 = RunState {
        core: CoreModel {
            current: seq![Task::Call { process: pthen, next: k0 }],
            signals: sigs0.update(id as int, Some(sig_wa)),
            cells: seq![live_cell],
            ..empty_core()
        },
        closing: false,
        rested: false,
        instants: 0,
    };
    assert(machine_step(s1) =~~= s2) by {
        reveal(spec_run_task);
    }
    let ktf = Continuation::ThenFirst { q: Box::new(pb), next: Box::new(k0) };
    let s3 = RunState {
        core: CoreModel {
            current: seq![Task::Call { process: pa, next: ktf }],
            ..s2.core
        },
        closing: false,
        rested: false,
        instants: 0,
    };
    assert(machine_step(s2) =~~= s3) by {
        reveal(spec_run_task);
    }
    let ke1 = Continuation::EmitGathered { signal: h, next: Box::new(ktf) };
    let s4 = RunState {
        core: CoreModel {
            current: seq![
                Task::Call { process: Process::Value((Value { val: Val::Int(x) })), next: ke1 },
            ],
            ..s2.core
        },
        closing: false,
        rested: false,
        instants: 0,
    };
    assert(machine_step(s3) =~~= s4) by {
        reveal(spec_run_task);
    }
    let s5 = RunState {
        core: CoreModel {
            current: seq![
                Task::Resume {
                    next: ke1,
                    rebuilt: Process::Value((Value { val: Val::Int(x) })),
                    value: Val::Int(x),
                },
            ],
            ..s2.core
        },
        closing: false,
        rested: false,
        instants: 0,
    };
    assert(machine_step(s4) =~~= s5) by {
        reveal(spec_run_task);
    }
    let sig_x = SignalRuntime {
        status: true,
        waiting_await: wa1,
        current_value: Val::Int((d + x) as i64),
        ..sig0
    };
    let s6 = RunState {
        core: CoreModel {
            current: seq![Task::Resume { next: ktf, rebuilt: pa, value: Val::Unit }],
            end: seq![Task::EndEmit { id }],
            signals: sigs0.update(id as int, Some(sig_x)),
            cells: seq![live_cell],
            ..empty_core()
        },
        closing: false,
        rested: false,
        instants: 0,
    };
    assert(machine_step(s5) =~~= s6) by {
        reveal(spec_run_task);
    }
    let kts = Continuation::ThenSecond { p: Box::new(pa), next: Box::new(k0) };
    let s7 = RunState {
        core: CoreModel {
            current: seq![Task::Call { process: pb, next: kts }],
            ..s6.core
        },
        closing: false,
        rested: false,
        instants: 0,
    };
    assert(machine_step(s6) =~~= s7) by {
        reveal(spec_run_task);
    }
    let ke2 = Continuation::EmitGathered { signal: h, next: Box::new(kts) };
    let s8 = RunState {
        core: CoreModel {
            current: seq![
                Task::Call { process: Process::Value((Value { val: Val::Int(y) })), next: ke2 },
            ],
            ..s6.core
        },
        closing: false,
        rested: false,
        instants: 0,
    };
    assert(machine_step(s7) =~~= s8) by {
        reveal(spec_run_task);
    }
    let s9 = RunState {
        core: CoreModel {
            current: seq![
                Task::Resume {
                    next: ke2,
                    rebuilt: Process::Value((Value { val: Val::Int(y) })),
                    value: Val::Int(y),
                },
            ],
            ..s6.core
        },
        closing: false,
        rested: false,
        instants: 0,
    };
    assert(machine_step(s8) =~~= s9) by {
        reveal(spec_run_task);
    }
    let sig_xy = SignalRuntime {
        status: true,
        waiting_await: wa1,
        current_value: Val::Int((d + x + y) as i64),
        ..sig0
    };
    let s10 = RunState {
        core: CoreModel {
            current: seq![Task::Resume { next: kts, rebuilt: pb, value: Val::Unit }],
            end: seq![Task::EndEmit { id }, Task::EndEmit { id }],
            signals: sigs0.update(id as int, Some(sig_xy)),
            cells: seq![live_cell],
            ..empty_core()
        },
        closing: false,
        rested: false,
        instants: 0,
    };
    assert(machine_step(s9) =~~= s10) by {
        reveal(spec_run_task);
    }
    let s11 = RunState {
        core: CoreModel {
            current: seq![Task::Resume { next: k0, rebuilt: pthen, value: Val::Unit }],
            ..s10.core
        },
        closing: false,
        rested: false,
        instants: 0,
    };
    assert(machine_step(s10) =~~= s11) by {
        reveal(spec_run_task);
    }
    let slots_left = SlotList::Cons(
        Some(Slot { p: pthen, v: Val::Unit }),
        Box::new(SlotList::Cons(None, Box::new(SlotList::Nil))),
    );
    let cell_left = JoinCell { slots: slots_left, next: Some(Continuation::Store), pair: true };
    let s12 = RunState {
        core: CoreModel {
            end: seq![Task::EndEmit { id }, Task::EndEmit { id }],
            signals: sigs0.update(id as int, Some(sig_xy)),
            cells: seq![cell_left],
            ..empty_core()
        },
        closing: false,
        rested: false,
        instants: 0,
    };
    assert(machine_step(s11) =~~= s12) by {
        reveal(spec_run_task);
        reveal_with_fuel(crate::semantics::spec_slot_set, 3);
        reveal_with_fuel(crate::semantics::spec_all_filled, 3);
    }
    let s13 = RunState {
        core: CoreModel {
            next_end: seq![Task::EndEmit { id }, Task::EndEmit { id }],
            signals: sigs0.update(id as int, Some(sig_xy)),
            cells: seq![cell_left],
            ..empty_core()
        },
        closing: true,
        rested: false,
        instants: 0,
    };
    assert(machine_step(s12) =~~= s13);
    let s14 = RunState {
        core: CoreModel {
            current: seq![
                Task::Resume { next: k1, rebuilt: paw, value: Val::Int((d + x + y) as i64) },
            ],
            next_end: seq![Task::EndEmit { id }],
            signals: sigs0.update(id as int, Some(sig0)),
            cells: seq![cell_left],
            ..empty_core()
        },
        closing: true,
        rested: false,
        instants: 0,
    };
    assert(machine_step(s13) =~~= s14) by {
        reveal(spec_run_task);
        reveal_with_fuel(crate::semantics::spec_flush, 3);
    }
    let s15 = RunState {
        core: CoreModel {
            current: s14.core.current,
            signals: sigs0.update(id as int, Some(sig0)),
            cells: seq![cell_left],
            ..empty_core()
        },
        closing: true,
        rested: false,
        instants: 0,
    };
    assert(machine_step(s14) =~~= s15) by {
        reveal(spec_run_task);
    }
    let s16 = RunState { core: s15.core, closing: false, rested: true, instants: 1 };
    assert(machine_step(s15) =~~= s16);
    let pairv = Val::Pair(Box::new(Val::Unit), Box::new(Val::Int((d + x + y) as i64)));
    let s17 = RunState {
        core: CoreModel {
            current: seq![
                Task::Resume {
                    next: Continuation::Store,
                    rebuilt: Process::Join((Join { p1: Box::new(pthen), p2: Box::new(paw) })),
                    value: pairv,
                },
            ],
            signals: sigs0.update(id as int, Some(sig0)),
            cells: seq![dead_cell],
            ..empty_core()
        },
        closing: false,
        rested: false,
        instants: 1,
    };
    assert(machine_step(s16) =~~= s17) by {
        reveal(spec_run_task);
        reveal_with_fuel(crate::semantics::spec_slot_set, 3);
        reveal_with_fuel(crate::semantics::spec_all_filled, 3);
    }
    let s18 = RunState {
        core: CoreModel {
            result: Some(pairv),
            signals: sigs0.update(id as int, Some(sig0)),
            cells: seq![dead_cell],
            ..empty_core()
        },
        closing: false,
        rested: false,
        instants: 1,
    };
    assert(machine_step(s17) =~~= s18) by {
        reveal(spec_run_task);
    }
    let s19 = RunState { core: s18.core, closing: true, rested: false, instants: 1 };
    assert(machine_step(s18) =~~= s19);
    let s20 = RunState { core: s18.core, closing: false, rested: true, instants: 2 };
    assert(machine_step(s19) =~~= s20);
    assert(machine_run(s0, 0) == s0);
    assert(machine_run(s0, 1) == machine_step(s0));
    assert(machine_run(s0, 2) == machine_step(machine_run(s0, 1)));
    assert(machine_run(s0, 3) == machine_step(machine_run(s0, 2)));
    assert(machine_run(s0, 4) == machine_step(machine_run(s0, 3)));
    assert(machine_run(s0, 5) == machine_step(machine_run(s0, 4)));
    assert(machine_run(s0, 6) == machine_step(machine_run(s0, 5)));
    assert(machine_run(s0, 7) == machine_step(machine_run(s0, 6)));
    assert(machine_run(s0, 8) == machine_step(machine_run(s0, 7)));
    assert(machine_run(s0, 9) == machine_step(machine_run(s0, 8)));
    assert(machine_run(s0, 10) == machine_step(machine_run(s0, 9)));
    assert(machine_run(s0, 11) == machine_step(machine_run(s0, 10)));
    assert(machine_run(s0, 12) == machine_step(machine_run(s0, 11)));
    assert(machine_run(s0, 13) == machine_step(machine_run(s0, 12)));
    assert(machine_run(s0, 14) == machine_step(machine_run(s0, 13)));
    assert(machine_run(s0, 15) == machine_step(machine_run(s0, 14)));
    assert(machine_run(s0, 16) == machine_step(machine_run(s0, 15)));
    assert(machine_run(s0, 17) == machine_step(machine_run(s0, 16)));
    assert(machine_run(s0, 18) == machine_step(machine_run(s0, 17)));
    assert(machine_run(s0, 19) == machine_step(machine_run(s0, 18)));
    assert(machine_run(s0, 20) == machine_step(machine_run(s0, 19)));
    assert(machine_run(s0, 20) == s20);
    assert(machine_done(s20));
    assert(machine_halts(s0));
    lemma_outcome_unique(s0, 20);
}

/// Sum aggregation is insensitive to the order of same-instant emissions:
/// emitting `a` then `b` and emitting `b` then `a` deliver the same
/// awaited value.
pub proof fn law_gather_order_irrelevant(id: usize, d: i64, a: i64, b: i64)
    requires
        i64::MIN <= d + a <= i64::MAX,
        i64::MIN <= d + b <= i64::MAX,
        i64::MIN <= d + a + b <= i64::MAX,
    ensures
        machine_halts(boot(sum_emits_graph(id, d, a, b))),
        machine_halts(boot(sum_emits_graph(id, d, b, a))),
        machine_outcome(boot(sum_emits_graph(id, d, a, b))).core.result == machine_outcome(
            boot(sum_emits_graph(id, d, b, a)),
        ).core.result,
        machine_outcome(boot(sum_emits_graph(id, d, a, b))).core.result == Some(
            Val::Pair(Box::new(Val::Unit), Box::new(Val::Int((d + a + b) as i64))),
        ),
        machine_done(machine_run(boot(sum_emits_graph(id, d, a, b)), 20)),
        machine_done(machine_run(boot(sum_emits_graph(id, d, b, a)), 20)),
{
    lemma_sum_emits_run(id, d, a, b);
    lemma_sum_emits_run(id, d, b, a);
}

/// The graph
/// `join(s.emit(value(v1)).then_with(s.emit(value(v2)).pause()), s.await_value())`
/// on a value signal with default `d` and fold `g`.
pub open spec fn emit_pause_graph(id: usize, d: Val, g: Gather, v1: Val, v2: Val) -> Process {
    let h = VSignalRuntimeRef { id, default_value: Box::new(d), gather: g };
    Process::Join(
        Join {
            p1: Box::new(
                Process::Then(
                    Then {
                        p: Box::new(
                            Process::VEmit(
                                VEmit {
                                    signal: h,
                                    value: Box::new(Process::Value(Value { val: v1 })),
                                },
                            ),
                        ),
                        q: Box::new(
                            Process::Pause(
                                Pause {
                                    process: Box::new(
                                        Process::VEmit(
                                            VEmit {
                                                signal: h,
                                                value: Box::new(Process::Value(Value { val: v2 })),
                                            },
                                        ),
                                    ),
                                },
                            ),
                        ),
                    },
                ),
            ),
            p2: Box::new(Process::VAwait(VAwait { signal: h })),
        },
    )
}

/// Emit before pause: when the second emission is paused into the next
/// instant, the awaited value folds in only the first one, whatever the
/// fold and whatever both values are.
#[verifier::rlimit(100)]
pub proof fn law_emit_before_pause(id: usize, d: Val, g: Gather, v1: Val, v2: Val)
    ensures
        machine_halts(boot(emit_pause_graph(id, d, g, v1, v2))),
        machine_outcome(boot(emit_pause_graph(id, d, g, v1, v2))).core.result == Some(
            Val::Pair(Box::new(Val::Unit), Box::new(spec_gather_apply(g, d, v1))),
        ),
        machine_outcome(boot(emit_pause_graph(id, d, g, v1, v2))).instants == 2,
        machine_done(machine_run(boot(emit_pause_graph(id, d, g, v1, v2)), 22)),
{
    let h = VSignalRuntimeRef { id, default_value: Box::new(d), gather: g };
    let pa = Process::VEmit(
        VEmit { signal: h, value: Box::new(Process::Value(Value { val: v1 })) },
    );
    let pb = Process::VEmit(
        VEmit { signal: h, value: Box::new(Process::Value(Value { val: v2 })) },
    );
    let pbp = Process::Pause(Pause { process: Box::new(pb) });
    let pthen = Process::Then(Then { p: Box::new(pa), q: Box::new(pbp) });
    let paw = Process::VAwait(VAwait { signal: h });
    let p = emit_pause_graph(id, d, g, v1, v2);
    let s0 = boot(p);
    let k0 = Continuation::ToSlot { cell: 0, idx: 0 };
    let k1 = Continuation::ToSlot { cell: 0, idx: 1 };
    let fresh_slots = SlotList::Cons(None, Box::new(SlotList::Cons(None, Box::new(SlotList::Nil))));
    let live_cell = JoinCell { slots: fresh_slots, next: Some(Continuation::Store), pair: true };
    let dead_cell = JoinCell { slots: SlotList::Nil, next: None, pair: true };
    let sigs0 = Seq::new((id + 1) as nat, |i: int| None::<SignalRuntime>);
    let sig0 = SignalRuntime {
        status: false,
        callbacks: WaiterList::Nil,
        waiting_present: WaiterList::Nil,
        waiting_await: WaiterList::Nil,
        current_value: d,
        default_value: d,
        gather: g,
        kind: SigKind::Gathered,
    };
    let w = spec_gather_apply(g, d, v1);
    let w1 = Waiter { next: k1, rebuilt: paw };
    let wa1 = WaiterList::Cons(Box::new(w1), Box::new(WaiterList::Nil));
    let s1 = RunState {
        core: CoreModel {
            current: seq![
                Task::Call { process: pthen, next: k0 },
                Task::Call { process: paw, next: k1 },
            ],
            cells: seq![live_cell],
            ..empty_core()
        },
        closing: false,
        rested: false,
        instants: 0,
    };
    assert(machine_step(s0) =~~= s1) by {
        reveal(spec_run_task);
    }
    let sig_wa = SignalRuntime { waiting_await: wa1, ..sig0 };
    let s2 = RunState {
        core: CoreModel {
            current: seq![Task::Call { process: pthen, next: k0 }],
            signals: sigs0.update(id as int, Some(sig_wa)),
            cells: seq![live_cell],
            ..empty_core()
        },
        closing: false,
        rested: false,
        instants: 0,
    };
    assert(machine_step(s1) =~~= s2) by {
        reveal(spec_run_task);
    }
    let ktf = Continuation::ThenFirst { q: Box::new(pbp), next: Box::new(k0) };
    let s3 = RunState {
        core: CoreModel {
            current: seq![Task::Call { process: pa, next: ktf }],
            ..s2.core
        },
        closing: false,
        rested: false,
        instants: 0,
    };
    assert(machine_step(s2) =~~= s3) by {
        reveal(spec_run_task);
    }
    let ke1 = Continuation::EmitGathered { signal: h, next: Box::new(ktf) };
    let s4 = RunState {
        core: CoreModel {
            current: seq![
                Task::Call { process: Process::Value((Value { val: v1 })), next: ke1 },
            ],
            ..s2.core
        },
        closing: false,
        rested: false,
        instants: 0,
    };
    assert(machine_step(s3) =~~= s4) by {
        reveal(spec_run_task);
    }
    let s5 = RunState {
        core: CoreModel {
            current: seq![
                Task::Resume {
                    next: ke1,
                    rebuilt: Process::Value((Value { val: v1 })),
                    value: v1,
                },
            ],
            ..s2.core
        },
        closing: false,
        rested: false,
        instants: 0,
    };
    assert(machine_step(s4) =~~= s5) by {
        reveal(spec_run_task);
    }
    let sig_w = SignalRuntime { status: true, waiting_await: wa1, current_value: w, ..sig0 };
    let s6 = RunState {
        core: CoreModel {
            current: seq![Task::Resume { next: ktf, rebuilt: pa, value: Val::Unit }],
            end: seq![Task::EndEmit { id }],
            signals: sigs0.update(id as int, Some(sig_w)),
            cells: seq![live_cell],
            ..empty_core()
        },
        closing: false,
        rested: false,
        instants: 0,
    };
    assert(machine_step(s5) =~~= s6) by {
        reveal(spec_run_task);
    }
    let kts = Continuation::ThenSecond { p: Box::new(pa), next: Box::new(k0) };
    let s7 = RunState {
        core: CoreModel {
            current: seq![Task::Call { process: pbp, next: kts }],
            ..s6.core
        },
        closing: false,
        rested: false,
        instants: 0,
    };
    assert(machine_step(s6) =~~= s7) by {
        reveal(spec_run_task);
    }
    let kap = Continuation::AfterPause { next: Box::new(kts) };
    let s8 = RunState {
        core: CoreModel {
            next_current: seq![Task::Call { process: pb, next: kap }],
            end: seq![Task::EndEmit { id }],
            signals: sigs0.update(id as int, Some(sig_w)),
            cells: seq![live_cell],
            ..empty_core()
        },
        closing: false,
        rested: false,
        instants: 0,
    };
    assert(machine_step(s7) =~~= s8) by {
        reveal(spec_run_task);
    }
    let s9 = RunState {
        core: CoreModel {
            current: seq![Task::Call { process: pb, next: kap }],
            next_end: seq![Task::EndEmit { id }],
            signals: sigs0.update(id as int, Some(sig_w)),
            cells: seq![live_cell],
            ..empty_core()
        },
        closing: true,
        rested: false,
        instants: 0,
    };
    assert(machine_step(s8) =~~= s9);
    let s10 = RunState {
        core: CoreModel {
            current: seq![
                Task::Call { process: pb, next: kap },
                Task::Resume { next: k1, rebuilt: paw, value: w },
            ],
            signals: sigs0.update(id as int, Some(sig0)),
            cells: seq![live_cell],
            ..empty_core()
        },
        closing: true,
        rested: false,
        instants: 0,
    };
    assert(machine_step(s9) =~~= s10) by {
        reveal(spec_run_task);
        reveal_with_fuel(crate::semantics::spec_flush, 3);
    }
    let s11 = RunState { core: s10.core, closing: false, rested: true, instants: 1 };
    assert(machine_step(s10) =~~= s11);
    let slots_right = SlotList::Cons(
        None,
        Box::new(SlotList::Cons(Some(Slot { p: paw, v: w }), Box::new(SlotList::Nil))),
    );
    let cell_right = JoinCell { slots: slots_right, next: Some(Continuation::Store), pair: true };
    let s12 = RunState {
        core: CoreModel {
            current: seq![Task::Call { process: pb, next: kap }],
            signals: sigs0.update(id as int, Some(sig0)),
            cells: seq![cell_right],
            ..empty_core()
        },
        closing: false,
        rested: false,
        instants: 1,
    };
    assert(machine_step(s11) =~~= s12) by {
        reveal(spec_run_task);
        reveal_with_fuel(crate::semantics::spec_slot_set, 3);
        reveal_with_fuel(crate::semantics::spec_all_filled, 3);
    }
    let ke2 = Continuation::EmitGathered { signal: h, next: Box::new(kap) };
    let s13 = RunState {
        core: CoreModel {
            current: seq![
                Task::Call { process: Process::Value((Value { val: v2 })), next: ke2 },
            ],
            ..s12.core
        },
        closing: false,
        rested: false,
        instants: 1,
    };
    assert(machine_step(s12) =~~= s13) by {
        reveal(spec_run_task);
    }
    let s14 = RunState {
        core: CoreModel {
            current: seq![
                Task::Resume {
                    next: ke2,
                    rebuilt: Process::Value((Value { val: v2 })),
                    value: v2,
                },
            ],
            ..s12.core
        },
        closing: false,
        rested: false,
        instants: 1,
    };
    assert(machine_step(s13) =~~= s14) by {
        reveal(spec_run_task);
    }
    let w2 = spec_gather_apply(g, d, v2);
    let sig_w2 = SignalRuntime { status: true, current_value: w2, ..sig0 };
    let s15 = RunState {
        core: CoreModel {
            current: seq![Task::Resume { next: kap, rebuilt: pb, value: Val::Unit }],
            end: seq![Task::EndEmit { id }],
            signals: sigs0.update(id as int, Some(sig_w2)),
            cells: seq![cell_right],
            ..empty_core()
        },
        closing: false,
        rested: false,
        instants: 1,
    };
    assert(machine_step(s14) =~~= s15) by {
        reveal(spec_run_task);
    }
    let s16 = RunState {
        core: CoreModel {
            current: seq![
                Task::Resume {
                    next: kts,
                    rebuilt: Process::Pause((Pause { process: Box::new(pb) })),
                    value: Val::Unit,
                },
            ],
            ..s15.core
        },
        closing: false,
        rested: false,
        instants: 1,
    };
    assert(machine_step(s15) =~~= s16) by {
        reveal(spec_run_task);
    }
    let rebuilt_then = Process::Then(Then { p: Box::new(pa), q: Box::new(pbp) });
    let s17 = RunState {
        core: CoreModel {
            current: seq![
                Task::Resume { next: k0, rebuilt: rebuilt_then, value: Val::Unit },
            ],
            ..s15.core
        },
        closing: false,
        rested: false,
        instants: 1,
    };
    assert(machine_step(s16) =~~= s17) by {
        reveal(spec_run_task);
    }
    let pairv = Val::Pair(Box::new(Val::Unit), Box::new(w));
    let s18 = RunState {
        core: CoreModel {
            current: seq![
                Task::Resume {
                    next: Continuation::Store,
                    rebuilt: Process::Join(
                        (Join { p1: Box::new(rebuilt_then), p2: Box::new(paw) }),
                    ),
                    value: pairv,
                },
            ],
            end: seq![Task::EndEmit { id }],
            signals: sigs0.update(id as int, Some(sig_w2)),
            cells: seq![dead_cell],
            ..empty_core()
        },
        closing: false,
        rested: false,
        instants: 1,
    };
    assert(machine_step(s17) =~~= s18) by {
        reveal(spec_run_task);
        reveal_with_fuel(crate::semantics::spec_slot_set, 3);
        reveal_with_fuel(crate::semantics::spec_all_filled, 3);
    }
    let s19 = RunState {
        core: CoreModel {
            result: Some(pairv),
            end: seq![Task::EndEmit { id }],
            signals: sigs0.update(id as int, Some(sig_w2)),
            cells: seq![dead_cell],
            ..empty_core()
        },
        closing: false,
        rested: false,
        instants: 1,
    };
    assert(machine_step(s18) =~~= s19) by {
        reveal(spec_run_task);
    }
    let s20 = RunState {
        core: CoreModel {
            result: Some(pairv),
            next_end: seq![Task::EndEmit { id }],
            signals: sigs0.update(id as int, Some(sig_w2)),
            cells: seq![dead_cell],
            ..empty_core()
        },
        closing: true,
        rested: false,
        instants: 1,
    };
    assert(machine_step(s19) =~~= s20);
    let s21 = RunState {
        core: CoreModel {
            result: Some(pairv),
            signals: sigs0.update(id as int, Some(sig0)),
            cells: seq![dead_cell],
            ..empty_core()
        },
        closing: true,
        rested: false,
        instants: 1,
    };
    assert(machine_step(s20) =~~= s21) by {
        reveal(spec_run_task);
    }
    let s22 = RunState { core: s21.core, closing: false, rested: true, instants: 2 };
    assert(machine_step(s21) =~~= s22);
    assert(machine_run(s0, 0) == s0);
    assert(machine_run(s0, 1) == machine_step(s0));
    assert(machine_run(s0, 2) == machine_step(machine_run(s0, 1)));
    assert(machine_run(s0, 3) == machine_step(machine_run(s0, 2)));
    assert(machine_run(s0, 4) == machine_step(machine_run(s0, 3)));
    assert(machine_run(s0, 5) == machine_step(machine_run(s0, 4)));
    assert(machine_run(s0, 6) == machine_step(machine_run(s0, 5)));
    assert(machine_run(s0, 7) == machine_step(machine_run(s0, 6)));
    assert(machine_run(s0, 8) == machine_step(machine_run(s0, 7)));
    assert(machine_run(s0, 9) == machine_step(machine_run(s0, 8)));
    assert(machine_run(s0, 10) == machine_step(machine_run(s0, 9)));
    assert(machine_run(s0, 11) == machine_step(machine_run(s0, 10)));
    assert(machine_run(s0, 12) == machine_step(machine_run(s0, 11)));
    assert(machine_run(s0, 13) == machine_step(machine_run(s0, 12)));
    assert(machine_run(s0, 14) == machine_step(machine_run(s0, 13)));
    assert(machine_run(s0, 15) == machine_step(machine_run(s0, 14)));
    assert(machine_run(s0, 16) == machine_step(machine_run(s0, 15)));
    assert(machine_run(s0, 17) == machine_step(machine_run(s0, 16)));
    assert(machine_run(s0, 18) == machine_step(machine_run(s0, 17)));
    assert(machine_run(s0, 19) == machine_step(machine_run(s0, 18)));
    assert(machine_run(s0, 20) == machine_step(machine_run(s0, 19)));
    assert(machine_run(s0, 21) == machine_step(machine_run(s0, 20)));
    assert(machine_run(s0, 22) == machine_step(machine_run(s0, 21)));
    assert(machine_run(s0, 22) == s22);
    assert(machine_done(s22));
    assert(machine_halts(s0));
    lemma_outcome_unique(s0, 22);
}

} // verus!
