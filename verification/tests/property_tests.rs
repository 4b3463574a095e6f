//! Concrete instances of the runtime's laws, plus the edges of the value
//! and signal machinery.

use reactive_rs::process::{execute_process, execute_process_par, join, multi_join, value};
use reactive_rs::continuation::Continuation;
use reactive_rs::sequential_runtime::SequentialRuntime;
use reactive_rs::signal::{PureSignal, UniqueConsumerSignalProducer, UniqueProducerSignalProducer, ValueSignal};
use reactive_rs::task::Task;
use reactive_rs::value::{Fun, Gather, Val, ValList};

const FUEL: u64 = 1000000;

#[test]
fn value_executes_to_itself() {
    assert_eq!(execute_process(value(Val::Int(7)), FUEL), Some(Val::Int(7)));
    assert_eq!(execute_process(value(Val::Unit), FUEL), Some(Val::Unit));
}

#[test]
fn pause_map_takes_two_instants() {
    let p = value(Val::Int(42)).pause().map(Fun::AddConst(1));
    let mut rt = SequentialRuntime::new();
    rt.on_current_instant(Task::Call { process: p, next: Continuation::store() });
    assert!(rt.execute(FUEL));
    assert_eq!(rt.result_value(), Some(Val::Int(43)));
    assert_eq!(rt.instants_elapsed(), 2);
}

#[test]
fn present_true_in_both_orders() {
    let s = PureSignal::new(0);
    let r1 = execute_process(join(s.present(), s.emit()), FUEL);
    assert_eq!(
        r1,
        Some(Val::Pair(Box::new(Val::Bool(true)), Box::new(Val::Unit)))
    );
    let s2 = PureSignal::new(0);
    let r2 = execute_process(join(s2.emit(), s2.present()), FUEL);
    assert_eq!(
        r2,
        Some(Val::Pair(Box::new(Val::Unit), Box::new(Val::Bool(true))))
    );
}

#[test]
fn present_false_in_silent_instant() {
    let s = PureSignal::new(0);
    let r = execute_process(s.present(), FUEL);
    assert_eq!(r, Some(Val::Bool(false)));
}

#[test]
fn gather_order_does_not_matter() {
    let s = ValueSignal::new(0, Val::Int(100), Gather::Sum);
    let one_way = execute_process(
        join(
            s.emit(value(Val::Int(3))).then_with(s.emit(value(Val::Int(9)))),
            s.await_value(),
        ),
        FUEL,
    );
    let other_way = execute_process(
        join(
            s.emit(value(Val::Int(9))).then_with(s.emit(value(Val::Int(3)))),
            s.await_value(),
        ),
        FUEL,
    );
    assert_eq!(one_way, other_way);
    assert_eq!(
        one_way,
        Some(Val::Pair(Box::new(Val::Unit), Box::new(Val::Int(112))))
    );
}

#[test]
fn multi_join_collects_in_order() {
    let p = multi_join(vec![value(Val::Int(1)), value(Val::Int(2)), value(Val::Int(3))]);
    let expected = Val::List(Box::new(ValList::Cons(
        Box::new(Val::Int(1)),
        Box::new(ValList::Cons(
            Box::new(Val::Int(2)),
            Box::new(ValList::Cons(Box::new(Val::Int(3)), Box::new(ValList::Nil))),
        )),
    )));
    assert_eq!(execute_process(p, FUEL), Some(expected));
}

#[test]
fn empty_multi_join_loses_its_continuation() {
    // With no branch to fill a slot, the rendezvous never fires: the graph
    // is malformed and no result is delivered.
    let p = multi_join(vec![]);
    assert_eq!(execute_process(p, FUEL), None);
}

#[test]
fn await_without_emit_never_resolves() {
    let s = PureSignal::new(0);
    assert_eq!(execute_process(s.await_immediate(), FUEL), None);
}

#[test]
fn second_unique_consumer_await_faults() {
    let (s_prod, s_cons) =
        UniqueConsumerSignalProducer::new(0, Val::Int(0), Gather::Sum);
    let p = join(
        join(s_cons.await_value(), s_cons.await_value()),
        s_prod.emit(value(Val::Int(4))),
    );
    let mut rt = SequentialRuntime::new();
    rt.on_current_instant(Task::Call { process: p, next: Continuation::store() });
    assert!(rt.execute(FUEL));
    assert!(rt.faulted());
    assert_eq!(rt.result_value(), None);
}

#[test]
fn add_const_saturates_to_identity_on_overflow() {
    let p = value(Val::Int(i64::MAX)).map(Fun::AddConst(1));
    assert_eq!(execute_process(p, FUEL), Some(Val::Int(i64::MAX)));
    let q = value(Val::Int(i64::MAX)).map(Fun::AddConst(-1));
    assert_eq!(execute_process(q, FUEL), Some(Val::Int(i64::MAX - 1)));
}

#[test]
fn and_then_runs_the_wrapped_process() {
    let p = value(Val::Int(3)).and_then(Fun::WrapValue);
    assert_eq!(execute_process(p, FUEL), Some(Val::Int(3)));
}

#[test]
fn then_discards_the_first_value() {
    let p = value(Val::Int(1)).then_with(value(Val::Int(2)));
    assert_eq!(execute_process(p, FUEL), Some(Val::Int(2)));
}

#[test]
fn while_loop_single_exit() {
    let p = value(Val::Unit)
        .map(Fun::CountTo { next: 0, target: 1 })
        .while_loop();
    assert_eq!(execute_process(p, FUEL), Some(Val::Int(1)));
}

#[test]
fn emit_before_pause_hides_second_emission() {
    let s = ValueSignal::new(
        0,
        Val::List(Box::new(ValList::Nil)),
        Gather::PushBack,
    );
    let r = execute_process(
        join(
            s.emit(value(Val::Int(8)))
                .then_with(s.emit(value(Val::Int(9))).pause()),
            s.await_value(),
        ),
        FUEL,
    );
    let expected = Val::List(Box::new(ValList::Cons(
        Box::new(Val::Int(8)),
        Box::new(ValList::Nil),
    )));
    assert_eq!(r, Some(Val::Pair(Box::new(Val::Unit), Box::new(expected))));
}

#[test]
fn fuel_running_out_yields_nothing() {
    let p = value(Val::Int(5)).pause().pause().pause();
    assert_eq!(execute_process(p, 2), None);
    let p2 = value(Val::Int(5)).pause().pause().pause();
    assert_eq!(execute_process(p2, FUEL), Some(Val::Int(5)));
}

#[test]
fn unique_producer_present_sees_emission() {
    let (s_prod, s_cons) = UniqueProducerSignalProducer::new(0, Val::Int(0));
    let r = execute_process(
        join(s_prod.emit(value(Val::Int(9))), s_cons.present()),
        FUEL,
    );
    assert_eq!(
        r,
        Some(Val::Pair(Box::new(Val::Unit), Box::new(Val::Bool(true))))
    );
}

#[test]
fn value_signal_await_immediate_fires_on_emission() {
    let s = ValueSignal::new(0, Val::Int(0), Gather::Sum);
    let r = execute_process(
        join(s.await_immediate(), s.emit(value(Val::Int(1)))),
        FUEL,
    );
    assert_eq!(
        r,
        Some(Val::Pair(Box::new(Val::Unit), Box::new(Val::Unit)))
    );
}

#[test]
fn pure_signal_resets_between_instants() {
    // Emit in the first instant only; a present test paused into the
    // second instant must answer false.
    let s = PureSignal::new(0);
    let r = execute_process(
        join(s.emit(), value(Val::Unit).pause().then_with(s.present())),
        FUEL,
    );
    assert_eq!(
        r,
        Some(Val::Pair(Box::new(Val::Unit), Box::new(Val::Bool(false))))
    );
}

#[test]
fn sequential_and_pool_agree() {
    let s = ValueSignal::new(0, Val::Int(0), Gather::Sum);
    let build = || {
        join(
            s.emit(value(Val::Int(1))).then_with(s.emit(value(Val::Int(5)))),
            s.await_value(),
        )
    };
    assert_eq!(execute_process(build(), FUEL), execute_process_par(build(), FUEL));
}
