use reactive_rs::continuation::Continuation;
use reactive_rs::process::{execute_process, execute_process_par, if_else, join, value};
use reactive_rs::sequential_runtime::SequentialRuntime;
use reactive_rs::signal::{
    PureSignal, UniqueConsumerSignalProducer, UniqueProducerSignalProducer, ValueSignal,
};
use reactive_rs::task::Task;
use reactive_rs::value::{Fun, Gather, Val, ValList};

const FUEL: u64 = 1000000;

#[test]
fn test_continuation() {
    let mut runtime = SequentialRuntime::new();
    let cont_print = Continuation::store().map(Fun::ConstOf(Box::new(Val::Int(42))));
    runtime.on_next_instant(Task::Resume {
        next: cont_print,
        rebuilt: value(Val::Unit),
        value: Val::Unit,
    });
    assert_eq!(runtime.result_value(), None);
    assert_eq!(runtime.instant(FUEL), Some(true));
    assert_eq!(runtime.result_value(), None);
    assert_eq!(runtime.instant(FUEL), Some(false));
    assert_eq!(runtime.result_value(), Some(Val::Int(42)));
}

#[test]
fn test_continuation_pause() {
    let mut runtime = SequentialRuntime::new();
    let cont_print = Continuation::store().map(Fun::ConstOf(Box::new(Val::Int(42))));
    let cont_wait = cont_print.pause();
    runtime.on_current_instant(Task::Resume {
        next: cont_wait,
        rebuilt: value(Val::Unit),
        value: Val::Unit,
    });
    assert_eq!(runtime.result_value(), None);
    assert_eq!(runtime.instant(FUEL), Some(true));
    assert_eq!(runtime.result_value(), None);
    assert_eq!(runtime.instant(FUEL), Some(false));
    assert_eq!(runtime.result_value(), Some(Val::Int(42)));
}

#[test]
fn test_process_flatten() {
    let p = value(Val::Prog(Box::new(value(Val::Int(42)))));
    let r = execute_process(p.flatten(), FUEL);
    assert!(r.is_some());
    assert_eq!(r, Some(Val::Int(42)));
}

#[test]
fn test_process_pause() {
    let p = value(Val::Int(42)).pause();
    let r = execute_process_par(p, FUEL);
    assert!(r.is_some());
    assert_eq!(r, Some(Val::Int(42)));
}

#[test]
fn test_process_join() {
    let p = join(value(Val::Int(42)), value(Val::Int(1337)));
    let r = execute_process_par(p, FUEL);
    assert!(r.is_some());
    assert_eq!(
        r,
        Some(Val::Pair(Box::new(Val::Int(42)), Box::new(Val::Int(1337))))
    );
}

#[test]
fn test_process_return() {
    assert_eq!(execute_process_par(value(Val::Int(42)), FUEL), Some(Val::Int(42)));
}

#[test]
fn test_process_while() {
    let p = value(Val::Unit)
        .map(Fun::CountTo { next: 0, target: 42 })
        .while_loop();
    let r = execute_process_par(p, FUEL);
    assert!(r.is_some());
    assert_eq!(r, Some(Val::Int(42)));
}

#[test]
fn test_process_if() {
    let p = if_else(
        value(Val::Bool(false)),
        if_else(value(Val::Bool(true)), value(Val::Int(1)), value(Val::Int(2))),
        if_else(value(Val::Bool(true)), value(Val::Int(3)), value(Val::Int(4))),
    );
    assert_eq!(execute_process_par(p, FUEL), Some(Val::Int(3)));
}

#[test]
fn test_signal_await() {
    let s = PureSignal::new(0);
    let p = join(
        s.await_immediate().map(Fun::ConstOf(Box::new(Val::Int(1337)))),
        value(Val::Int(42))
            .pause()
            .then_with(s.emit())
            .then_with(value(Val::Int(1337)).pause())
            .map(Fun::AddConst(1)),
    );
    let r = execute_process_par(p, FUEL);
    assert!(r.is_some());
    assert_eq!(
        r,
        Some(Val::Pair(Box::new(Val::Int(1337)), Box::new(Val::Int(1338))))
    );
}

#[test]
fn test_signal_await_2() {
    let mut s = PureSignal::new(0);
    s.set_status(true);
    let p = join(
        s.await_immediate().map(Fun::ConstOf(Box::new(Val::Int(1337)))),
        value(Val::Int(42))
            .pause()
            .then_with(s.emit())
            .then_with(value(Val::Int(42)).pause())
            .map(Fun::AddConst(1)),
    );
    let r = execute_process_par(p, FUEL);
    assert!(r.is_some());
    assert_eq!(
        r,
        Some(Val::Pair(Box::new(Val::Int(1337)), Box::new(Val::Int(43))))
    );
}

#[test]
fn test_signal_present() {
    let s = PureSignal::new(0);
    let p = s
        .emit()
        .map(Fun::CountTo { next: 0, target: 42 })
        .pause()
        .while_loop();
    let q = if_else(s.present(), value(Val::Bool(true)), value(Val::Bool(false)))
        .map(Fun::TallyIf { step: 2, acc: 0 })
        .pause()
        .while_loop();
    let r = execute_process_par(join(p, q), FUEL);
    assert!(r.is_some());
    assert_eq!(
        r,
        Some(Val::Pair(Box::new(Val::Int(42)), Box::new(Val::Int(84))))
    );
}

#[test]
fn test_value_signal() {
    let s = ValueSignal::new(0, Val::Int(0), Gather::Sum);

    let r1 = execute_process_par(
        join(
            s.emit(value(Val::Int(1))).then_with(s.emit(value(Val::Int(5)))),
            s.await_value(),
        ),
        FUEL,
    );
    assert_eq!(r1, Some(Val::Pair(Box::new(Val::Unit), Box::new(Val::Int(6)))));

    let r2 = execute_process_par(
        join(
            s.emit(value(Val::Int(1)))
                .then_with(s.emit(value(Val::Int(5))).pause()),
            s.await_value(),
        ),
        FUEL,
    );
    assert_eq!(r2, Some(Val::Pair(Box::new(Val::Unit), Box::new(Val::Int(1)))));

    for _ in 0..100 {
        let r3 = execute_process_par(
            join(
                s.emit(value(Val::Int(2)))
                    .then_with(s.emit(value(Val::Int(5))).pause())
                    .then_with(s.emit(value(Val::Int(15))).pause()),
                join(
                    s.await_value(),
                    s.await_value().then_with(s.await_value()),
                )
                .map(Fun::MulPair),
            ),
            FUEL,
        );
        assert_eq!(
            r3,
            Some(Val::Pair(Box::new(Val::Unit), Box::new(Val::Int(10))))
        );
    }
}

#[test]
fn test_unique_consumer_signal() {
    let (s_prod, s_cons) = UniqueConsumerSignalProducer::new(
        0,
        Val::List(Box::new(ValList::Nil)),
        Gather::PushBack,
    );
    let r = execute_process_par(
        join(
            s_prod
                .emit(value(Val::Int(1)))
                .then_with(s_prod.emit(value(Val::Int(5)))),
            s_cons.await_value(),
        ),
        FUEL,
    );
    let expected = Val::List(Box::new(ValList::Cons(
        Box::new(Val::Int(1)),
        Box::new(ValList::Cons(Box::new(Val::Int(5)), Box::new(ValList::Nil))),
    )));
    assert_eq!(r, Some(Val::Pair(Box::new(Val::Unit), Box::new(expected))));

    let (s_prod, s_cons) = UniqueConsumerSignalProducer::new(
        1,
        Val::List(Box::new(ValList::Nil)),
        Gather::PushBack,
    );
    let r2 = execute_process_par(
        join(
            s_prod
                .emit(value(Val::Int(1)))
                .then_with(s_prod.emit(value(Val::Int(5))).pause()),
            s_cons.await_value(),
        ),
        FUEL,
    );
    let expected2 = Val::List(Box::new(ValList::Cons(
        Box::new(Val::Int(1)),
        Box::new(ValList::Nil),
    )));
    assert_eq!(r2, Some(Val::Pair(Box::new(Val::Unit), Box::new(expected2))));
}

#[test]
fn test_unique_producer_signal() {
    let (s_prod, s_cons) = UniqueProducerSignalProducer::new(0, Val::Int(0));
    let r = execute_process_par(
        join(
            s_prod.emit(value(Val::Int(1))),
            join(s_cons.await_immediate(), s_cons.await_immediate()),
        ),
        FUEL,
    );
    assert_eq!(
        r,
        Some(Val::Pair(
            Box::new(Val::Unit),
            Box::new(Val::Pair(Box::new(Val::Int(1)), Box::new(Val::Int(1)))),
        ))
    );
}

#[test]
fn test_parallel() {
    assert_eq!(
        execute_process_par(join(value(Val::Int(15)), value(Val::Int(1337))), FUEL),
        Some(Val::Pair(Box::new(Val::Int(15)), Box::new(Val::Int(1337))))
    );
}
