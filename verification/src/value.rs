//! Runtime values, the mapping functions applied by `map` combinators, and
//! the gather folds of value signals.
//!
//! Processes exchange values of the closed type [`Val`]; mapping functions
//! are data ([`Fun`]) interpreted by [`fun_apply`], so that what a `map`
//! computes is a spec-level function of its input. A `Fun` may carry state:
//! applying it yields the successor `Fun` alongside the result, which is how
//! loop bodies evolve across iterations.

use vstd::prelude::*;

verus! {

use crate::process::Process;
use crate::process::Value;

/// Tells a `while_loop` whether to run another iteration or stop.
#[derive(Debug, PartialEq, Eq)]
pub enum LoopStatus {
    Continue,
    Exit(Box<Val>),
}

/// A list of values, the result shape of `multi_join` and the accumulator
/// shape of list-gathering signals.
#[derive(Debug, PartialEq, Eq)]
pub enum ValList {
    Nil,
    Cons(Box<Val>, Box<ValList>),
}

/// A value produced or consumed by a process.
#[derive(Debug, PartialEq, Eq)]
pub enum Val {
    Unit,
    Int(i64),
    Bool(bool),
    Pair(Box<Val>, Box<Val>),
    List(Box<ValList>),
    Status(Box<LoopStatus>),
    /// A process as a value; this is what `flatten` runs.
    Prog(Box<Process>),
}

/// A single-use mapping function, applied by the `map` combinators.
/// Applying one yields its successor state together with the result.
#[derive(Debug, PartialEq, Eq)]
pub enum Fun {
    /// The identity.
    Ident,
    /// Ignores its input and yields the carried value.
    ConstOf(Box<Val>),
    /// Adds a constant to an integer; leaves the input unchanged when the
    /// sum would overflow or the input is not an integer.
    AddConst(i64),
    /// Multiplies the two components of a pair of integers; leaves the input
    /// unchanged when that is not its shape or the product would overflow.
    MulPair,
    /// Counts calls: yields `Continue` until the counter reaches `target`,
    /// then `Exit(target)`.
    CountTo { next: u32, target: u32 },
    /// Folds a boolean stream: on `true` adds `step` to `acc` and yields
    /// `Continue`; on anything else yields `Exit(acc)`.
    TallyIf { step: i64, acc: i64 },
    /// Wraps its input as the process that immediately returns it.
    WrapValue,
}

/// The deterministic fold a value signal applies to incoming emissions.
#[derive(Debug, Clone, Copy, PartialEq, Eq)]
pub enum Gather {
    /// Integer addition; keeps the accumulator on overflow or on a
    /// non-integer operand.
    Sum,
    /// Appends the emitted value to a list accumulator.
    PushBack,
}

pub open spec fn spec_list_push(l: ValList, v: Val) -> ValList
    decreases l,
{
    match l {
        ValList::Nil => ValList::Cons(Box::new(v), Box::new(ValList::Nil)),
        ValList::Cons(h, t) => ValList::Cons(h, Box::new(spec_list_push(*t, v))),
    }
}

/// What applying a mapping function means: the successor function paired
/// with the result value.
pub open spec fn spec_fun_apply(f: Fun, v: Val) -> (Fun, Val) {
    match f {
        Fun::Ident => (f, v),
        Fun::ConstOf(c) => (Fun::ConstOf(c), *c),
        Fun::AddConst(k) => match v {
            Val::Int(n) => if i64::MIN <= n + k <= i64::MAX {
                (f, Val::Int((n + k) as i64))
            } else {
                (f, Val::Int(n))
            },
            _ => (f, v),
        },
        Fun::MulPair => match v {
            Val::Pair(a, b) => match (*a, *b) {
                (Val::Int(x), Val::Int(y)) => if i64::MIN <= x * y <= i64::MAX {
                    (f, Val::Int((x * y) as i64))
                } else {
                    (f, Val::Pair(Box::new(Val::Int(x)), Box::new(Val::Int(y))))
                },
                (x, y) => (f, Val::Pair(Box::new(x), Box::new(y))),
            },
            _ => (f, v),
        },
        Fun::CountTo { next, target } => if next < target {
            if next + 1 == target {
                (
                    Fun::CountTo { next: (next + 1) as u32, target },
                    Val::Status(Box::new(LoopStatus::Exit(Box::new(Val::Int(target as i64))))),
                )
            } else {
                (
                    Fun::CountTo { next: (next + 1) as u32, target },
                    Val::Status(Box::new(LoopStatus::Continue)),
                )
            }
        } else {
            (f, Val::Status(Box::new(LoopStatus::Exit(Box::new(Val::Int(target as i64))))))
        },
        Fun::TallyIf { step, acc } => match v {
            Val::Bool(true) => if i64::MIN <= acc + step <= i64::MAX {
                (
                    Fun::TallyIf { step, acc: (acc + step) as i64 },
                    Val::Status(Box::new(LoopStatus::Continue)),
                )
            } else {
                (f, Val::Status(Box::new(LoopStatus::Continue)))
            },
            _ => (f, Val::Status(Box::new(LoopStatus::Exit(Box::new(Val::Int(acc)))))),
        },
        Fun::WrapValue => (f, Val::Prog(Box::new(Process::Value(Value { val: v })))),
    }
}

/// What a gather fold means.
pub open spec fn spec_gather_apply(g: Gather, acc: Val, v: Val) -> Val {
    match g {
        Gather::Sum => match (acc, v) {
            (Val::Int(a), Val::Int(b)) => if i64::MIN <= a + b <= i64::MAX {
                Val::Int((a + b) as i64)
            } else {
                Val::Int(a)
            },
            (a, _) => a,
        },
        Gather::PushBack => match acc {
            Val::List(l) => Val::List(Box::new(spec_list_push(*l, v))),
            a => a,
        },
    }
}

pub fn list_push(l: ValList, v: Val) -> (r: ValList)
    ensures
        r == spec_list_push(l, v),
    decreases l,
{
    match l {
        ValList::Nil => ValList::Cons(Box::new(v), Box::new(ValList::Nil)),
        ValList::Cons(h, t) => ValList::Cons(h, Box::new(list_push(*t, v))),
    }
}

/// Applies a mapping function, returning its successor and the result.
pub fn fun_apply(f: Fun, v: Val) -> (r: (Fun, Val))
    ensures
        r == spec_fun_apply(f, v),
{
    match f {
        Fun::Ident => (Fun::Ident, v),
        Fun::ConstOf(c) => {
            let out = clone_val(&c);
            (Fun::ConstOf(c), out)
        },
        Fun::AddConst(k) => match v {
            Val::Int(n) => {
                let ok: bool = if k >= 0 { n <= i64::MAX - k } else { n >= i64::MIN - k };
                if ok {
                    (Fun::AddConst(k), Val::Int(n + k))
                } else {
                    (Fun::AddConst(k), Val::Int(n))
                }
            },
            other => (Fun::AddConst(k), other),
        },
        Fun::MulPair => match v {
            Val::Pair(a, b) => match (*a, *b) {
                (Val::Int(x), Val::Int(y)) => match x.checked_mul(y) {
                    Some(p) => (Fun::MulPair, Val::Int(p)),
                    None => (Fun::MulPair, Val::Pair(Box::new(Val::Int(x)), Box::new(Val::Int(y)))),
                },
                (x, y) => (Fun::MulPair, Val::Pair(Box::new(x), Box::new(y))),
            },
            other => (Fun::MulPair, other),
        },
        Fun::CountTo { next, target } => if next < target {
            let c: u32 = next + 1;
            if c == target {
                (
                    Fun::CountTo { next: c, target },
                    Val::Status(Box::new(LoopStatus::Exit(Box::new(Val::Int(target as i64))))),
                )
            } else {
                (Fun::CountTo { next: c, target }, Val::Status(Box::new(LoopStatus::Continue)))
            }
        } else {
            (
                Fun::CountTo { next, target },
                Val::Status(Box::new(LoopStatus::Exit(Box::new(Val::Int(target as i64))))),
            )
        },
        Fun::TallyIf { step, acc } => match v {
            Val::Bool(true) => {
                let ok: bool = if step >= 0 { acc <= i64::MAX - step } else { acc >= i64::MIN - step };
                if ok {
                    (
                        Fun::TallyIf { step, acc: acc + step },
                        Val::Status(Box::new(LoopStatus::Continue)),
                    )
                } else {
                    (Fun::TallyIf { step, acc }, Val::Status(Box::new(LoopStatus::Continue)))
                }
            },
            _ => (
                Fun::TallyIf { step, acc },
                Val::Status(Box::new(LoopStatus::Exit(Box::new(Val::Int(acc))))),
            ),
        },
        Fun::WrapValue => (Fun::WrapValue, Val::Prog(Box::new(Process::Value(Value { val: v })))),
    }
}

/// Applies a gather fold to an accumulator and an emitted value.
pub fn gather_apply(g: Gather, acc: Val, v: Val) -> (r: Val)
    ensures
        r == spec_gather_apply(g, acc, v),
{
    match g {
        Gather::Sum => match (acc, v) {
            (Val::Int(a), Val::Int(b)) => {
                let ok: bool = if b >= 0 { a <= i64::MAX - b } else { a >= i64::MIN - b };
                if ok {
                    Val::Int(a + b)
                } else {
                    Val::Int(a)
                }
            },
            (a, _) => a,
        },
        Gather::PushBack => match acc {
            Val::List(l) => Val::List(Box::new(list_push(*l, v))),
            a => a,
        },
    }
}

/// A clone of a value that Verus knows to be equal to the original.
pub fn clone_val(v: &Val) -> (r: Val)
    ensures
        r == *v,
    decreases v,
{
    match v {
        Val::Unit => Val::Unit,
        Val::Int(n) => Val::Int(*n),
        Val::Bool(b) => Val::Bool(*b),
        Val::Pair(a, b) => Val::Pair(Box::new(clone_val(a)), Box::new(clone_val(b))),
        Val::List(l) => Val::List(Box::new(clone_list(l))),
        Val::Status(s) => Val::Status(Box::new(clone_status(s))),
        Val::Prog(p) => Val::Prog(Box::new(crate::process::clone_process(p))),
    }
}

pub fn clone_list(l: &ValList) -> (r: ValList)
    ensures
        r == *l,
    decreases l,
{
    match l {
        ValList::Nil => ValList::Nil,
        ValList::Cons(h, t) => ValList::Cons(Box::new(clone_val(h)), Box::new(clone_list(t))),
    }
}

pub fn clone_status(s: &LoopStatus) -> (r: LoopStatus)
    ensures
        r == *s,
    decreases s,
{
    match s {
        LoopStatus::Continue => LoopStatus::Continue,
        LoopStatus::Exit(v) => LoopStatus::Exit(Box::new(clone_val(v))),
    }
}

pub fn clone_fun(f: &Fun) -> (r: Fun)
    ensures
        r == *f,
    decreases f,
{
    match f {
        Fun::Ident => Fun::Ident,
        Fun::ConstOf(c) => Fun::ConstOf(Box::new(clone_val(c))),
        Fun::AddConst(k) => Fun::AddConst(*k),
        Fun::MulPair => Fun::MulPair,
        Fun::CountTo { next, target } => Fun::CountTo { next: *next, target: *target },
        Fun::TallyIf { step, acc } => Fun::TallyIf { step: *step, acc: *acc },
        Fun::WrapValue => Fun::WrapValue,
    }
}

} // verus!
