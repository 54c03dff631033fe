//! The control structure that wraps an expression: enter, evaluate, notify, and either
//! yield the result or start over.
//!
//! The caller evaluates the expression and calls the aspect; what happens after each
//! answer of the aspect is decided here.

use crate::pointcut::{adapt_on_result, Advice, Enter, OnResult, OnResultMut};
use vstd::prelude::*;

verus! {

/// What the pattern does once the exit hook has answered.
#[derive(Debug, PartialEq, Eq)]
pub enum Next<R> {
    /// Stop and hand this value to the caller.
    Yield(R),
    /// Enter again and evaluate the expression once more.
    Evaluate,
}

/// What follows an answer of the exit hook: `Return` yields the result, `Retry` drops it.
pub open spec fn next<R>(advice: Advice, result: R) -> Next<R> {
    match advice {
        Advice::Return => Next::Yield(result),
        Advice::Retry => Next::Evaluate,
    }
}

/// Decides what follows an answer of the exit hook.
pub fn after_result<R>(advice: Advice, result: R) -> (step: Next<R>)
    ensures
        step == next(advice, result),
{
    match advice {
        Advice::Return => Next::Yield(result),
        Advice::Retry => Next::Evaluate,
    }
}

/// Whether a pass around `expr` with an aspect that only reads results may go so: `enter`
/// gives the context, the call gives `result`, and the exit hook, told both, gives `advice`.
pub open spec fn reading_pass<R, A: OnResult<R>, F: Fn() -> R>(
    aspect: &A,
    expr: &F,
    enter: <A as Enter>::E,
    result: R,
    advice: Advice,
) -> bool {
    &&& call_ensures(<A as Enter>::enter, (aspect,), enter)
    &&& call_ensures(*expr, (), result)
    &&& call_ensures(<A as OnResult<R>>::on_result, (aspect, enter, &result), advice)
}

/// Whether a pass around `expr` with an aspect that may replace results may go so: `enter`
/// gives the context, the call gives `result`, and the exit hook, given both, gives `out`.
pub open spec fn replacing_pass<R, A: OnResultMut<R>, F: Fn() -> R>(
    aspect: &A,
    expr: &F,
    enter: <A as Enter>::E,
    result: R,
    out: (Advice, R),
) -> bool {
    &&& call_ensures(<A as Enter>::enter, (aspect,), enter)
    &&& call_ensures(*expr, (), result)
    &&& call_ensures(<A as OnResultMut<R>>::on_result, (aspect, enter, result), out)
}

/// One pass of the pattern around a call, with an aspect that only reads results: enter,
/// evaluate, notify, decide. What comes out is what follows the advice that the aspect gave
/// for the result of the call; a value that is yielded is that result.
pub fn attempt<R, A: OnResult<R>, F: Fn() -> R>(aspect: &A, expr: &F) -> (step: Next<R>)
    requires
        call_requires(*expr, ()),
    ensures
        exists|enter: <A as Enter>::E, result: R, advice: Advice|
            #[trigger] reading_pass(aspect, expr, enter, result, advice) && step == next(
                advice,
                result,
            ),
        step matches Next::Yield(value) ==> call_ensures(*expr, (), value),
{
    let enter = aspect.enter();
    let result = expr();
    let (advice, result) = adapt_on_result(aspect, enter, result);
    assert(reading_pass(aspect, expr, enter, result, advice));
    after_result(advice, result)
}

/// One pass of the pattern around a call, with an aspect that may replace results: enter,
/// evaluate, notify, decide. What comes out is what follows the advice that the aspect
/// gave; a value that is yielded is the one that the aspect gave with it.
pub fn attempt_mut<R, A: OnResultMut<R>, F: Fn() -> R>(aspect: &A, expr: &F) -> (step: Next<R>)
    requires
        call_requires(*expr, ()),
    ensures
        exists|enter: <A as Enter>::E, result: R, out: (Advice, R)|
            #[trigger] replacing_pass(aspect, expr, enter, result, out) && step == next(
                out.0,
                out.1,
            ),
{
    let enter = aspect.enter();
    let result = expr();
    let out = <A as OnResultMut<R>>::on_result(aspect, enter, result);
    assert(replacing_pass(aspect, expr, enter, result, out));
    after_result(out.0, out.1)
}

/// A run of the pattern in which the evaluations give `outcomes`, each a result with the
/// advice that the exit hook gives for it: the number of evaluations made and the value
/// yielded. `None` where the outcomes end before the exit hook advises `Return`.
pub open spec fn run<R>(outcomes: Seq<(Advice, R)>) -> Option<(nat, R)>
    decreases outcomes.len(),
{
    if outcomes.len() == 0 {
        None
    } else {
        match next(outcomes[0].0, outcomes[0].1) {
            Next::Yield(value) => Some((1, value)),
            Next::Evaluate => match run(outcomes.skip(1)) {
                Some((evaluations, value)) => Some((evaluations + 1, value)),
                None => None,
            },
        }
    }
}

/// With an exit hook that always advises `Return`, the expression is evaluated once and
/// its value is the one yielded.
pub proof fn always_return_evaluates_once<R>(outcomes: Seq<(Advice, R)>)
    requires
        outcomes.len() > 0,
        forall|i: int| 0 <= i < outcomes.len() ==> (#[trigger] outcomes[i]).0 == Advice::Return,
    ensures
        run(outcomes) == Some((1nat, outcomes[0].1)),
{
}

/// With an exit hook that advises `Retry` `k` times and then `Return`, the expression is
/// evaluated `k + 1` times and the value of the last evaluation is the one yielded.
pub proof fn retries_then_return<R>(outcomes: Seq<(Advice, R)>, k: nat)
    requires
        k < outcomes.len(),
        forall|i: int| 0 <= i < k ==> (#[trigger] outcomes[i]).0 == Advice::Retry,
        outcomes[k as int].0 == Advice::Return,
    ensures
        run(outcomes) == Some(((k + 1) as nat, outcomes[k as int].1)),
    decreases k,
{
    if k > 0 {
        let rest = outcomes.skip(1);
        assert forall|i: int| 0 <= i < k - 1 implies (#[trigger] rest[i]).0 == Advice::Retry by {
            assert(rest[i] == outcomes[i + 1]);
        }
        assert(rest[k - 1] == outcomes[k as int]);
        retries_then_return(rest, (k - 1) as nat);
        assert(outcomes[0].0 == Advice::Retry);
    }
}

} // verus!
