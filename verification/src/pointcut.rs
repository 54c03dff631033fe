//! The pointcut protocol between a wrapped expression and the aspect that observes it.

use vstd::prelude::*;

verus! {

/// What an aspect asks for once the wrapped expression has returned.
#[derive(Clone, Copy, PartialEq, Eq, Debug, Structural)]
pub enum Advice {
    /// Hand the value of the expression to the caller.
    Return,
    /// Evaluate the expression again.
    Retry,
}

/// Called on entry into an aspect, before the wrapped expression is evaluated.
pub trait Enter {
    /// What `enter` hands over to the exit hook.
    type E;

    /// Sets up the context of one evaluation. It is called anew before every evaluation.
    fn enter(&self) -> Self::E;
}

/// Notified when the wrapped expression has returned; sees the result but cannot change it.
pub trait OnResult<R>: Enter {
    /// Called with what `enter` returned and with the result of the expression.
    ///
    /// By default it asks `leave_scope`.
    fn on_result(&self, enter: <Self as Enter>::E, _result: &R) -> (advice: Advice)
        default_ensures
            call_ensures(<Self as OnResult<R>>::leave_scope, (self, enter), advice),
    {
        self.leave_scope(enter)
    }

    /// Called when the expression was left without a result.
    ///
    /// By default the advice is `Return`.
    fn leave_scope(&self, _enter: <Self as Enter>::E) -> (advice: Advice)
        default_ensures
            advice == Advice::Return,
    {
        Advice::Return
    }
}

/// Notified when the wrapped expression has returned; may replace the result.
pub trait OnResultMut<R>: Enter {
    /// Called with what `enter` returned and with the result of the expression; gives the
    /// advice and the result that the caller is to see.
    ///
    /// By default it asks `leave_scope` and keeps the result.
    fn on_result(&self, enter: <Self as Enter>::E, result: R) -> (out: (Advice, R))
        default_ensures
            out.1 == result,
            call_ensures(<Self as OnResultMut<R>>::leave_scope, (self, enter), out.0),
    {
        let advice = self.leave_scope(enter);
        (advice, result)
    }

    /// Called when the expression was left without a result.
    ///
    /// By default the advice is `Return`.
    fn leave_scope(&self, _enter: <Self as Enter>::E) -> (advice: Advice)
        default_ensures
            advice == Advice::Return,
    {
        Advice::Return
    }
}

/// Notifies an aspect that only reads results, and hands the result back as it came: the
/// advice is one that the aspect's `on_result` gave for that result.
pub fn adapt_on_result<R, A: OnResult<R>>(aspect: &A, enter: <A as Enter>::E, result: R) -> (out: (
    Advice,
    R,
))
    ensures
        out.1 == result,
        call_ensures(<A as OnResult<R>>::on_result, (aspect, enter, &result), out.0),
{
    let advice = <A as OnResult<R>>::on_result(aspect, enter, &result);
    (advice, result)
}

/// The hooks of an aspect that only reads results, under names of their own.
///
/// `OnResult` and `OnResultMut` call their hooks alike; where an aspect has both forms,
/// these names say which one is meant. Every aspect that has `OnResult` has this trait.
pub trait Observe<R>: Enter {
    /// What `OnResult::on_result` is for the aspect.
    fn observe_result(&self, enter: <Self as Enter>::E, result: &R) -> (advice: Advice);

    /// What `OnResult::leave_scope` is for the aspect.
    fn observe_leave(&self, enter: <Self as Enter>::E) -> (advice: Advice);
}

impl<R, A: OnResult<R>> Observe<R> for A {
    fn observe_result(&self, enter: <Self as Enter>::E, result: &R) -> (advice: Advice)
        ensures
            call_ensures(<A as OnResult<R>>::on_result, (self, enter, result), advice),
    {
        <A as OnResult<R>>::on_result(self, enter, result)
    }

    fn observe_leave(&self, enter: <Self as Enter>::E) -> (advice: Advice)
        ensures
            call_ensures(<A as OnResult<R>>::leave_scope, (self, enter), advice),
    {
        <A as OnResult<R>>::leave_scope(self, enter)
    }
}

/// Every aspect that reads results is also one that may replace them, and replaces none.
impl<R, A: Observe<R>> OnResultMut<R> for A {
    fn on_result(&self, enter: <Self as Enter>::E, result: R) -> (out: (Advice, R))
        ensures
            out.1 == result,
            call_ensures(<A as Observe<R>>::observe_result, (self, enter, &result), out.0),
    {
        let advice = <A as Observe<R>>::observe_result(self, enter, &result);
        (advice, result)
    }

    fn leave_scope(&self, enter: <Self as Enter>::E) -> (advice: Advice)
        ensures
            call_ensures(<A as Observe<R>>::observe_leave, (self, enter), advice),
    {
        <A as Observe<R>>::observe_leave(self, enter)
    }
}

} // verus!
