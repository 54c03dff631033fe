use aspect::expansion::{after_result, attempt, attempt_mut, Next};
use aspect::{Advice, Enter, OnResult, OnResultMut};
use std::cell::Cell;

/// Advises `Retry` a given number of times, then `Return`.
struct RetryTimes {
    left: Cell<u32>,
    entered: Cell<u32>,
}

impl RetryTimes {
    fn new(times: u32) -> Self {
        RetryTimes { left: Cell::new(times), entered: Cell::new(0) }
    }
}

impl Enter for RetryTimes {
    type E = ();

    fn enter(&self) {
        self.entered.set(self.entered.get() + 1);
    }
}

impl OnResult<u32> for RetryTimes {
    fn on_result(&self, _enter: (), _result: &u32) -> Advice {
        if self.left.get() == 0 {
            Advice::Return
        } else {
            self.left.set(self.left.get() - 1);
            Advice::Retry
        }
    }
}

/// Halves what it sees and never retries.
struct Halve;

impl Enter for Halve {
    type E = ();

    fn enter(&self) {}
}

impl OnResultMut<u32> for Halve {
    fn on_result(&self, _enter: (), result: u32) -> (Advice, u32) {
        (Advice::Return, result / 2)
    }
}

/// The pattern around an expression that counts its evaluations and yields ten times
/// the count.
fn intercept(aspect: &RetryTimes, evaluations: &Cell<u32>) -> u32 {
    loop {
        let ctx = aspect.enter();
        evaluations.set(evaluations.get() + 1);
        let result = evaluations.get() * 10;
        let advice = <RetryTimes as OnResult<u32>>::on_result(aspect, ctx, &result);
        match after_result(advice, result) {
            Next::Yield(value) => return value,
            Next::Evaluate => {}
        }
    }
}

#[test]
fn return_yields_the_result() {
    assert_eq!(after_result(Advice::Return, 5), Next::Yield(5));
}

#[test]
fn retry_drops_the_result() {
    assert_eq!(after_result(Advice::Retry, 5), Next::<i32>::Evaluate);
}

#[test]
fn always_return_evaluates_once() {
    let aspect = RetryTimes::new(0);
    let evaluations = Cell::new(0);
    let value = intercept(&aspect, &evaluations);
    assert_eq!(evaluations.get(), 1);
    assert_eq!(value, 10);
    assert_eq!(aspect.entered.get(), 1);
}

#[test]
fn one_retry_evaluates_twice() {
    let aspect = RetryTimes::new(1);
    let evaluations = Cell::new(0);
    let value = intercept(&aspect, &evaluations);
    assert_eq!(evaluations.get(), 2);
    assert_eq!(value, 20);
}

#[test]
fn k_retries_evaluate_k_plus_one_times() {
    for k in 0..6u32 {
        let aspect = RetryTimes::new(k);
        let evaluations = Cell::new(0);
        let value = intercept(&aspect, &evaluations);
        assert_eq!(evaluations.get(), k + 1);
        assert_eq!(value, (k + 1) * 10);
        // entered anew before every evaluation
        assert_eq!(aspect.entered.get(), k + 1);
    }
}

#[test]
fn replacing_form_yields_the_replaced_result() {
    let aspect = Halve;
    let ctx = aspect.enter();
    let (advice, result) = aspect.on_result(ctx, 84);
    assert_eq!(after_result(advice, result), Next::Yield(42));
}

#[test]
fn reading_aspect_in_the_replacing_form_retries_alike() {
    let aspect = RetryTimes::new(2);
    let mut evaluations = 0;
    let value = loop {
        let ctx = aspect.enter();
        evaluations += 1;
        let (advice, result) =
            <RetryTimes as OnResultMut<u32>>::on_result(&aspect, ctx, evaluations * 7);
        match after_result(advice, result) {
            Next::Yield(value) => break value,
            Next::Evaluate => {}
        }
    };
    assert_eq!(evaluations, 3);
    assert_eq!(value, 21);
}

#[test]
fn one_pass_enters_evaluates_and_decides() {
    let aspect = RetryTimes::new(1);
    let evaluations = Cell::new(0u32);
    let call = || {
        evaluations.set(evaluations.get() + 1);
        evaluations.get() + 100
    };
    assert_eq!(attempt(&aspect, &call), Next::Evaluate);
    assert_eq!(aspect.entered.get(), 1);
    assert_eq!(evaluations.get(), 1);
    assert_eq!(attempt(&aspect, &call), Next::Yield(102));
    assert_eq!(aspect.entered.get(), 2);
    assert_eq!(evaluations.get(), 2);
}

#[test]
fn passes_until_yield_evaluate_k_plus_one_times() {
    for k in 0..5u32 {
        let aspect = RetryTimes::new(k);
        let evaluations = Cell::new(0u32);
        let call = || {
            evaluations.set(evaluations.get() + 1);
            evaluations.get()
        };
        let value = loop {
            if let Next::Yield(value) = attempt(&aspect, &call) {
                break value;
            }
        };
        assert_eq!(value, k + 1);
        assert_eq!(evaluations.get(), k + 1);
    }
}

#[test]
fn one_pass_with_a_replacing_aspect_yields_what_the_aspect_gave() {
    assert_eq!(attempt_mut(&Halve, &|| 10u32), Next::Yield(5));
    let reading = RetryTimes::new(1);
    assert_eq!(attempt_mut(&reading, &|| 10u32), Next::Evaluate);
    assert_eq!(attempt_mut(&reading, &|| 11u32), Next::Yield(11));
}
