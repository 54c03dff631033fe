use aspect::pointcut::{adapt_on_result, Observe};
use aspect::{Advice, Enter, OnResult, OnResultMut};
use std::cell::Cell;

/// Uses every default.
struct Silent;

impl Enter for Silent {
    type E = ();

    fn enter(&self) {}
}

impl OnResult<u32> for Silent {}

/// Counts how often it was entered and hands the count to the exit hook.
struct Counting {
    entered: Cell<u32>,
    seen: Cell<u32>,
}

impl Enter for Counting {
    type E = u32;

    fn enter(&self) -> u32 {
        self.entered.set(self.entered.get() + 1);
        self.entered.get()
    }
}

impl OnResult<u32> for Counting {
    fn leave_scope(&self, enter: u32) -> Advice {
        self.seen.set(enter);
        if enter < 2 {
            Advice::Retry
        } else {
            Advice::Return
        }
    }
}

/// Clamps results to ten.
struct Clamp;

impl Enter for Clamp {
    type E = ();

    fn enter(&self) {}
}

impl OnResultMut<u32> for Clamp {
    fn on_result(&self, _enter: (), result: u32) -> (Advice, u32) {
        (Advice::Return, result.min(10))
    }
}

/// Replaces nothing and overrides nothing.
struct Lazy;

impl Enter for Lazy {
    type E = ();

    fn enter(&self) {}
}

impl OnResultMut<String> for Lazy {}

#[test]
fn default_on_result_advises_return() {
    let aspect = Silent;
    let ctx = aspect.enter();
    assert_eq!(<Silent as OnResult<u32>>::on_result(&aspect, ctx, &7), Advice::Return);
}

#[test]
fn default_leave_scope_advises_return() {
    let aspect = Silent;
    let ctx = aspect.enter();
    assert_eq!(<Silent as OnResult<u32>>::leave_scope(&aspect, ctx), Advice::Return);
}

#[test]
fn default_on_result_asks_leave_scope() {
    let aspect = Counting { entered: Cell::new(0), seen: Cell::new(0) };
    let ctx = aspect.enter();
    assert_eq!(<Counting as OnResult<u32>>::on_result(&aspect, ctx, &5), Advice::Retry);
    assert_eq!(aspect.seen.get(), 1);
    let ctx = aspect.enter();
    assert_eq!(<Counting as OnResult<u32>>::on_result(&aspect, ctx, &5), Advice::Return);
    assert_eq!(aspect.seen.get(), 2);
}

#[test]
fn reading_aspect_is_a_replacing_aspect_that_keeps_the_result() {
    let aspect = Counting { entered: Cell::new(0), seen: Cell::new(0) };
    let ctx = aspect.enter();
    let (advice, result) = <Counting as OnResultMut<u32>>::on_result(&aspect, ctx, 41);
    assert_eq!(advice, Advice::Retry);
    assert_eq!(result, 41);
    let ctx = aspect.enter();
    let (advice, result) = <Counting as OnResultMut<u32>>::on_result(&aspect, ctx, 42);
    assert_eq!(advice, Advice::Return);
    assert_eq!(result, 42);
}

#[test]
fn reading_aspect_leaves_scope_alike_in_both_forms() {
    let aspect = Counting { entered: Cell::new(5), seen: Cell::new(0) };
    assert_eq!(<Counting as OnResultMut<u32>>::leave_scope(&aspect, 1), Advice::Retry);
    assert_eq!(<Counting as OnResultMut<u32>>::leave_scope(&aspect, 2), Advice::Return);
    assert_eq!(<Counting as OnResult<u32>>::leave_scope(&aspect, 1), Advice::Retry);
}

#[test]
fn adapter_hands_the_result_back() {
    let aspect = Silent;
    let (advice, result) = adapt_on_result(&aspect, (), 99u32);
    assert_eq!(advice, Advice::Return);
    assert_eq!(result, 99);
}

#[test]
fn replacing_aspect_may_replace_the_result() {
    let aspect = Clamp;
    assert_eq!(aspect.on_result((), 25), (Advice::Return, 10));
    assert_eq!(aspect.on_result((), 3), (Advice::Return, 3));
    assert_eq!(aspect.leave_scope(()), Advice::Return);
}

#[test]
fn default_replacing_aspect_keeps_the_result() {
    let aspect = Lazy;
    let (advice, result) = aspect.on_result((), "kept".to_string());
    assert_eq!(advice, Advice::Return);
    assert_eq!(result, "kept");
}

#[test]
fn adapter_gives_the_advice_of_the_reading_hook() {
    let aspect = Counting { entered: Cell::new(0), seen: Cell::new(0) };
    assert_eq!(adapt_on_result(&aspect, 1, 8u32), (Advice::Retry, 8));
    assert_eq!(adapt_on_result(&aspect, 2, 9u32), (Advice::Return, 9));
    assert_eq!(aspect.seen.get(), 2);
}

#[test]
fn observing_asks_the_reading_hooks() {
    let aspect = Counting { entered: Cell::new(0), seen: Cell::new(0) };
    assert_eq!(<Counting as Observe<u32>>::observe_result(&aspect, 1, &5), Advice::Retry);
    assert_eq!(aspect.seen.get(), 1);
    assert_eq!(<Counting as Observe<u32>>::observe_result(&aspect, 3, &5), Advice::Return);
    assert_eq!(aspect.seen.get(), 3);
    assert_eq!(<Counting as Observe<u32>>::observe_leave(&aspect, 1), Advice::Retry);
    assert_eq!(<Counting as Observe<u32>>::observe_leave(&aspect, 4), Advice::Return);
    assert_eq!(aspect.seen.get(), 4);
    assert_eq!(<Silent as Observe<u32>>::observe_result(&Silent, (), &1), Advice::Return);
}

/// Replaces nothing, but asks for another evaluation whenever it is left.
struct Stubborn;

impl Enter for Stubborn {
    type E = ();

    fn enter(&self) {}
}

impl OnResultMut<i32> for Stubborn {
    fn leave_scope(&self, _enter: ()) -> Advice {
        Advice::Retry
    }
}

#[test]
fn default_replacing_hook_takes_its_advice_from_leave_scope() {
    assert_eq!(Stubborn.on_result((), 5), (Advice::Retry, 5));
}
