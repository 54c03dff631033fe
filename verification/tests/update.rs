use aspect::update::{Update, UpdateRef};

struct Doubler;

impl<'a> Update<&'a mut u64> for Doubler {
    fn update(t: &'a mut u64) -> &'a mut u64 {
        Doubler::update_ref(t);
        t
    }
}

// Can also be implemented on reference types
impl UpdateRef<u64> for Doubler {
    fn update_ref(t: &mut u64) {
        (*t) *= 2;
    }
}

fn intercepted(foo: u64) -> u64 {
    foo + 2
}

fn intercepted_ref(foo: &mut u64) {
    (*foo) += 2
}

fn shadowing_intercepted(foo: u64) -> u64 {
    // Use shadowing to update a value and guarantee its type
    let foo = <Doubler as Update<_>>::update(foo);
    intercepted(foo)
}

fn shadowing_intercepted_ref(foo: &mut u64) {
    // Use shadowing to update a value and guarantee its type
    let foo = <Doubler as Update<_>>::update(foo);
    intercepted_ref(foo)
}

#[test]
fn test() {
    let mut v = 42;
    let r = shadowing_intercepted(v);
    assert_eq!(r, 86);

    shadowing_intercepted_ref(&mut v);
    assert_eq!(v, 86);
}

#[test]
fn by_value_and_by_reference_double_alike() {
    let by_value = <Doubler as Update<u64>>::update(42);
    assert_eq!(by_value, 84);

    let mut by_reference: u64 = 42;
    <Doubler as UpdateRef<u64>>::update_ref(&mut by_reference);
    assert_eq!(by_reference, 84);
    assert_eq!(by_value, by_reference);
}

#[test]
fn updating_twice_by_value_doubles_twice() {
    let once = <Doubler as Update<u64>>::update(42);
    let twice = <Doubler as Update<u64>>::update(once);
    assert_eq!(twice, 168);

    let mut in_place: u64 = 42;
    <Doubler as UpdateRef<u64>>::update_ref(&mut in_place);
    <Doubler as UpdateRef<u64>>::update_ref(&mut in_place);
    assert_eq!(in_place, 168);
}

#[test]
fn update_of_zero_stays_zero() {
    assert_eq!(<Doubler as Update<u64>>::update(0), 0);
}

struct Trimmer;

impl UpdateRef<String> for Trimmer {
    fn update_ref(t: &mut String) {
        let trimmed = t.trim().to_string();
        *t = trimmed;
    }
}

#[test]
fn update_by_value_works_on_owned_values() {
    let updated = <Trimmer as Update<String>>::update("  padded ".to_string());
    assert_eq!(updated, "padded");
}
