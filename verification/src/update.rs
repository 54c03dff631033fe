//! Updating a value while its type stays the same.
//!
//! An aspect that shadows a parameter with its updated value cannot change the
//! parameter's type: `update` gives back what it was given.

use vstd::prelude::*;

verus! {

/// Updates a value and gives back one of the same type.
///
/// `update` is taken to be a function of its argument; `updated` names that function. An
/// implementation that is verified gives `updated` its body.
pub trait Update<T> {
    /// What `update` gives back for `t`.
    open spec fn updated(t: T) -> T {
        arbitrary()
    }

    /// Updates a value.
    fn update(t: T) -> (r: T)
        ensures
            r == Self::updated(t),
    ;
}

/// Updates a value in place.
///
/// `update_ref` is taken to be a function of the value it finds; `updated_ref` names
/// that function. An implementation that is verified gives `updated_ref` its body.
pub trait UpdateRef<T> {
    /// What `update_ref` leaves in place of `t`.
    open spec fn updated_ref(t: T) -> T {
        arbitrary()
    }

    /// Updates a value by reference.
    fn update_ref(t: &mut T)
        ensures
            *final(t) == Self::updated_ref(*old(t)),
    ;
}

/// Whatever updates in place also updates by value: it updates its own copy and gives
/// that back.
impl<T, U: UpdateRef<T>> Update<T> for U {
    open spec fn updated(t: T) -> T {
        U::updated_ref(t)
    }

    fn update(t: T) -> (r: T) {
        let mut t = t;
        U::update_ref(&mut t);
        t
    }
}

/// Updating by value through an in-place update gives the value that the in-place update
/// leaves behind, also when it is done twice.
pub proof fn update_agrees_with_update_ref<T, U: UpdateRef<T>>(t: T)
    ensures
        <U as Update<T>>::updated(t) == <U as UpdateRef<T>>::updated_ref(t),
        <U as Update<T>>::updated(<U as Update<T>>::updated(t)) == <U as UpdateRef<
            T,
        >>::updated_ref(<U as UpdateRef<T>>::updated_ref(t)),
{
}

} // verus!
