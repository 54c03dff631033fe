//! Lists of shared values.

use std::rc::Rc;
use vstd::prelude::*;

verus! {

/// The values that a sequence of shared pointers points to.
pub open spec fn values<T>(list: Seq<Rc<T>>) -> Seq<T> {
    list.map_values(|value: Rc<T>| *value)
}

/// Another list of pointers to the same values.
pub fn share_all<T>(list: &Vec<Rc<T>>) -> (shared: Vec<Rc<T>>)
    ensures
        shared@ == list@,
{
    let mut shared: Vec<Rc<T>> = Vec::new();
    let mut i: usize = 0;
    while i < list.len()
        invariant
            i <= list.len(),
            shared@ == list@.take(i as int),
        decreases list.len() - i,
    {
        shared.push(list[i].clone());
        assert(list@.take(i + 1) == list@.take(i as int).push(list@[i as int]));
        i = i + 1;
    }
    assert(list@.take(list.len() as int) == list@);
    shared
}

} // verus!
