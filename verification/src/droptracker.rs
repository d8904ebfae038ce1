//! A wrapper that counts, in a shared counter, how often its values are
//! dropped.

use vstd::prelude::*;

verus! {

#[verifier::external_type_specification]
#[verifier::external_body]
#[verifier::reject_recursive_types(T)]
pub struct ExRefCell<T: ?Sized>(core::cell::RefCell<T>);

/// One more dropped value, stopping at the counter's ceiling.
fn next_count(count: i32) -> (r: i32)
    ensures
        count < i32::MAX ==> r == count + 1,
        count == i32::MAX ==> r == count,
    opens_invariants none
    no_unwind
{
    if count < i32::MAX {
        count + 1
    } else {
        count
    }
}

/// Relies on core::cell::RefCell::try_borrow: a copy of the shared count,
/// or nothing when the cell is held exclusively. Never panics.
#[verifier::external_body]
fn read_count(counter: &std::rc::Rc<core::cell::RefCell<i32>>) -> (r: Option<i32>)
    opens_invariants none
    no_unwind
{
    match counter.try_borrow() {
        Ok(count) => Some(*count),
        Err(_) => None,
    }
}

/// Relies on core::cell::RefCell::try_borrow_mut: stores the given count
/// in the shared cell, or leaves the cell alone and reports false when it
/// is held. Never panics.
#[verifier::external_body]
fn write_count(counter: &std::rc::Rc<core::cell::RefCell<i32>>, count: i32) -> (r: bool)
    opens_invariants none
    no_unwind
{
    match counter.try_borrow_mut() {
        Ok(mut current) => {
            *current = count;
            true
        },
        Err(_) => false,
    }
}

/// Holds a value of type `T` and, every time one of these wrappers is
/// dropped, adds one to the shared counter it was created with.
pub struct DropTracker<T> {
    value: T,
    counter: std::rc::Rc<core::cell::RefCell<i32>>,
}

impl<T> View for DropTracker<T> {
    type V = T;

    closed spec fn view(&self) -> T {
        self.value
    }
}

impl<T> DropTracker<T> {
    /// Tracks `value`; dropping the tracker will bump `counter`. The
    /// counter's contents sit in a shared cell and are not modelled;
    /// construction itself does not touch them.
    pub fn new(value: T, counter: std::rc::Rc<core::cell::RefCell<i32>>) -> (r: Self)
        ensures
            r@ == value,
    {
        Self { value, counter }
    }
}

impl<T> Drop for DropTracker<T> {
    /// Reads the shared count, bumps it, and writes it back, each cell
    /// access through its trusted wrapper. A drop that finds the cell
    /// held by the caller leaves the count as it is rather than
    /// unwinding.
    fn drop(&mut self)
        opens_invariants none
        no_unwind
    {
        match read_count(&self.counter) {
            Some(count) => {
                let _ = write_count(&self.counter, next_count(count));
            },
            None => {},
        }
    }
}

} // verus!
