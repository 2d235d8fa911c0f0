//! The per-thread re-entrancy guard.
//!
//! Each thread owns one flag that says whether it is inside a guarded
//! callback. The flag sits in a `Cell` because the callback itself may enter
//! the guard again (through an allocation it makes) while the outer call still
//! holds a reference to it.

use std::cell::Cell;
use vstd::prelude::*;

verus! {

/// std's `Cell`, opaque here: its content can change behind a shared reference.
#[verifier::external_type_specification]
#[verifier::external_body]
#[verifier::reject_recursive_types(T)]
pub struct ExCell<T: ?Sized>(Cell<T>);

/// Relies on `Cell::replace`: stores the new value and hands back the old one.
pub assume_specification<T>[ Cell::<T>::replace ](cell: &Cell<T>, val: T) -> T;

/// Lowers the flag when dropped, so that a callback that unwinds still leaves
/// its thread unguarded.
struct Release<'a> {
    flag: &'a Cell<bool>,
}

impl Drop for Release<'_> {
    /// Relies on `Cell::set`, which stores `false` and cannot fail for a `bool`.
    #[verifier::external_body]
    fn drop(&mut self)
        opens_invariants none
        no_unwind
    {
        self.flag.set(false);
    }
}

/// Runs `f` unless the thread whose flag is `guard` is already inside a guarded
/// callback. A nested call is dropped: it neither runs nor waits. The flag is
/// raised while `f` runs and lowered when `f` returns or unwinds.
///
/// Returns whether `f` ran; when it did, `f` met its own postcondition.
pub fn run_guarded<F: FnOnce()>(guard: &Cell<bool>, f: F) -> (ran: bool)
    requires
        f.requires(()),
    ensures
        ran ==> f.ensures((), ()),
{
    let was_active = guard.replace(true);
    run_unless_active(was_active, guard, f)
}

/// The decision of `run_guarded` once the flag `guard` has been raised, where
/// `was_active` is what the flag held before: `f` runs exactly when the thread
/// was not yet inside a guarded callback, and the flag is then lowered when `f`
/// returns or unwinds. An active flag is left as it is, and `f` is not called:
/// it need not even be callable then.
pub fn run_unless_active<F: FnOnce()>(was_active: bool, guard: &Cell<bool>, f: F) -> (ran: bool)
    requires
        !was_active ==> f.requires(()),
    ensures
        ran == !was_active,
        ran ==> f.ensures((), ()),
{
    if was_active {
        false
    } else {
        let _release = Release { flag: guard };
        f();
        true
    }
}

} // verus!
