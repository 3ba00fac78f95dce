//! What holds of the wrapper's operations taken together.
//!
//! Each statement is over [`ThreadSafeView`] and the spec functions in which
//! the operations' own contracts are written, so it holds of every wrapper,
//! every value and every pair of threads.

use crate::error::NotInOriginThread;
use crate::key::ThreadKey;
use crate::wrapper::{DropAction, ThreadSafeView};
use vstd::prelude::*;
use vstd::std_specs::cmp::PartialEqSpec;

verus! {

/// A wrapper built around `value` on some thread lends exactly `value` to
/// that thread.
pub proof fn built_then_borrowed_on_origin<T>(value: T, key: ThreadKey, needs_finalization: bool)
    ensures
        ThreadSafeView::fresh(value, key, needs_finalization).borrow(key) == Ok::<
            T,
            NotInOriginThread,
        >(value),
{
}

/// On a thread other than the origin, borrowing fails with the confinement
/// error and taking hands the wrapper back unchanged; the wrapper that came
/// back still gives its value to the origin thread.
pub proof fn foreign_thread_is_refused<T>(
    wrapper: ThreadSafeView<T>,
    origin: ThreadKey,
    foreign: ThreadKey,
)
    requires
        wrapper.admits(origin),
        foreign@ != origin@,
    ensures
        wrapper.borrow(foreign) == Err::<T, NotInOriginThread>(NotInOriginThread),
        wrapper.take(foreign) == Err::<T, ThreadSafeView<T>>(wrapper),
        wrapper.take(foreign)->Err_0.take(origin) == Ok::<T, ThreadSafeView<T>>(wrapper.value),
        wrapper.take(foreign)->Err_0.borrow(origin) == Ok::<T, NotInOriginThread>(wrapper.value),
{
}

/// Taking on the origin thread gives back exactly the value that was wrapped.
pub proof fn built_then_taken_on_origin<T>(value: T, key: ThreadKey, needs_finalization: bool)
    ensures
        ThreadSafeView::fresh(value, key, needs_finalization).take(key) == Ok::<
            T,
            ThreadSafeView<T>,
        >(value),
{
}

/// Release must stop the process exactly when the value has teardown and the
/// releasing thread is not the origin; on the origin thread such a value is
/// torn down.
pub proof fn release_of_value_with_teardown<T>(wrapper: ThreadSafeView<T>, key: ThreadKey)
    ensures
        wrapper.drop_action(key) == DropAction::Abort <==> wrapper.needs_finalization
            && !wrapper.admits(key),
        wrapper.drop_action(key) == DropAction::Finalize <==> wrapper.needs_finalization
            && wrapper.admits(key),
{
}

/// A value without teardown is let go on any thread: release never asks for
/// the process to stop.
pub proof fn release_of_value_without_teardown<T>(wrapper: ThreadSafeView<T>, key: ThreadKey)
    requires
        !wrapper.needs_finalization,
    ensures
        wrapper.drop_action(key) == DropAction::Forget,
{
}

/// A clone is confined to the thread of its source, not to a thread of its
/// own: it admits the keys that the source admits and no others, and release
/// asks the same of both.
pub proof fn clone_keeps_origin<T: Clone>(
    source: ThreadSafeView<T>,
    copy: ThreadSafeView<T>,
    key: ThreadKey,
)
    requires
        copy.is_clone_of(source),
    ensures
        copy.origin == source.origin,
        copy.admits(key) <==> source.admits(key),
        copy.drop_action(key) == source.drop_action(key),
{
}

/// Two keys are equal exactly when they record the same identity: keys for
/// one thread agree, keys for two threads differ.
pub proof fn key_equality_is_identity_equality(a: ThreadKey, b: ThreadKey)
    ensures
        a.eq_spec(&b) <==> a@ == b@,
{
}

} // verus!
