//! The identity token that every access to a confined value presents.

use vstd::prelude::*;

verus! {

/// The identity of one thread, presented as evidence of "this is the thread
/// that is running now".
///
/// A key is a cheap value: it can be copied, compared and hashed. Two keys are
/// equal exactly when they record the same identity. A key owns nothing, and
/// it can be neither sent to nor shared with another thread.
///
/// The library takes a key at its word. Whoever builds one with
/// [`ThreadKey::new`] answers for using it only on the thread whose identity
/// it records.
#[derive(Debug, Copy, Clone, Eq, Hash)]
pub struct ThreadKey {
    id: u64,
    // keeps a key from being sent to, or shared with, another thread
    not_send: core::marker::PhantomData<std::rc::Rc<()>>,
}

impl View for ThreadKey {
    type V = u64;

    /// A key is its identity and nothing else.
    closed spec fn view(&self) -> u64 {
        self.id
    }
}

impl ThreadKey {
    /// Builds a key for the identity `id` without checking that the calling
    /// thread has that identity.
    pub fn new(id: u64) -> (key: ThreadKey)
        ensures
            key@ == id,
    {
        ThreadKey { id, not_send: core::marker::PhantomData }
    }

    /// The identity that this key records.
    pub fn id(self) -> (id: u64)
        ensures
            id == self@,
    {
        self.id
    }
}

impl PartialEq for ThreadKey {
    /// Keys compare by the identity they record.
    fn eq(&self, other: &ThreadKey) -> (equal: bool) {
        self.id == other.id
    }
}

impl vstd::std_specs::cmp::PartialEqSpecImpl for ThreadKey {
    open spec fn obeys_eq_spec() -> bool {
        true
    }

    open spec fn eq_spec(&self, other: &ThreadKey) -> bool {
        self@ == other@
    }
}

impl From<ThreadKey> for u64 {
    fn from(key: ThreadKey) -> (id: u64) {
        key.id
    }
}

impl vstd::std_specs::convert::FromSpecImpl<ThreadKey> for u64 {
    open spec fn obeys_from_spec() -> bool {
        true
    }

    open spec fn from_spec(key: ThreadKey) -> u64 {
        key@
    }
}

} // verus!
