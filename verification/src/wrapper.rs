//! The confinement wrapper: a value, the identity of the thread it belongs
//! to, and the identity check in front of every access.

use crate::error::NotInOriginThread;
use crate::key::ThreadKey;
use vstd::prelude::*;

verus! {

/// What a [`ThreadSafe`] is, as far as contracts are concerned.
pub struct ThreadSafeView<T> {
    /// Identity of the thread that built the wrapper.
    pub origin: u64,
    /// Whether tearing the value down does anything.
    pub needs_finalization: bool,
    /// The confined value.
    pub value: T,
}

impl<T> ThreadSafeView<T> {
    /// Whether `key` names the thread that the value is confined to.
    pub open spec fn admits(self, key: ThreadKey) -> bool {
        key@ == self.origin
    }

    /// The same wrapper around another value.
    pub open spec fn with_value(self, value: T) -> Self {
        ThreadSafeView { value, ..self }
    }

    /// A wrapper just built around `value` on the thread of `key`.
    pub open spec fn fresh(value: T, key: ThreadKey, needs_finalization: bool) -> Self {
        ThreadSafeView { origin: key@, needs_finalization, value }
    }

    /// What asking for the value with `key` gives: the value on the origin
    /// thread, the error on any other.
    pub open spec fn borrow(self, key: ThreadKey) -> Result<T, NotInOriginThread> {
        if self.admits(key) {
            Ok(self.value)
        } else {
            Err(NotInOriginThread)
        }
    }

    /// What taking the value out with `key` gives: the value on the origin
    /// thread, the whole wrapper back on any other.
    pub open spec fn take(self, key: ThreadKey) -> Result<T, Self> {
        if self.admits(key) {
            Ok(self.value)
        } else {
            Err(self)
        }
    }

    /// What release on the thread of `key` asks for.
    pub open spec fn drop_action(self, key: ThreadKey) -> DropAction {
        if !self.needs_finalization {
            DropAction::Forget
        } else if self.admits(key) {
            DropAction::Finalize
        } else {
            DropAction::Abort
        }
    }
}

impl<T: Clone> ThreadSafeView<T> {
    /// Whether `self` is what cloning `source` may give: a clone of the
    /// value, confined to the same thread, with the same teardown flag.
    pub open spec fn is_clone_of(self, source: Self) -> bool {
        &&& self.origin == source.origin
        &&& self.needs_finalization == source.needs_finalization
        &&& cloned(source.value, self.value)
    }
}

/// What has to happen when a wrapper is released.
#[derive(Debug, Copy, Clone, PartialEq, Eq, Structural)]
pub enum DropAction {
    /// The value has no teardown: let go of it, on whichever thread.
    Forget,
    /// The value has teardown and the releasing thread is the origin: run
    /// the teardown, once.
    Finalize,
    /// The value has teardown and the releasing thread is not the origin.
    /// Tearing it down here would be the very use the wrapper forbids, and
    /// nobody is there to take an error: the process must stop.
    Abort,
}

/// A value that only the thread that wrapped it may read, change, take out
/// or tear down.
pub struct ThreadSafe<T> {
    origin_thread: u64,
    handle_drop: bool,
    inner: T,
}

impl<T> View for ThreadSafe<T> {
    type V = ThreadSafeView<T>;

    closed spec fn view(&self) -> ThreadSafeView<T> {
        ThreadSafeView {
            origin: self.origin_thread,
            needs_finalization: self.handle_drop,
            value: self.inner,
        }
    }
}

/// Whether dropping a `T` does anything, as `core::mem::needs_drop` reports
/// it. Nothing is claimed of the answer itself: std documents it as a hint
/// that may say `true` more often than needed.
#[verifier::external_body]
fn needs_drop_of<T>() -> (needed: bool) {
    core::mem::needs_drop::<T>()
}

/// The text that `T`'s `Debug` impl gives for `value`, through `format!`.
/// Nothing is claimed of the text: the impl is the caller's.
#[verifier::external_body]
fn debug_text_of<T: core::fmt::Debug>(value: &T) -> (text: String) {
    format!("{:?}", value)
}

impl<T> ThreadSafe<T> {
    /// The text shown in place of the value to a thread that may not see it.
    pub open spec fn placeholder_text() -> Seq<char> {
        "<not in origin thread>"@
    }

    /// Whether `flag` is the answer that std's `needs_drop` gives for `T`.
    pub closed spec fn teardown_answer(flag: bool) -> bool {
        call_ensures(needs_drop_of::<T>, (), flag)
    }

    /// Wraps `inner`, confined to the thread of `key`. Whether the value has
    /// teardown is asked of std once, here, and kept.
    pub fn new(inner: T, key: ThreadKey) -> (wrapper: ThreadSafe<T>)
        ensures
            wrapper@ == ThreadSafeView::fresh(inner, key, wrapper@.needs_finalization),
            Self::teardown_answer(wrapper@.needs_finalization),
    {
        ThreadSafe { origin_thread: key.id(), handle_drop: needs_drop_of::<T>(), inner }
    }

    /// Identity of the thread that the value is confined to.
    pub fn origin(&self) -> (id: u64)
        ensures
            id == self@.origin,
    {
        self.origin_thread
    }

    /// Whether tearing the value down does anything.
    pub fn needs_finalization(&self) -> (needed: bool)
        ensures
            needed == self@.needs_finalization,
    {
        self.handle_drop
    }

    /// Takes the value out on the origin thread; on any other thread hands
    /// the wrapper back as it was.
    pub fn try_into_inner_with_key(self, key: ThreadKey) -> (result: Result<T, ThreadSafe<T>>)
        ensures
            match result {
                Ok(inner) => self@.take(key) == Ok::<T, ThreadSafeView<T>>(inner),
                Err(wrapper) => wrapper == self && self@.take(key) == Err::<T, ThreadSafeView<T>>(
                    self@,
                ),
            },
    {
        if self.origin_thread == key.id() {
            Ok(self.inner)
        } else {
            Err(self)
        }
    }

    /// Takes the value out. The caller has made sure that this is the origin
    /// thread.
    pub fn into_inner_with_key(self, key: ThreadKey) -> (inner: T)
        requires
            self@.admits(key),
        ensures
            inner == self@.value,
    {
        self.inner
    }

    /// Lends the value on the origin thread; fails on any other.
    pub fn try_get_ref_with_key(&self, key: ThreadKey) -> (result: Result<&T, NotInOriginThread>)
        ensures
            match result {
                Ok(inner) => self@.borrow(key) == Ok::<T, NotInOriginThread>(*inner),
                Err(error) => self@.borrow(key) == Err::<T, NotInOriginThread>(error),
            },
    {
        if self.origin_thread == key.id() {
            Ok(&self.inner)
        } else {
            Err(NotInOriginThread)
        }
    }

    /// Lends the value. The caller has made sure that this is the origin
    /// thread.
    pub fn get_ref_with_key(&self, key: ThreadKey) -> (inner: &T)
        requires
            self@.admits(key),
        ensures
            *inner == self@.value,
    {
        &self.inner
    }

    /// Lends the value for change on the origin thread; fails on any other
    /// and leaves the wrapper as it was. Whatever the borrower writes becomes
    /// the wrapper's value; origin and teardown flag stay.
    pub fn try_get_mut_with_key(&mut self, key: ThreadKey) -> (result: Result<
        &mut T,
        NotInOriginThread,
    >)
        ensures
            match result {
                Ok(inner) => old(self)@.borrow(key) == Ok::<T, NotInOriginThread>(*inner)
                    && final(self)@ == old(self)@.with_value(*final(inner)),
                Err(error) => old(self)@.borrow(key) == Err::<T, NotInOriginThread>(error)
                    && *final(self) == *old(self),
            },
    {
        if self.origin_thread == key.id() {
            Ok(&mut self.inner)
        } else {
            Err(NotInOriginThread)
        }
    }

    /// Lends the value for change. The caller has made sure that this is the
    /// origin thread.
    pub fn get_mut_with_key(&mut self, key: ThreadKey) -> (inner: &mut T)
        requires
            old(self)@.admits(key),
        ensures
            *inner == old(self)@.value,
            final(self)@ == old(self)@.with_value(*final(inner)),
    {
        &mut self.inner
    }

    /// Decides what release on the thread of `key` has to do. The wrapper
    /// itself is not touched.
    pub fn drop_action(&self, key: ThreadKey) -> (action: DropAction)
        ensures
            action == self@.drop_action(key),
    {
        if !self.handle_drop {
            DropAction::Forget
        } else if self.origin_thread == key.id() {
            DropAction::Finalize
        } else {
            DropAction::Abort
        }
    }
}

impl<T: Clone> ThreadSafe<T> {
    /// Clones the value on the origin thread into a new wrapper confined to
    /// that same thread; fails on any other thread.
    pub fn try_clone_with_key(&self, key: ThreadKey) -> (result: Result<
        ThreadSafe<T>,
        NotInOriginThread,
    >)
        ensures
            result is Ok <==> self@.admits(key),
            result is Ok ==> result->Ok_0@.is_clone_of(self@),
    {
        match self.try_get_ref_with_key(key) {
            Ok(inner) => Ok(
                ThreadSafe {
                    origin_thread: self.origin_thread,
                    handle_drop: self.handle_drop,
                    inner: inner.clone(),
                },
            ),
            Err(error) => Err(error),
        }
    }

    /// Clones the value into a new wrapper confined to the same thread. The
    /// caller has made sure that this is the origin thread.
    pub fn clone_with_key(&self, key: ThreadKey) -> (copy: ThreadSafe<T>)
        requires
            self@.admits(key),
        ensures
            copy@.is_clone_of(self@),
    {
        ThreadSafe {
            origin_thread: self.origin_thread,
            handle_drop: self.handle_drop,
            inner: self.get_ref_with_key(key).clone(),
        }
    }
}

impl<T: Default> ThreadSafe<T> {
    /// Wraps `T`'s default value, confined to the thread of `key`.
    pub fn default_with_key(key: ThreadKey) -> (wrapper: ThreadSafe<T>)
        ensures
            wrapper@.origin == key@,
            call_ensures(T::default, (), wrapper@.value),
            Self::teardown_answer(wrapper@.needs_finalization),
    {
        ThreadSafe::new(T::default(), key)
    }
}

impl<T: core::fmt::Debug> ThreadSafe<T> {
    /// Whether `text` is what `T`'s `Debug` impl gave for `value`.
    pub closed spec fn renders_as(value: T, text: String) -> bool {
        call_ensures(debug_text_of::<T>, (&value,), text)
    }

    /// A readable rendering of the wrapper for the thread of `key`: the
    /// value's own rendering on the origin thread, a fixed placeholder on any
    /// other. Asking from the wrong thread is no error here.
    pub fn debug_with_key(&self, key: ThreadKey) -> (text: String)
        ensures
            self@.admits(key) ==> Self::renders_as(self@.value, text),
            !self@.admits(key) ==> text@ == Self::placeholder_text(),
    {
        match self.try_get_ref_with_key(key) {
            Ok(inner) => debug_text_of(inner),
            Err(_) => "<not in origin thread>".to_owned(),
        }
    }
}

} // verus!
