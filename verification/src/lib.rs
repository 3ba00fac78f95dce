//! Thread-confined values inside aggregates that travel between threads.
//!
//! A [`ThreadSafe`] holds a value together with the identity of the thread
//! that created it. Every operation that would touch the value takes a
//! [`ThreadKey`], the identity of the thread that asks, and goes ahead only
//! when the two identities agree. Nothing here locks, blocks or hands the
//! value from one thread to another.
//!
//! A thread identity is a `u64`. The caller obtains one number per thread and
//! wraps it in a key; the library never looks up the running thread itself.

pub mod error;
pub mod key;
pub mod laws;
pub mod wrapper;

pub use error::NotInOriginThread;
pub use key::ThreadKey;
pub use wrapper::{DropAction, ThreadSafe, ThreadSafeView};
