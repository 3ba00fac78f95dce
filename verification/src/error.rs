//! The one recoverable failure: an access from a thread that is not the origin.

use vstd::prelude::*;

verus! {

/// Marker for "the asking thread is not the thread the value belongs to".
///
/// It carries no data: the caller already knows which operation it tried.
#[derive(Debug, Copy, Clone, Default, PartialEq, Eq, PartialOrd, Ord, Hash, Structural)]
pub struct NotInOriginThread;

impl NotInOriginThread {
    /// The fixed text that describes this error.
    pub open spec fn message_text() -> Seq<char> {
        "Attempted to use ThreadSafe<_> outside of its origin thread"@
    }

    /// The description of this error, for display.
    pub fn message(&self) -> (text: String)
        ensures
            text@ == Self::message_text(),
    {
        "Attempted to use ThreadSafe<_> outside of its origin thread".to_owned()
    }
}

} // verus!
