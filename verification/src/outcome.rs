//! What a retrieval operation reports when it hands back no page.

use vstd::prelude::*;

verus! {

/// The three ways a retrieval ends without a page of items.
#[derive(Debug, Clone, Copy, PartialEq, Eq, Structural)]
pub enum ReturnAction {
    /// The request failed for good: the transport gave up, or the body could
    /// not be decoded into the expected shape.
    Failed,
    /// The transport failed, the pool has already moved on to the next
    /// server, and the same request may be issued again.
    Retry,
    /// End of results: nothing is known at or after the requested page.
    EOR,
}

} // verus!
