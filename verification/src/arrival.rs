//! What a consumer's single wait resolves to.

use vstd::prelude::*;

verus! {

/// A bounded wait on a channel ended without an item.
#[verifier::external_type_specification]
#[verifier::external_body]
pub struct ExElapsed(tokio::time::error::Elapsed);

/// The one thing that ended a consumer's wait: the next item of its channel,
/// the flush timeout, or the channel's closing.
#[derive(Clone, Debug, PartialEq, Eq)]
pub enum Arrival<T> {
    /// The channel handed over its next item.
    Item(T),
    /// No item came within the timeout.
    Timeout,
    /// Every sender is gone and the channel is drained.
    Closed,
}

impl<T> Arrival<T> {
    /// Whether the wait ended without an item.
    pub open spec fn is_quiet(self) -> bool {
        !(self is Item)
    }

    /// The arrival that a receive under a timeout resolved to.
    pub open spec fn of_wait(waited: Result<Option<T>, tokio::time::error::Elapsed>) -> Arrival<T> {
        match waited {
            Ok(Some(item)) => Arrival::Item(item),
            Ok(None) => Arrival::Closed,
            Err(_) => Arrival::Timeout,
        }
    }

    /// Reads the result of a receive raced against a timeout: an item, the
    /// end of the channel, or the timeout itself.
    pub fn from_wait(waited: Result<Option<T>, tokio::time::error::Elapsed>) -> (arrival: Arrival<T>)
        ensures
            arrival == Self::of_wait(waited),
    {
        match waited {
            Ok(Some(item)) => Arrival::Item(item),
            Ok(None) => Arrival::Closed,
            Err(_) => Arrival::Timeout,
        }
    }
}

} // verus!
