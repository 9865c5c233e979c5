//! Error kinds that a watch can surface to its caller.

use vstd::prelude::*;

verus! {

/// Every way a watch can fail. None of these is silently swallowed: each is
/// surfaced to the caller as a failed outcome.
#[derive(Clone, Copy, Debug, PartialEq, Eq, Structural)]
pub enum ErrorKind {
    /// The baseline metric was not positive, so no meaningful verdict exists.
    InvalidBaseline,
    /// The subscription to the watched account could not be established.
    SubscriptionError,
    /// The observation stream failed mid-watch.
    StreamError,
    /// The observation stream ended without any firing verdict.
    StreamClosed,
    /// The downstream exit action ran and reported failure.
    TriggerError,
    /// The balance lookup or credential loading failed before watching began.
    PreconditionError,
}

} // verus!
