//! A model of the subscription handle: a resource that must be released
//! exactly once, through a release operation that is safe to repeat.

use vstd::prelude::*;

verus! {

/// The live subscription handle of one watch. The guard records whether the
/// underlying resource has already been released, so repeated termination
/// paths can all call [`SubscriptionGuard::release`] without releasing twice.
#[derive(Clone, Copy, Debug, PartialEq, Eq, Structural)]
pub struct SubscriptionGuard {
    /// Has the underlying subscription already been released?
    pub released: bool,
}

impl SubscriptionGuard {
    /// The guard after a release call, and whether that call was the first.
    pub open spec fn spec_release(self) -> (SubscriptionGuard, bool) {
        (SubscriptionGuard { released: true }, !self.released)
    }

    /// Take ownership of a freshly established, unreleased subscription.
    pub fn acquire() -> (g: SubscriptionGuard)
        ensures
            g == (SubscriptionGuard { released: false }),
    {
        SubscriptionGuard { released: false }
    }

    /// Mark the subscription released. Returns whether this call was the
    /// first one — only then may the driver run the real unsubscribe; any
    /// later call changes nothing and reports `false`.
    pub fn release(&mut self) -> (first: bool)
        ensures
            (*final(self), first) == old(self).spec_release(),
            final(self).released,
            first == !old(self).released,
    {
        let first = !self.released;
        self.released = true;
        first
    }
}

/// Law: release is idempotent. Releasing an already-released guard leaves it
/// unchanged and reports that nothing was released, so a doubled termination
/// path releases the underlying subscription at most once and never errs.
pub proof fn lemma_release_idempotent(g: SubscriptionGuard)
    ensures
        g.spec_release().0.spec_release().0 == g.spec_release().0,
        !g.spec_release().0.spec_release().1,
{
}

} // verus!
