//! The coordinated-shutdown token. One signal is shared by every task;
//! once fired its "done" state is observable by any number of past or
//! future checks, so a subscriber arriving after the fire still sees it.
//! Firing is idempotent: a second fire changes nothing.

use vstd::prelude::*;

verus! {

/// The shutdown token: a sticky one-way flag. The field is written only
/// by `fire`; tasks observe it through `is_fired`.
#[derive(Clone, Copy, PartialEq, Eq, Structural, Debug)]
pub struct ShutdownSignal {
    pub fired: bool,
}

/// The state a fire call leaves the token in, whatever it held before.
pub open spec fn spec_fire(s: ShutdownSignal) -> ShutdownSignal {
    ShutdownSignal { fired: true }
}

impl ShutdownSignal {
    /// Whether the token has been fired.
    pub open spec fn spec_fired(self) -> bool {
        self.fired
    }

    /// A fresh, unfired token.
    pub fn new() -> (s: Self)
        ensures
            !s.spec_fired(),
    {
        ShutdownSignal { fired: false }
    }

    /// Fire the token. The resulting state does not depend on the prior
    /// state: firing an already-fired token changes nothing.
    pub fn fire(&mut self)
        ensures
            *final(self) == spec_fire(*old(self)),
            final(self).spec_fired(),
    {
        self.fired = true;
    }

    /// Observe the token. Any check after a fire — however late it
    /// subscribes — sees the fired state; no notification is missed.
    pub fn is_fired(&self) -> (r: bool)
        ensures
            r == self.spec_fired(),
    {
        self.fired
    }
}

/// Firing is idempotent: firing twice leaves exactly the state firing
/// once leaves, so a second broadcast has no observable effect.
pub proof fn lemma_fire_idempotent(s: ShutdownSignal)
    ensures
        spec_fire(spec_fire(s)) == spec_fire(s),
{
}

/// The fired state is sticky: after a fire the token reports shutdown,
/// whatever its history.
pub proof fn lemma_fire_observed(s: ShutdownSignal)
    ensures
        spec_fire(s).spec_fired(),
{
}

} // verus!
