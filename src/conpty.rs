use vstd::prelude::*;

use crate::error::PtyError;

verus! {

/// What is known of the OS's pseudo-console facility.
#[derive(Clone, Copy, Debug, PartialEq, Eq, Structural)]
pub enum Support {
    /// The facility has not been looked up yet.
    Unresolved,
    /// Its functions were found.
    Available,
    /// They were not: this OS version has no pseudo-consoles.
    Unsupported,
}

/// The process-wide record of whether pseudo-consoles can be used. It is
/// resolved once; from then on every check reports the same outcome.
#[derive(Debug)]
pub struct PlatformSupport {
    state: Support,
}

/// The state after a lookup that did or did not find the facility.
pub open spec fn after_lookup(state: Support, found: bool) -> Support {
    match state {
        Support::Unresolved => if found {
            Support::Available
        } else {
            Support::Unsupported
        },
        s => s,
    }
}

/// The outcome a check reports in a resolved state.
pub open spec fn outcome_of(state: Support) -> Result<(), PtyError> {
    match state {
        Support::Available => Ok(()),
        _ => Err(PtyError::PlatformUnsupported),
    }
}

impl PlatformSupport {
    pub closed spec fn state_spec(&self) -> Support {
        self.state
    }

    /// Nothing looked up yet.
    pub fn new() -> (r: PlatformSupport)
        ensures
            r.state_spec() == Support::Unresolved,
    {
        PlatformSupport { state: Support::Unresolved }
    }

    /// Whether a lookup is still to be made.
    pub fn needs_lookup(&self) -> (r: bool)
        ensures
            r == (self.state_spec() == Support::Unresolved),
    {
        match self.state {
            Support::Unresolved => true,
            _ => false,
        }
    }

    /// The current state.
    pub fn state(&self) -> (r: Support)
        ensures
            r == self.state_spec(),
    {
        self.state
    }

    /// Records the result of looking up the facility, where none was
    /// recorded yet, and reports whether it can be used. A lookup made
    /// after the first changes nothing.
    pub fn check_platform_support(&mut self, found: bool) -> (r: Result<(), PtyError>)
        ensures
            final(self).state_spec() == after_lookup(old(self).state_spec(), found),
            r == outcome_of(final(self).state_spec()),
    {
        if let Support::Unresolved = self.state {
            self.state = if found {
                Support::Available
            } else {
                Support::Unsupported
            };
        }
        match self.state {
            Support::Available => Ok(()),
            _ => Err(PtyError::PlatformUnsupported),
        }
    }
}

/// Once resolved, the outcome is latched: any later lookup result leaves the
/// state, and so the reported outcome, as it was.
pub proof fn support_is_latched(state: Support, first: bool, later: bool)
    ensures
        after_lookup(after_lookup(state, first), later) == after_lookup(state, first),
        outcome_of(after_lookup(after_lookup(state, first), later)) == outcome_of(after_lookup(state, first)),
{
}

} // verus!
