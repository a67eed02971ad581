//! The life cycle of the acquisition as a whole.

use vstd::prelude::*;

verus! {

/// Where the acquisition stands.
///
/// `Uninitialized` until the peripherals are brought up and the three units
/// are armed, `Configured` until the trigger source is enabled, `Running`
/// while samples flow, `Overrun` between the detection of lost data and the
/// end of the recovery, `Stopped` for good once the trigger source is
/// disabled.
#[derive(Clone, Copy, Debug, PartialEq, Eq, Structural)]
pub enum SamplingState {
    Uninitialized,
    Configured,
    Running,
    Overrun,
    Stopped,
}

impl SamplingState {
    /// How far along the life cycle a state is. `Running` and `Overrun` share
    /// a stage: the acquisition may go back and forth between them.
    pub open spec fn stage(self) -> nat {
        match self {
            SamplingState::Uninitialized => 0,
            SamplingState::Configured => 1,
            SamplingState::Running => 2,
            SamplingState::Overrun => 2,
            SamplingState::Stopped => 3,
        }
    }

    /// Conversions are being triggered.
    pub open spec fn spec_is_sampling(self) -> bool {
        self is Running || self is Overrun
    }

    /// Conversions are being triggered.
    #[verifier::when_used_as_spec(spec_is_sampling)]
    pub fn is_sampling(self) -> (r: bool)
        ensures
            r == self.spec_is_sampling(),
    {
        match self {
            SamplingState::Running => true,
            SamplingState::Overrun => true,
            _ => false,
        }
    }
}

} // verus!
