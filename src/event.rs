use vstd::prelude::*;

verus! {

/// The closed set of power and session transitions published to the
/// application.
#[derive(Clone, Copy, Debug, PartialEq, Eq, Structural)]
pub enum PowerState {
    /// The system is entering low-power suspend.
    Suspend,
    /// The system has resumed from suspend.
    Resume,
    /// The interactive session was locked.
    ScreenLocked,
    /// The interactive session was unlocked.
    ScreenUnlocked,
}

} // verus!
