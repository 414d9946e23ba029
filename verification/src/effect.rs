use vstd::prelude::*;

verus! {

/// Something that the surroundings of a grid have to do after one of its
/// operations, in the order in which the effects are listed.
#[derive(Debug, Clone, Copy, PartialEq, Eq, Structural)]
pub enum GridEffect {
    /// Ask the toolkit to draw the area again.
    QueueDraw,
    /// Announce that the property `mode` may have changed.
    NotifyMode,
    /// Announce that the property `is-running` may have changed.
    NotifyIsRunning,
    /// Send the grid a request to unfreeze after a delay.
    ScheduleUnfreeze { delay_ms: u64 },
    /// Put a new stopper in place, and drop the one that was there.
    InstallStopper,
    /// Drop the stopper, which ends the ticker that it belongs to.
    DropStopper,
    /// Run the ticker that came with the effects, on a thread of its own.
    SpawnTicker,
    /// Warn that there is no universe to run.
    WarnNoUniverse,
}

} // verus!
