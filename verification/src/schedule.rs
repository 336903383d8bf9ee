//! The order in which the phases of a frame may follow each other.
//!
//! A tick is a commit, the simulation's own work, and a capture, in this
//! order. A frame is any number of whole ticks and then one resample.

use vstd::prelude::*;

verus! {

/// What has happened since the last tick was finished.
#[derive(Clone, Copy, Debug, PartialEq, Eq, Structural)]
pub enum Phase {
    /// No tick is under way: a tick may begin, or a frame may be shown.
    BetweenTicks,
    /// The tick's commit has run; the simulation comes next.
    Committed,
    /// The simulation has run; the tick's capture comes next.
    Simulated,
}

/// One phase of a frame.
#[derive(Clone, Copy, Debug, PartialEq, Eq, Structural)]
pub enum Step {
    /// Captured snapshots are promoted into the authoritative states.
    Commit,
    /// The simulation reads and writes the authoritative states.
    Simulate,
    /// The authoritative states are captured as the newest snapshots.
    Capture,
    /// The blend of the two snapshots is written for rendering.
    Resample,
}

impl Phase {
    /// The phase that `step` leads to, or `None` where `step` is out of order.
    pub open spec fn after(self, step: Step) -> Option<Phase> {
        match (self, step) {
            (Phase::BetweenTicks, Step::Commit) => Some(Phase::Committed),
            (Phase::Committed, Step::Simulate) => Some(Phase::Simulated),
            (Phase::Simulated, Step::Capture) => Some(Phase::BetweenTicks),
            (Phase::BetweenTicks, Step::Resample) => Some(Phase::BetweenTicks),
            _ => None,
        }
    }

    /// The phase every schedule starts in.
    pub fn new() -> (phase: Phase)
        ensures
            phase == Phase::BetweenTicks,
    {
        Phase::BetweenTicks
    }

    /// Whether `step` may run now.
    pub fn permits(self, step: Step) -> (allowed: bool)
        ensures
            allowed == self.after(step) is Some,
    {
        match (self, step) {
            (Phase::BetweenTicks, Step::Commit) => true,
            (Phase::Committed, Step::Simulate) => true,
            (Phase::Simulated, Step::Capture) => true,
            (Phase::BetweenTicks, Step::Resample) => true,
            _ => false,
        }
    }

    /// Takes `step`: gives the phase it leads to, or `None` where it is out of
    /// order.
    pub fn advance(self, step: Step) -> (next: Option<Phase>)
        ensures
            next == self.after(step),
    {
        match (self, step) {
            (Phase::BetweenTicks, Step::Commit) => Some(Phase::Committed),
            (Phase::Committed, Step::Simulate) => Some(Phase::Simulated),
            (Phase::Simulated, Step::Capture) => Some(Phase::BetweenTicks),
            (Phase::BetweenTicks, Step::Resample) => Some(Phase::BetweenTicks),
            _ => None,
        }
    }
}

/// A resample is in order only between ticks, and it leaves the schedule
/// there: it never stands between a commit and the capture that belongs to it.
pub proof fn lemma_resample_between_ticks(phase: Phase)
    ensures
        phase.after(Step::Resample) is Some <==> phase == Phase::BetweenTicks,
        phase.after(Step::Resample) is Some ==> phase.after(Step::Resample) == Some(
            Phase::BetweenTicks,
        ),
{
}

/// A tick that has begun can only go on to its end: after a commit the one
/// step in order is the simulation, and after the simulation the capture.
pub proof fn lemma_tick_is_whole(phase: Phase, step: Step)
    requires
        phase != Phase::BetweenTicks,
        phase.after(step) is Some,
    ensures
        phase == Phase::Committed ==> step == Step::Simulate,
        phase == Phase::Simulated ==> step == Step::Capture,
{
}

} // verus!
