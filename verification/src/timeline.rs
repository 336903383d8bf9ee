//! What one entity and one buffer go through while the schedule is kept, and
//! what holds of them at every point of it.

use vstd::prelude::*;
use crate::buffer::InterpolateBuffer;
use crate::interpolate::{blended_into, committed, Interpolate};
use crate::schedule::{Phase, Step};

verus! {

/// One phase of a frame as one entity sees it.
pub enum Event<T, S> {
    /// The captured snapshot is promoted.
    Commit,
    /// The simulation leaves the authoritative state at the given value.
    Simulate(T),
    /// The authoritative state is captured.
    Capture,
    /// A frame is shown. The value is what the blend gives where the buffer
    /// has a pair to blend; it is not looked at otherwise.
    Resample(S),
}

impl<T, S> Event<T, S> {
    /// The phase this event is an instance of.
    pub open spec fn step(self) -> Step {
        match self {
            Event::Commit => Step::Commit,
            Event::Simulate(_) => Step::Simulate,
            Event::Capture => Step::Capture,
            Event::Resample(_) => Step::Resample,
        }
    }
}

/// The authoritative state and the buffer after one event.
pub open spec fn apply<T, M: Interpolate<T>>(
    target: T,
    buffer: InterpolateBuffer<M::State>,
    event: Event<T, M::State>,
) -> (T, InterpolateBuffer<M::State>) {
    match event {
        Event::Commit => committed::<T, M>(target, buffer),
        Event::Simulate(next) => (next, buffer),
        Event::Capture => (target, buffer.captured(M::extract(target))),
        Event::Resample(blended) => if buffer.operands() is Some {
            (M::inject(target, blended), buffer)
        } else {
            (target, buffer)
        },
    }
}

/// The authoritative state and the buffer after a run of events that began
/// with the state `initial` and an empty buffer.
pub open spec fn run<T, M: Interpolate<T>>(initial: T, events: Seq<Event<T, M::State>>) -> (
    T,
    InterpolateBuffer<M::State>,
)
    decreases events.len(),
{
    if events.len() == 0 {
        (initial, InterpolateBuffer::empty())
    } else {
        let (target, buffer) = run::<T, M>(initial, events.drop_last());
        apply::<T, M>(target, buffer, events.last())
    }
}

/// The phase a run of events ends in, or `None` where the run breaks the
/// schedule.
pub open spec fn phase_after<T, S>(events: Seq<Event<T, S>>) -> Option<Phase>
    decreases events.len(),
{
    if events.len() == 0 {
        Some(Phase::BetweenTicks)
    } else {
        match phase_after(events.drop_last()) {
            Some(phase) => phase.after(events.last().step()),
            None => None,
        }
    }
}

/// The state the simulation last left: the value of the last `Simulate`
/// event, or `initial` where there was none.
pub open spec fn simulated<T, S>(initial: T, events: Seq<Event<T, S>>) -> T
    decreases events.len(),
{
    if events.len() == 0 {
        initial
    } else {
        match events.last() {
            Event::Simulate(next) => next,
            _ => simulated(initial, events.drop_last()),
        }
    }
}

/// The states the simulation had left at each capture, oldest first.
pub open spec fn ticks<T, S>(initial: T, events: Seq<Event<T, S>>) -> Seq<T>
    decreases events.len(),
{
    if events.len() == 0 {
        Seq::empty()
    } else {
        let earlier = ticks(initial, events.drop_last());
        match events.last() {
            Event::Capture => earlier.push(simulated(initial, events.drop_last())),
            _ => earlier,
        }
    }
}

/// The buffer that belongs to a phase and to the states of the finished
/// ticks: between ticks it holds the slices of the last two, inside a tick
/// the slice of the last one as `start` and nothing as `end`.
pub open spec fn snapshots<T, M: Interpolate<T>>(phase: Phase, finished: Seq<T>) -> InterpolateBuffer<
    M::State,
> {
    let count = finished.len() as int;
    if count == 0 {
        InterpolateBuffer::empty()
    } else if phase != Phase::BetweenTicks {
        InterpolateBuffer { start: Some(M::extract(finished[count - 1])), end: None }
    } else if count == 1 {
        InterpolateBuffer { start: None, end: Some(M::extract(finished[0])) }
    } else {
        InterpolateBuffer {
            start: Some(M::extract(finished[count - 2])),
            end: Some(M::extract(finished[count - 1])),
        }
    }
}

/// While the schedule is kept, the buffer is `snapshots` of the phase and the
/// finished ticks, and the authoritative state differs from what the
/// simulation left at most in the owned slice, and only between ticks.
proof fn lemma_schedule_invariant<T, M: Interpolate<T>>(
    initial: T,
    events: Seq<Event<T, M::State>>,
)
    requires
        phase_after(events) is Some,
    ensures
        run::<T, M>(initial, events).1 == snapshots::<T, M>(
            phase_after(events)->0,
            ticks(initial, events),
        ),
        phase_after(events)->0 != Phase::BetweenTicks ==> run::<T, M>(initial, events).0
            == simulated(initial, events),
        phase_after(events)->0 == Phase::BetweenTicks ==> M::inject(
            run::<T, M>(initial, events).0,
            M::extract(simulated(initial, events)),
        ) == simulated(initial, events),
        phase_after(events)->0 == Phase::BetweenTicks && ticks(initial, events).len() > 0
            ==> ticks(initial, events).last() == simulated(initial, events),
        phase_after(events)->0 == Phase::BetweenTicks && ticks(initial, events).len() == 0
            ==> run::<T, M>(initial, events).0 == simulated(initial, events),
    decreases events.len(),
{
    if events.len() == 0 {
        M::lemma_inject_extract(initial);
    } else {
        let earlier = events.drop_last();
        lemma_schedule_invariant::<T, M>(initial, earlier);
        let (target, buffer) = run::<T, M>(initial, earlier);
        let left = simulated(initial, earlier);
        match events.last() {
            Event::Commit => {},
            Event::Simulate(next) => {},
            Event::Capture => {
                M::lemma_inject_extract(target);
            },
            Event::Resample(blended) => {
                M::lemma_inject_inject(target, blended, M::extract(left));
            },
        }
    }
}

/// However many frames were shown since the last tick, the simulation starts
/// the next tick from exactly the state it left: once the commit has run, the
/// authoritative state is the one of the last `Simulate` event, and nothing
/// that a resample wrote is left in it.
pub proof fn lemma_simulation_resumes_where_it_left<T, M: Interpolate<T>>(
    initial: T,
    events: Seq<Event<T, M::State>>,
)
    requires
        phase_after(events) == Some(Phase::Committed),
    ensures
        run::<T, M>(initial, events).0 == simulated(initial, events),
{
    lemma_schedule_invariant::<T, M>(initial, events);
}

/// While the schedule is kept, the buffer holds the slices of the last two
/// finished ticks whenever a frame can be shown, so a resample blends from
/// the tick before last toward the last one and reaches for nothing else.
/// The slice of a finished tick becomes the start of the blends only with
/// the commit of the tick after it.
pub proof fn lemma_buffer_follows_ticks<T, M: Interpolate<T>>(
    initial: T,
    events: Seq<Event<T, M::State>>,
)
    requires
        phase_after(events) is Some,
    ensures
        run::<T, M>(initial, events).1 == snapshots::<T, M>(
            phase_after(events)->0,
            ticks(initial, events),
        ),
{
    lemma_schedule_invariant::<T, M>(initial, events);
}

/// While the schedule is kept, a frame blends from the slice of the tick
/// before last toward the slice of the last tick, and from or toward nothing
/// else; before two ticks are finished it blends nothing. So what a tick
/// captured is first reached for as the end of the blends, and becomes their
/// start only once the tick after it is finished.
pub proof fn lemma_frame_blends_last_two_ticks<T, M: Interpolate<T>>(
    initial: T,
    events: Seq<Event<T, M::State>>,
)
    requires
        phase_after(events) == Some(Phase::BetweenTicks),
    ensures
        ticks(initial, events).len() < 2 ==> run::<T, M>(initial, events).1.operands() is None,
        ticks(initial, events).len() >= 2 ==> run::<T, M>(initial, events).1.operands() == Some(
            (
                M::extract(ticks(initial, events)[ticks(initial, events).len() - 2]),
                M::extract(ticks(initial, events).last()),
            ),
        ),
{
    lemma_schedule_invariant::<T, M>(initial, events);
}

/// Whatever `interpolate` does to one entity is a `Resample` event of this
/// model: the state it leaves is the one `apply` gives for the value the
/// blend returned.
pub proof fn lemma_frame_is_an_event<
    T,
    M: Interpolate<T>,
    W,
    F: Fn(&M::State, &M::State, W) -> M::State,
>(blend: F, weight: W, buffer: InterpolateBuffer<M::State>, before: T, after: T)
    requires
        blended_into::<T, M, W, F>(blend, weight, buffer, before, after),
    ensures
        exists|blended: M::State| #[trigger]
            apply::<T, M>(before, buffer, Event::Resample(blended)) == (after, buffer),
{
    match buffer.operands() {
        Some((from, to)) => {
            let blended = choose|blended: M::State|
                #[trigger] call_ensures(blend, (&from, &to, weight), blended) && after
                    == M::inject(before, blended);
            assert(apply::<T, M>(before, buffer, Event::Resample(blended)) == (after, buffer));
        },
        None => {
            let blended: M::State = arbitrary();
            assert(apply::<T, M>(before, buffer, Event::Resample(blended)) == (after, buffer));
        },
    }
}

} // verus!
