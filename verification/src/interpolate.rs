//! Extraction strategies and the three operations that move snapshots
//! between an authoritative state and its buffers.

use vstd::prelude::*;
use crate::buffer::InterpolateBuffer;

verus! {

/// One way of smoothing a composite state `T`: the slice of `T` it owns, how
/// that slice is read and written, and the buffer that holds its snapshots.
///
/// `extract` and `inject` must form a well-behaved pair: writing back what was
/// read changes nothing, reading gives what was written, and a second write
/// hides the first.
pub trait Interpolate<T>: Sized {
    /// The shape of the owned slice.
    type State;

    /// The owned slice of `target`.
    spec fn extract(target: T) -> Self::State;

    /// `target` with its owned slice replaced by `state`.
    spec fn inject(target: T, state: Self::State) -> T;

    /// The snapshots this marker holds.
    spec fn buffer(self) -> InterpolateBuffer<Self::State>;

    /// Writing back the slice just read leaves the composite as it was.
    proof fn lemma_inject_extract(target: T)
        ensures
            Self::inject(target, Self::extract(target)) == target,
    ;

    /// Reading after a write gives the value written.
    proof fn lemma_extract_inject(target: T, state: Self::State)
        ensures
            Self::extract(Self::inject(target, state)) == state,
    ;

    /// Of two writes in a row only the second one shows.
    proof fn lemma_inject_inject(target: T, first: Self::State, second: Self::State)
        ensures
            Self::inject(Self::inject(target, first), second) == Self::inject(target, second),
    ;

    /// The buffer of this marker, to look at.
    fn get_buffer(&self) -> (buffer: &InterpolateBuffer<Self::State>)
        ensures
            *buffer == self.buffer(),
    ;

    /// The buffer of this marker, to change.
    fn get_buffer_mut(&mut self) -> (buffer: &mut InterpolateBuffer<Self::State>)
        ensures
            *buffer == old(self).buffer(),
            final(self).buffer() == *final(buffer),
    ;

    /// Reads the owned slice of `target`.
    fn get_state(target: &T) -> (state: Self::State)
        ensures
            state == Self::extract(*target),
    ;

    /// Writes `state` into the owned slice of `target` and touches nothing
    /// else.
    fn set_state(target: &mut T, state: Self::State)
        ensures
            *final(target) == Self::inject(*old(target), state),
    ;
}

/// What a commit makes of a composite state and a buffer: a captured value
/// moves into the state's owned slice and becomes the new `start`; without
/// one nothing changes.
pub open spec fn committed<T, M: Interpolate<T>>(
    target: T,
    buffer: InterpolateBuffer<M::State>,
) -> (T, InterpolateBuffer<M::State>) {
    match buffer.end {
        Some(to) => (M::inject(target, to), InterpolateBuffer { start: Some(to), end: None }),
        None => (target, buffer),
    }
}

impl<S> InterpolateBuffer<S> {
    /// Promotes the captured value: it is written into `target` and kept as
    /// the value the next blends start from. Tells whether there was a value
    /// to promote; without one neither `target` nor the buffer changes.
    pub fn commit<T, M: Interpolate<T, State = S>>(&mut self, target: &mut T) -> (promoted: bool)
        ensures
            (*final(target), *final(self)) == committed::<T, M>(*old(target), *old(self)),
            promoted == old(self).end is Some,
    {
        if let Some(to) = self.end.take() {
            proof {
                M::lemma_extract_inject(*target, to);
            }
            M::set_state(target, to);
            self.start = Some(M::get_state(target));
            true
        } else {
            false
        }
    }
}

/// The authoritative state after each value of `frames` in turn was written
/// into its owned slice, as a run of frames does between two ticks.
pub open spec fn shown<T, M: Interpolate<T>>(target: T, frames: Seq<M::State>) -> T
    decreases frames.len(),
{
    if frames.len() == 0 {
        target
    } else {
        M::inject(shown::<T, M>(target, frames.drop_last()), frames.last())
    }
}

/// A second commit with no capture in between changes neither the
/// authoritative state nor the buffer.
pub proof fn lemma_commit_is_idempotent<T, M: Interpolate<T>>(
    target: T,
    buffer: InterpolateBuffer<M::State>,
)
    ensures
        committed::<T, M>(committed::<T, M>(target, buffer).0, committed::<T, M>(target, buffer).1)
            == committed::<T, M>(target, buffer),
{
}

/// A commit that promotes a value replaces whatever the frames since the last
/// tick have written, however many there were: the outcome is the same as if
/// none had been shown.
pub proof fn lemma_commit_hides_frames<T, M: Interpolate<T>>(
    target: T,
    buffer: InterpolateBuffer<M::State>,
    frames: Seq<M::State>,
)
    requires
        buffer.end is Some,
    ensures
        committed::<T, M>(shown::<T, M>(target, frames), buffer) == committed::<T, M>(
            target,
            buffer,
        ),
    decreases frames.len(),
{
    if frames.len() > 0 {
        lemma_commit_hides_frames::<T, M>(target, buffer, frames.drop_last());
        M::lemma_inject_inject(
            shown::<T, M>(target, frames.drop_last()),
            frames.last(),
            buffer.end->0,
        );
    }
}

/// A buffer that has seen a commit promote a value never goes back: neither a
/// capture nor a commit takes `start` away, and no commit leaves a buffer
/// armed.
pub proof fn lemma_pending_is_kept<T, M: Interpolate<T>>(
    target: T,
    buffer: InterpolateBuffer<M::State>,
    current: M::State,
)
    ensures
        buffer.start is Some ==> buffer.captured(current).start is Some,
        buffer.start is Some ==> committed::<T, M>(target, buffer).1.start is Some,
        committed::<T, M>(target, buffer).1.end is None,
{
}

/// Whether `entity` has both an authoritative state and a marker, so that the
/// three operations apply to it.
pub open spec fn paired<T, M>(
    targets: Seq<Option<T>>,
    markers: Seq<Option<M>>,
    entity: int,
) -> bool {
    &&& 0 <= entity < targets.len()
    &&& entity < markers.len()
    &&& targets[entity] is Some
    &&& markers[entity] is Some
}

/// Captures, for every entity that has both, the owned slice of its state as
/// the newest snapshot. Runs after the simulation has finished a tick.
///
/// Both columns are indexed by entity; a missing component is `None`.
pub fn target<T, M: Interpolate<T>>(targets: &Vec<Option<T>>, markers: &mut Vec<Option<M>>)
    ensures
        final(markers).len() == old(markers).len(),
        forall|entity: int|
            paired(targets@, old(markers)@, entity) ==> {
                &&& (#[trigger] final(markers)[entity]) is Some
                &&& final(markers)[entity]->0.buffer() == old(markers)[entity]->0.buffer().captured(
                    M::extract(targets[entity]->0),
                )
            },
        forall|entity: int|
            0 <= entity < old(markers).len() && !paired(targets@, old(markers)@, entity)
                ==> #[trigger] final(markers)[entity] == old(markers)[entity],
{
    let rows: usize = if targets.len() < markers.len() {
        targets.len()
    } else {
        markers.len()
    };
    let mut entity: usize = 0;
    while entity < rows
        invariant
            entity <= rows,
            rows <= targets.len(),
            rows <= markers.len(),
            markers.len() == old(markers).len(),
            forall|done: int|
                0 <= done < entity ==> if paired(targets@, old(markers)@, done) {
                    &&& (#[trigger] markers[done]) is Some
                    &&& markers[done]->0.buffer() == old(markers)[done]->0.buffer().captured(
                        M::extract(targets[done]->0),
                    )
                } else {
                    markers[done] == old(markers)[done]
                },
            forall|ahead: int|
                entity <= ahead < markers.len() ==> #[trigger] markers[ahead] == old(
                    markers,
                )[ahead],
        decreases rows - entity,
    {
        if let Some(state) = &targets[entity] {
            if let Some(marker) = &mut markers[entity] {
                marker.get_buffer_mut().capture(M::get_state(state));
            }
        }
        entity += 1;
    }
}

/// Whether `after` is `before` with the blend of the buffer's two snapshots
/// written into the owned slice, or `before` itself where the buffer has no
/// pair to blend.
pub open spec fn blended_into<T, M: Interpolate<T>, W, F: Fn(&M::State, &M::State, W) -> M::State>(
    blend: F,
    weight: W,
    buffer: InterpolateBuffer<M::State>,
    before: T,
    after: T,
) -> bool {
    match buffer.operands() {
        Some((from, to)) => exists|blended: M::State|
            #[trigger] call_ensures(blend, (&from, &to, weight), blended) && after == M::inject(
                before,
                blended,
            ),
        None => after == before,
    }
}

/// Shows, for every entity that has both, the blend of its two snapshots in
/// its authoritative state. Runs once per frame, between ticks; `weight` is
/// how far the frame lies past the last finished tick, as a share of one tick.
///
/// What is written here is for rendering only: the next `switch` replaces it.
pub fn interpolate<T, M: Interpolate<T>, W: Copy, F: Fn(&M::State, &M::State, W) -> M::State>(
    targets: &mut Vec<Option<T>>,
    markers: &Vec<Option<M>>,
    weight: W,
    blend: F,
)
    requires
        forall|entity: int, from: M::State, to: M::State|
            paired(old(targets)@, markers@, entity) && (#[trigger] markers[entity])->0.buffer().operands()
                == Some((from, to)) ==> #[trigger] call_requires(blend, (&from, &to, weight)),
    ensures
        final(targets).len() == old(targets).len(),
        forall|entity: int|
            paired(old(targets)@, markers@, entity) ==> {
                &&& (#[trigger] final(targets)[entity]) is Some
                &&& blended_into::<T, M, W, F>(
                    blend,
                    weight,
                    markers[entity]->0.buffer(),
                    old(targets)[entity]->0,
                    final(targets)[entity]->0,
                )
            },
        forall|entity: int|
            0 <= entity < old(targets).len() && !paired(old(targets)@, markers@, entity)
                ==> #[trigger] final(targets)[entity] == old(targets)[entity],
{
    let rows: usize = if targets.len() < markers.len() {
        targets.len()
    } else {
        markers.len()
    };
    let mut entity: usize = 0;
    while entity < rows
        invariant
            entity <= rows,
            rows <= targets.len(),
            rows <= markers.len(),
            targets.len() == old(targets).len(),
            forall|entity: int, from: M::State, to: M::State|
                paired(old(targets)@, markers@, entity) && (#[trigger] markers[entity])->0.buffer().operands()
                    == Some((from, to)) ==> #[trigger] call_requires(blend, (&from, &to, weight)),
            forall|done: int|
                0 <= done < entity ==> if paired(old(targets)@, markers@, done) {
                    &&& (#[trigger] targets[done]) is Some
                    &&& blended_into::<T, M, W, F>(
                        blend,
                        weight,
                        markers[done]->0.buffer(),
                        old(targets)[done]->0,
                        targets[done]->0,
                    )
                } else {
                    targets[done] == old(targets)[done]
                },
            forall|ahead: int|
                entity <= ahead < targets.len() ==> #[trigger] targets[ahead] == old(
                    targets,
                )[ahead],
        decreases rows - entity,
    {
        if let Some(state) = &mut targets[entity] {
            if let Some(marker) = &markers[entity] {
                let buffer = marker.get_buffer();
                if let (Some(from), Some(to)) = (&buffer.start, &buffer.end) {
                    M::set_state(state, blend(from, to, weight));
                }
            }
        }
        entity += 1;
    }
}

/// Promotes, for every entity that has both, the captured snapshot into the
/// authoritative state and makes it the start of the next blends. Runs before
/// the simulation starts a tick.
pub fn switch<T, M: Interpolate<T>>(targets: &mut Vec<Option<T>>, markers: &mut Vec<Option<M>>)
    ensures
        final(targets).len() == old(targets).len(),
        final(markers).len() == old(markers).len(),
        forall|entity: int|
            #![trigger final(targets)[entity]]
            #![trigger final(markers)[entity]]
            paired(old(targets)@, old(markers)@, entity) ==> {
                &&& final(targets)[entity] is Some
                &&& final(markers)[entity] is Some
                &&& (final(targets)[entity]->0, final(markers)[entity]->0.buffer()) == committed::<
                    T,
                    M,
                >(old(targets)[entity]->0, old(markers)[entity]->0.buffer())
            },
        forall|entity: int|
            0 <= entity < old(targets).len() && !paired(old(targets)@, old(markers)@, entity)
                ==> #[trigger] final(targets)[entity] == old(targets)[entity],
        forall|entity: int|
            0 <= entity < old(markers).len() && !paired(old(targets)@, old(markers)@, entity)
                ==> #[trigger] final(markers)[entity] == old(markers)[entity],
{
    let rows: usize = if targets.len() < markers.len() {
        targets.len()
    } else {
        markers.len()
    };
    let mut entity: usize = 0;
    while entity < rows
        invariant
            entity <= rows,
            rows <= targets.len(),
            rows <= markers.len(),
            targets.len() == old(targets).len(),
            markers.len() == old(markers).len(),
            forall|done: int|
                #![trigger targets[done]]
                #![trigger markers[done]]
                0 <= done < entity ==> if paired(old(targets)@, old(markers)@, done) {
                    &&& targets[done] is Some
                    &&& markers[done] is Some
                    &&& (targets[done]->0, markers[done]->0.buffer()) == committed::<T, M>(
                        old(targets)[done]->0,
                        old(markers)[done]->0.buffer(),
                    )
                } else {
                    &&& targets[done] == old(targets)[done]
                    &&& markers[done] == old(markers)[done]
                },
            forall|ahead: int|
                entity <= ahead < targets.len() ==> #[trigger] targets[ahead] == old(
                    targets,
                )[ahead],
            forall|ahead: int|
                entity <= ahead < markers.len() ==> #[trigger] markers[ahead] == old(
                    markers,
                )[ahead],
        decreases rows - entity,
    {
        if let Some(state) = &mut targets[entity] {
            if let Some(marker) = &mut markers[entity] {
                let _ = marker.get_buffer_mut().commit::<T, M>(state);
            }
        }
        entity += 1;
    }
}

} // verus!
