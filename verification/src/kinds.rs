//! The four built-in strategies: the whole transform, and each of its three
//! slices on its own.

use vstd::prelude::*;
use crate::buffer::InterpolateBuffer;
use crate::interpolate::Interpolate;
use crate::transform::Transform;

verus! {

/// Smooths the position of an entity and nothing else.
#[derive(Debug)]
pub struct InterpolateTranslation<V>(pub InterpolateBuffer<V>);

/// Smooths the whole transform of an entity.
#[derive(Debug)]
pub struct InterpolateTransform<V, Q>(pub InterpolateBuffer<Transform<V, Q>>);

/// Smooths the orientation of an entity and nothing else.
#[derive(Debug)]
pub struct InterpolateRotation<Q>(pub InterpolateBuffer<Q>);

/// Smooths the scale of an entity and nothing else.
#[derive(Debug)]
pub struct InterpolateScale<V>(pub InterpolateBuffer<V>);

impl<V: Copy, Q: Copy> Interpolate<Transform<V, Q>> for InterpolateTransform<V, Q> {
    type State = Transform<V, Q>;

    open spec fn extract(target: Transform<V, Q>) -> Transform<V, Q> {
        target
    }

    open spec fn inject(target: Transform<V, Q>, state: Transform<V, Q>) -> Transform<V, Q> {
        state
    }

    open spec fn buffer(self) -> InterpolateBuffer<Transform<V, Q>> {
        self.0
    }

    proof fn lemma_inject_extract(target: Transform<V, Q>) {
    }

    proof fn lemma_extract_inject(target: Transform<V, Q>, state: Transform<V, Q>) {
    }

    proof fn lemma_inject_inject(
        target: Transform<V, Q>,
        first: Transform<V, Q>,
        second: Transform<V, Q>,
    ) {
    }

    fn get_buffer(&self) -> (buffer: &InterpolateBuffer<Transform<V, Q>>) {
        &self.0
    }

    fn get_buffer_mut(&mut self) -> (buffer: &mut InterpolateBuffer<Transform<V, Q>>) {
        &mut self.0
    }

    fn get_state(target: &Transform<V, Q>) -> (state: Transform<V, Q>) {
        *target
    }

    fn set_state(target: &mut Transform<V, Q>, state: Transform<V, Q>) {
        *target = state;
    }
}

impl<V, Q: Copy> Interpolate<Transform<V, Q>> for InterpolateRotation<Q> {
    type State = Q;

    open spec fn extract(target: Transform<V, Q>) -> Q {
        target.rotation
    }

    open spec fn inject(target: Transform<V, Q>, state: Q) -> Transform<V, Q> {
        Transform { translation: target.translation, rotation: state, scale: target.scale }
    }

    open spec fn buffer(self) -> InterpolateBuffer<Q> {
        self.0
    }

    proof fn lemma_inject_extract(target: Transform<V, Q>) {
    }

    proof fn lemma_extract_inject(target: Transform<V, Q>, state: Q) {
    }

    proof fn lemma_inject_inject(target: Transform<V, Q>, first: Q, second: Q) {
    }

    fn get_buffer(&self) -> (buffer: &InterpolateBuffer<Q>) {
        &self.0
    }

    fn get_buffer_mut(&mut self) -> (buffer: &mut InterpolateBuffer<Q>) {
        &mut self.0
    }

    fn get_state(target: &Transform<V, Q>) -> (state: Q) {
        target.rotation
    }

    fn set_state(target: &mut Transform<V, Q>, state: Q) {
        target.rotation = state;
    }
}

impl<V: Copy, Q> Interpolate<Transform<V, Q>> for InterpolateTranslation<V> {
    type State = V;

    open spec fn extract(target: Transform<V, Q>) -> V {
        target.translation
    }

    open spec fn inject(target: Transform<V, Q>, state: V) -> Transform<V, Q> {
        Transform { translation: state, rotation: target.rotation, scale: target.scale }
    }

    open spec fn buffer(self) -> InterpolateBuffer<V> {
        self.0
    }

    proof fn lemma_inject_extract(target: Transform<V, Q>) {
    }

    proof fn lemma_extract_inject(target: Transform<V, Q>, state: V) {
    }

    proof fn lemma_inject_inject(target: Transform<V, Q>, first: V, second: V) {
    }

    fn get_buffer(&self) -> (buffer: &InterpolateBuffer<V>) {
        &self.0
    }

    fn get_buffer_mut(&mut self) -> (buffer: &mut InterpolateBuffer<V>) {
        &mut self.0
    }

    fn get_state(target: &Transform<V, Q>) -> (state: V) {
        target.translation
    }

    fn set_state(target: &mut Transform<V, Q>, state: V) {
        target.translation = state;
    }
}

impl<V: Copy, Q> Interpolate<Transform<V, Q>> for InterpolateScale<V> {
    type State = V;

    open spec fn extract(target: Transform<V, Q>) -> V {
        target.scale
    }

    open spec fn inject(target: Transform<V, Q>, state: V) -> Transform<V, Q> {
        Transform { translation: target.translation, rotation: target.rotation, scale: state }
    }

    open spec fn buffer(self) -> InterpolateBuffer<V> {
        self.0
    }

    proof fn lemma_inject_extract(target: Transform<V, Q>) {
    }

    proof fn lemma_extract_inject(target: Transform<V, Q>, state: V) {
    }

    proof fn lemma_inject_inject(target: Transform<V, Q>, first: V, second: V) {
    }

    fn get_buffer(&self) -> (buffer: &InterpolateBuffer<V>) {
        &self.0
    }

    fn get_buffer_mut(&mut self) -> (buffer: &mut InterpolateBuffer<V>) {
        &mut self.0
    }

    fn get_state(target: &Transform<V, Q>) -> (state: V) {
        target.scale
    }

    fn set_state(target: &mut Transform<V, Q>, state: V) {
        target.scale = state;
    }
}

impl<V, Q> InterpolateTransform<V, Q> {
    /// Blends two transforms slice by slice: position and scale with `lerp`,
    /// orientation with `slerp`, each with the same `weight`.
    pub fn interpolate<W: Copy, L: Fn(&V, &V, W) -> V, R: FnOnce(&Q, &Q, W) -> Q>(
        from: &Transform<V, Q>,
        to: &Transform<V, Q>,
        weight: W,
        lerp: L,
        slerp: R,
    ) -> (blended: Transform<V, Q>)
        requires
            call_requires(lerp, (&from.translation, &to.translation, weight)),
            call_requires(slerp, (&from.rotation, &to.rotation, weight)),
            call_requires(lerp, (&from.scale, &to.scale, weight)),
        ensures
            call_ensures(lerp, (&from.translation, &to.translation, weight), blended.translation),
            call_ensures(slerp, (&from.rotation, &to.rotation, weight), blended.rotation),
            call_ensures(lerp, (&from.scale, &to.scale, weight), blended.scale),
    {
        let translation = lerp(&from.translation, &to.translation, weight);
        let rotation = slerp(&from.rotation, &to.rotation, weight);
        let scale = lerp(&from.scale, &to.scale, weight);
        Transform { translation, rotation, scale }
    }
}

impl<V, Q> Default for InterpolateTransform<V, Q> {
    fn default() -> (marker: Self)
        ensures
            marker.0 == InterpolateBuffer::<Transform<V, Q>>::empty(),
    {
        InterpolateTransform(InterpolateBuffer::new())
    }
}

impl<V> Default for InterpolateTranslation<V> {
    fn default() -> (marker: Self)
        ensures
            marker.0 == InterpolateBuffer::<V>::empty(),
    {
        InterpolateTranslation(InterpolateBuffer::new())
    }
}

impl<Q> Default for InterpolateRotation<Q> {
    fn default() -> (marker: Self)
        ensures
            marker.0 == InterpolateBuffer::<Q>::empty(),
    {
        InterpolateRotation(InterpolateBuffer::new())
    }
}

impl<V> Default for InterpolateScale<V> {
    fn default() -> (marker: Self)
        ensures
            marker.0 == InterpolateBuffer::<V>::empty(),
    {
        InterpolateScale(InterpolateBuffer::new())
    }
}

/// A write of the position leaves orientation and scale as they were, a write
/// of the orientation leaves position and scale, and a write of the scale
/// leaves position and orientation: the three strategies never read what
/// another of them wrote.
pub proof fn lemma_slices_are_disjoint<V: Copy, Q: Copy>(
    target: Transform<V, Q>,
    position: V,
    orientation: Q,
    scale: V,
)
    ensures
        <InterpolateRotation<Q> as Interpolate<Transform<V, Q>>>::extract(
            <InterpolateTranslation<V> as Interpolate<Transform<V, Q>>>::inject(target, position),
        ) == target.rotation,
        <InterpolateScale<V> as Interpolate<Transform<V, Q>>>::extract(
            <InterpolateTranslation<V> as Interpolate<Transform<V, Q>>>::inject(target, position),
        ) == target.scale,
        <InterpolateTranslation<V> as Interpolate<Transform<V, Q>>>::extract(
            <InterpolateRotation<Q> as Interpolate<Transform<V, Q>>>::inject(target, orientation),
        ) == target.translation,
        <InterpolateScale<V> as Interpolate<Transform<V, Q>>>::extract(
            <InterpolateRotation<Q> as Interpolate<Transform<V, Q>>>::inject(target, orientation),
        ) == target.scale,
        <InterpolateTranslation<V> as Interpolate<Transform<V, Q>>>::extract(
            <InterpolateScale<V> as Interpolate<Transform<V, Q>>>::inject(target, scale),
        ) == target.translation,
        <InterpolateRotation<Q> as Interpolate<Transform<V, Q>>>::extract(
            <InterpolateScale<V> as Interpolate<Transform<V, Q>>>::inject(target, scale),
        ) == target.rotation,
{
}

} // verus!
