//! The composite state the built-in strategies work on.

use vstd::prelude::*;

verus! {

/// Where an entity is, how it is turned and how large it is.
///
/// `V` is the type of a position or a scale, `Q` the type of an orientation.
/// The three slices are independent of each other.
#[derive(Clone, Copy, Debug, PartialEq)]
pub struct Transform<V, Q> {
    pub translation: V,
    pub rotation: Q,
    pub scale: V,
}

impl<V, Q> Transform<V, Q> {
    /// The state made of the three given slices.
    pub fn new(translation: V, rotation: Q, scale: V) -> (transform: Self)
        ensures
            transform == (Transform { translation, rotation, scale }),
    {
        Transform { translation, rotation, scale }
    }
}

} // verus!
