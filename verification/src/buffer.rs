//! The snapshot buffer: at most two sub-state values of one entity, the one
//! the last commit promoted and the one the last capture recorded.

use vstd::prelude::*;

verus! {

/// Where a snapshot buffer stands in its life.
#[derive(Clone, Copy, Debug, PartialEq, Eq, Structural)]
pub enum BufferState {
    /// Nothing was captured yet.
    Uninitialized,
    /// A value was captured and no commit has promoted one so far.
    Armed,
    /// A commit has promoted a value; `end` comes and goes with each tick.
    Pending,
}

/// The two most recent snapshots of one sub-state.
///
/// `start` is the value the last commit promoted, `end` the value captured
/// since then. Every combination of the two is a legal buffer.
#[derive(Debug)]
pub struct InterpolateBuffer<T> {
    pub start: Option<T>,
    pub end: Option<T>,
}

impl<T> InterpolateBuffer<T> {
    /// The buffer no capture or commit has touched.
    pub open spec fn empty() -> Self {
        InterpolateBuffer { start: None, end: None }
    }

    /// The configuration the two fields stand for.
    pub open spec fn configuration(self) -> BufferState {
        if self.start is Some {
            BufferState::Pending
        } else if self.end is Some {
            BufferState::Armed
        } else {
            BufferState::Uninitialized
        }
    }

    /// The buffer after `current` was captured.
    pub open spec fn captured(self, current: T) -> Self {
        InterpolateBuffer { start: self.start, end: Some(current) }
    }

    /// The pair a resample blends, if there is one.
    pub open spec fn operands(self) -> Option<(T, T)> {
        match (self.start, self.end) {
            (Some(from), Some(to)) => Some((from, to)),
            _ => None,
        }
    }

    /// A buffer that holds nothing.
    pub fn new() -> (buffer: Self)
        ensures
            buffer == Self::empty(),
    {
        InterpolateBuffer { start: None, end: None }
    }

    /// Tells which of the three configurations the buffer is in.
    pub fn state(&self) -> (state: BufferState)
        ensures
            state == self.configuration(),
    {
        if self.start.is_some() {
            BufferState::Pending
        } else if self.end.is_some() {
            BufferState::Armed
        } else {
            BufferState::Uninitialized
        }
    }

    /// Records `current` as the newest snapshot, whatever was there before.
    pub fn capture(&mut self, current: T)
        ensures
            *final(self) == old(self).captured(current),
    {
        self.end = Some(current);
    }

    /// Blends the two snapshots by `weight`, or does nothing where one of them
    /// is missing. The weight is handed to `blend` untouched.
    pub fn resample<W, F: FnOnce(&T, &T, W) -> T>(&self, weight: W, blend: F) -> (blended: Option<T>)
        requires
            self.operands() matches Some((from, to)) ==> call_requires(
                blend,
                (&from, &to, weight),
            ),
        ensures
            match self.operands() {
                Some((from, to)) => blended is Some && call_ensures(
                    blend,
                    (&from, &to, weight),
                    blended->0,
                ),
                None => blended is None,
            },
    {
        match (&self.start, &self.end) {
            (Some(from), Some(to)) => Some(blend(from, to, weight)),
            _ => None,
        }
    }
}

impl<T> Default for InterpolateBuffer<T> {
    fn default() -> (buffer: Self)
        ensures
            buffer == Self::empty(),
    {
        InterpolateBuffer { start: None, end: None }
    }
}

} // verus!
