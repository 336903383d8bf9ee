//! A pawn that flies freely in all three directions.

use vstd::prelude::*;
use crate::command::{axis, Command};

verus! {

/// The part of a command a flying pawn listens to.
#[derive(Debug)]
pub struct FlyPawnCommand<A> {
    pub angle: A,
    pub forward: bool,
    pub backward: bool,
    pub left: bool,
    pub right: bool,
    pub up: bool,
    pub down: bool,
}

impl<A: Copy> FlyPawnCommand<A> {
    /// Takes over the turn and the six movement wishes of `command`.
    pub fn apply(&mut self, command: &Command<A>)
        ensures
            *final(self) == (FlyPawnCommand {
                angle: command.angle,
                forward: command.forward,
                backward: command.backward,
                left: command.left,
                right: command.right,
                up: command.up,
                down: command.down,
            }),
    {
        self.angle = command.angle;
        self.forward = command.forward;
        self.backward = command.backward;
        self.left = command.left;
        self.right = command.right;
        self.up = command.up;
        self.down = command.down;
    }

    /// The wished direction in the pawn's own frame, before it is brought to
    /// unit length: right is positive x, up is positive y, backward is
    /// positive z.
    pub fn direction(&self) -> (steps: (i8, i8, i8))
        ensures
            steps.0 == axis(self.right, self.left),
            steps.1 == axis(self.up, self.down),
            steps.2 == axis(self.backward, self.forward),
    {
        let mut x: i8 = 0;
        let mut y: i8 = 0;
        let mut z: i8 = 0;
        if self.forward {
            z -= 1;
        }
        if self.backward {
            z += 1;
        }
        if self.right {
            x += 1;
        }
        if self.left {
            x -= 1;
        }
        if self.up {
            y += 1;
        }
        if self.down {
            y -= 1;
        }
        (x, y, z)
    }
}

impl<A: Default> Default for FlyPawnCommand<A> {
    fn default() -> (command: Self)
        ensures
            call_ensures(A::default, (), command.angle),
            !command.forward && !command.backward && !command.left,
            !command.right && !command.up && !command.down,
    {
        FlyPawnCommand {
            angle: A::default(),
            forward: false,
            backward: false,
            left: false,
            right: false,
            up: false,
            down: false,
        }
    }
}

} // verus!
