//! A pawn that walks on the ground and can jump.

use vstd::prelude::*;
use crate::command::{axis, Command};

verus! {

/// The part of a command a walking pawn listens to.
#[derive(Debug)]
pub struct FirstPersonPawnCommand<A> {
    pub angle: A,
    pub forward: bool,
    pub backward: bool,
    pub left: bool,
    pub right: bool,
    pub jump: bool,
}

impl<A: Copy> FirstPersonPawnCommand<A> {
    /// Takes over the turn, the four movement wishes and the jump of
    /// `command`.
    pub fn apply(&mut self, command: &Command<A>)
        ensures
            *final(self) == (FirstPersonPawnCommand {
                angle: command.angle,
                forward: command.forward,
                backward: command.backward,
                left: command.left,
                right: command.right,
                jump: command.jump,
            }),
    {
        self.angle = command.angle;
        self.forward = command.forward;
        self.backward = command.backward;
        self.left = command.left;
        self.right = command.right;
        self.jump = command.jump;
    }

    /// The wished direction on the ground, before it is brought to unit
    /// length: right is positive x, backward is positive z.
    pub fn direction(&self) -> (steps: (i8, i8, i8))
        ensures
            steps.0 == axis(self.right, self.left),
            steps.1 == 0,
            steps.2 == axis(self.backward, self.forward),
    {
        let mut x: i8 = 0;
        let mut z: i8 = 0;
        if self.forward {
            z -= 1;
        }
        if self.backward {
            z += 1;
        }
        if self.right {
            x += 1;
        }
        if self.left {
            x -= 1;
        }
        (x, 0, z)
    }
}

impl<A: Default> Default for FirstPersonPawnCommand<A> {
    fn default() -> (command: Self)
        ensures
            call_ensures(A::default, (), command.angle),
            !command.forward && !command.backward && !command.left,
            !command.right && !command.jump,
    {
        FirstPersonPawnCommand {
            angle: A::default(),
            forward: false,
            backward: false,
            left: false,
            right: false,
            jump: false,
        }
    }
}

} // verus!
