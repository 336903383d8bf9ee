//! What a player asks of a pawn during one tick, and how the pressed buttons
//! turn into it.

use vstd::prelude::*;

verus! {

/// The wishes of one player for one tick. `A` is the type of the turn the
/// mouse has asked for.
#[derive(Debug, Clone)]
pub struct Command<A> {
    pub angle: A,
    pub forward: bool,
    pub backward: bool,
    pub left: bool,
    pub right: bool,
    pub up: bool,
    pub down: bool,
    pub jump: bool,
    pub sneak: bool,
    pub crouch: bool,
    pub fire: bool,
}

/// What the keyboard and the mouse buttons report in one frame: for `jump`
/// whether its key went down in this frame, for the others whether the key
/// or button is held.
#[derive(Debug, Clone, Copy)]
pub struct Buttons {
    pub forward: bool,
    pub backward: bool,
    pub left: bool,
    pub right: bool,
    pub up: bool,
    pub down: bool,
    pub jump: bool,
    pub sneak: bool,
    pub crouch: bool,
    pub fire: bool,
}

impl<A> Command<A> {
    /// The command that asks for the turn `angle` and for nothing else.
    pub fn new(angle: A) -> (command: Self)
        ensures
            command.angle == angle,
            !command.forward && !command.backward && !command.left && !command.right,
            !command.up && !command.down && !command.jump && !command.sneak,
            !command.crouch && !command.fire,
    {
        Command {
            angle,
            forward: false,
            backward: false,
            left: false,
            right: false,
            up: false,
            down: false,
            jump: false,
            sneak: false,
            crouch: false,
            fire: false,
        }
    }
}

impl<A: Default> Default for Command<A> {
    fn default() -> (command: Self)
        ensures
            call_ensures(A::default, (), command.angle),
            !command.forward && !command.backward && !command.left && !command.right,
            !command.up && !command.down && !command.jump && !command.sneak,
            !command.crouch && !command.fire,
    {
        Command::new(A::default())
    }
}

/// Takes the buttons of one frame into the command. Movement keys count as
/// long as they are held. A jump or a shot, once asked for, stays asked for
/// until the command is cleared, whatever the buttons do in later frames.
pub fn handle_button_inputs<A>(command: &mut Command<A>, buttons: &Buttons)
    ensures
        final(command).angle == old(command).angle,
        final(command).forward == buttons.forward,
        final(command).backward == buttons.backward,
        final(command).left == buttons.left,
        final(command).right == buttons.right,
        final(command).up == buttons.up,
        final(command).down == buttons.down,
        final(command).crouch == buttons.crouch,
        final(command).sneak == buttons.sneak,
        final(command).jump == (old(command).jump || buttons.jump),
        final(command).fire == (old(command).fire || buttons.fire),
{
    command.forward = buttons.forward;
    command.backward = buttons.backward;
    command.left = buttons.left;
    command.right = buttons.right;
    command.up = buttons.up;
    command.down = buttons.down;
    command.crouch = buttons.crouch;
    command.sneak = buttons.sneak;

    if !command.jump {
        command.jump = buttons.jump;
    }

    if !command.fire {
        command.fire = buttons.fire;
    }
}

/// Ends a tick: the turn goes back to `rest`, and jump and shot are no longer
/// asked for. What is held stays.
pub fn clear_command<A>(command: &mut Command<A>, rest: A)
    ensures
        *final(command) == (Command { angle: rest, jump: false, fire: false, ..*old(command) }),
{
    command.angle = rest;
    command.jump = false;
    command.fire = false;
}

/// The sign of a wish along one axis: one step for the positive key, one step
/// back for the negative key, nothing where both or neither are down.
pub open spec fn axis(positive: bool, negative: bool) -> int {
    (if positive { 1int } else { 0int }) - (if negative { 1int } else { 0int })
}

/// A named request with its arguments: the name comes first.
#[derive(Debug, Clone)]
pub struct CommandEvent(pub Vec<String>);

impl CommandEvent {
    /// The words of the request for `name` with `args`.
    pub open spec fn words(name: Seq<char>, args: Seq<Seq<char>>) -> Seq<Seq<char>> {
        seq![name] + args
    }

    /// The words this request is made of, as sequences of characters.
    pub open spec fn text(&self) -> Seq<Seq<char>> {
        self.0@.map_values(|word: String| word@)
    }

    /// The request to run `name` with `args`.
    pub fn new(name: &str, args: Vec<&str>) -> (event: Self)
        ensures
            event.text() == Self::words(name@, args@.map_values(|arg: &str| arg@)),
    {
        let mut words: Vec<String> = Vec::new();
        words.push(name.to_owned());
        let mut next: usize = 0;
        while next < args.len()
            invariant
                next <= args.len(),
                words.len() == next + 1,
                words[0]@ == name@,
                forall|done: int| 0 <= done < next ==> (#[trigger] words[done + 1])@ == args[done]@,
            decreases args.len() - next,
        {
            words.push(args[next].to_owned());
            next += 1;
        }
        let event = CommandEvent(words);
        proof {
            let wanted = Self::words(name@, args@.map_values(|arg: &str| arg@));
            assert(event.text().len() == wanted.len());
            assert forall|at: int| 0 <= at < wanted.len() implies event.text()[at] == wanted[at] by {
                if at > 0 {
                    assert(words[(at - 1) + 1]@ == args[at - 1]@);
                }
            }
            assert(event.text() =~= wanted);
        }
        event
    }

    /// Whether this request asks for the command called `name`: whether its
    /// first word is `name`.
    pub fn is_for(&self, name: &String) -> (named: bool)
        ensures
            named == (self.text().len() > 0 && self.text()[0] == name@),
    {
        if self.0.len() == 0 {
            false
        } else {
            self.0[0] == *name
        }
    }
}

} // verus!
