//! Actors and the session that numbers them.

use vstd::prelude::*;

verus! {

/// A stateful entity of a session. Its id is the same on every client and
/// across the network.
#[derive(Debug)]
pub struct Actor {
    id: u64,
}

impl Actor {
    /// The id the session gave this actor.
    pub closed spec fn spec_id(&self) -> u64 {
        self.id
    }

    /// The id the session gave this actor.
    #[verifier::when_used_as_spec(spec_id)]
    pub fn id(&self) -> (id: u64)
        ensures
            id == self.spec_id(),
    {
        self.id
    }
}

/// Hands out actor ids, each one once.
#[derive(Debug)]
pub struct Session {
    next_actor_id: u64,
}

impl Session {
    /// How many actors this session has made so far.
    pub closed spec fn issued(&self) -> nat {
        self.next_actor_id as nat
    }

    /// Whether every id has been handed out, so that no further actor can be
    /// made.
    pub fn is_exhausted(&self) -> (exhausted: bool)
        ensures
            exhausted == (self.issued() == u64::MAX),
    {
        self.next_actor_id == u64::MAX
    }

    /// Makes the next actor. Its id is the number of actors made before it.
    pub fn actor(&mut self) -> (actor: Actor)
        requires
            old(self).issued() < u64::MAX,
        ensures
            actor.id() == old(self).issued(),
            final(self).issued() == old(self).issued() + 1,
    {
        let id = self.next_actor_id;
        self.next_actor_id += 1;
        Actor { id }
    }
}

impl Default for Session {
    fn default() -> (session: Self)
        ensures
            session.issued() == 0,
    {
        Session { next_actor_id: 0 }
    }
}

} // verus!
