//! The clients a server knows, each with the entity that stands for it.

use vstd::prelude::*;

verus! {

/// Where the first client with the id `id` stands in `clients`, if there is
/// one.
pub open spec fn first_with_id<E>(clients: Seq<(E, u64)>, id: u64, at: int) -> bool {
    &&& 0 <= at < clients.len()
    &&& clients[at].1 == id
    &&& forall|before: int| 0 <= before < at ==> (#[trigger] clients[before]).1 != id
}

/// The entity of the client with the id `id`: of the first one in `clients`
/// where several share it, `None` where no client has it.
pub fn find_client<E: Copy>(clients: &Vec<(E, u64)>, id: u64) -> (found: Option<E>)
    ensures
        match found {
            Some(entity) => exists|at: int|
                first_with_id(clients@, id, at) && (#[trigger] clients[at]).0 == entity,
            None => forall|at: int| 0 <= at < clients.len() ==> (#[trigger] clients[at]).1 != id,
        },
{
    let mut at: usize = 0;
    while at < clients.len()
        invariant
            at <= clients.len(),
            forall|before: int| 0 <= before < at ==> (#[trigger] clients[before]).1 != id,
        decreases clients.len() - at,
    {
        if clients[at].1 == id {
            assert(first_with_id(clients@, id, at as int));
            return Some(clients[at].0);
        }
        at += 1;
    }
    None
}

} // verus!
