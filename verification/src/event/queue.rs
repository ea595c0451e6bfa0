//! How much of a signal queue a consumer takes in one tick.

use vstd::prelude::*;

verus! {

/// How a consumer drains a queue of signals.
#[derive(Clone, Copy, Debug, PartialEq, Eq, Structural)]
pub enum DrainPolicy {
    /// Only the oldest signal is taken; the others of the tick are left aside.
    OldestOnly,
    /// Every signal is taken, oldest first.
    All,
}

/// The signals that a consumer with `policy` takes from `queue`.
pub open spec fn drained<T>(queue: Seq<T>, policy: DrainPolicy) -> Seq<T> {
    match policy {
        DrainPolicy::OldestOnly => if queue.len() > 0 {
            seq![queue[0]]
        } else {
            Seq::empty()
        },
        DrainPolicy::All => queue,
    }
}

/// The signals that a consumer with `policy` takes from `queue`, oldest first.
pub fn drain<T: Copy>(queue: &Vec<T>, policy: DrainPolicy) -> (taken: Vec<T>)
    ensures
        taken@ == drained(queue@, policy),
{
    let mut taken: Vec<T> = Vec::new();
    let limit: usize = match policy {
        DrainPolicy::OldestOnly => if queue.len() > 0 {
            1
        } else {
            0
        },
        DrainPolicy::All => queue.len(),
    };
    let mut i: usize = 0;
    while i < limit
        invariant
            i <= limit <= queue.len(),
            taken@ == queue@.take(i as int),
        decreases limit - i,
    {
        taken.push(queue[i]);
        proof {
            assert(taken@ =~= queue@.take(i + 1));
        }
        i = i + 1;
    }
    proof {
        match policy {
            DrainPolicy::OldestOnly => {
                assert(queue@.take(limit as int) =~= drained(queue@, policy));
            },
            DrainPolicy::All => {
                assert(queue@.take(limit as int) =~= queue@);
            },
        }
    }
    taken
}

/// Movement intents are coalesced: one proximity signal a tick is taken up.
pub const PROXIMITY_DRAIN: DrainPolicy = DrainPolicy::OldestOnly;

/// One request to go after a target is taken up a tick.
pub const MOVEMENT_DRAIN: DrainPolicy = DrainPolicy::OldestOnly;

/// Every attack request of a tick is resolved.
pub const ATTACK_DRAIN: DrainPolicy = DrainPolicy::All;

} // verus!
