//! The input buffer: a FIFO queue of directional intents. Once per movement
//! tick the queue is drained from the front until an acceptable intent is
//! found (one that neither repeats the current heading nor reverses it);
//! unacceptable intents are discarded.

use vstd::prelude::*;
use std::collections::VecDeque;
use crate::direction::{acceptable, Direction};

verus! {

/// The heading that draining the queue `q` yields under current heading
/// `heading`: the first acceptable intent, or `heading` itself if none is.
pub open spec fn consume_result(q: Seq<Direction>, heading: Direction) -> Direction
    decreases q.len(),
{
    if q.len() == 0 {
        heading
    } else if acceptable(q[0], heading) {
        q[0]
    } else {
        consume_result(q.drop_first(), heading)
    }
}

/// What is left of the queue `q` after draining under heading `heading`:
/// everything behind the first acceptable intent, or nothing.
pub open spec fn consume_rest(q: Seq<Direction>, heading: Direction) -> Seq<Direction>
    decreases q.len(),
{
    if q.len() == 0 {
        q
    } else if acceptable(q[0], heading) {
        q.drop_first()
    } else {
        consume_rest(q.drop_first(), heading)
    }
}

/// Drains intents from the front of `queue` until one is acceptable under
/// `heading` and returns it as the new heading, discarding the unacceptable
/// ones; returns `heading` unchanged if the queue empties first.
pub fn consume_one(queue: &mut VecDeque<Direction>, heading: Direction) -> (r: Direction)
    ensures
        r == consume_result(old(queue)@, heading),
        final(queue)@ == consume_rest(old(queue)@, heading),
        acceptable(r, heading) || r == heading,
{
    loop
        invariant
            consume_result(queue@, heading) == consume_result(old(queue)@, heading),
            consume_rest(queue@, heading) == consume_rest(old(queue)@, heading),
        ensures
            consume_result(old(queue)@, heading) == consume_result(old(queue)@, heading),
        decreases queue@.len(),
    {
        match queue.pop_front() {
            None => {
                return heading;
            },
            Some(intent) => {
                let rejected_reverse = intent == heading.opposite();
                if !rejected_reverse && intent != heading {
                    return intent;
                }
            },
        }
    }
}

/// Law: a queue made up entirely of reversal intents (each the exact
/// opposite of the current heading) changes nothing: draining it yields the
/// heading unchanged, and the whole queue is discarded.
pub proof fn lemma_reversals_all_rejected(q: Seq<Direction>, heading: Direction)
    requires
        forall|i: int| 0 <= i < q.len() ==> q[i] == heading.spec_opposite(),
    ensures
        consume_result(q, heading) == heading,
        consume_rest(q, heading) == Seq::<Direction>::empty(),
    decreases q.len(),
{
    if q.len() == 0 {
        assert(q =~= Seq::<Direction>::empty());
    } else {
        lemma_reversals_all_rejected(q.drop_first(), heading);
    }
}

/// Law: a queue made up entirely of intents equal to the current heading
/// changes nothing: draining it yields the heading unchanged, and the whole
/// queue is discarded.
pub proof fn lemma_same_heading_all_discarded(q: Seq<Direction>, heading: Direction)
    requires
        forall|i: int| 0 <= i < q.len() ==> q[i] == heading,
    ensures
        consume_result(q, heading) == heading,
        consume_rest(q, heading) == Seq::<Direction>::empty(),
    decreases q.len(),
{
    if q.len() == 0 {
        assert(q =~= Seq::<Direction>::empty());
    } else {
        lemma_same_heading_all_discarded(q.drop_first(), heading);
    }
}

} // verus!
