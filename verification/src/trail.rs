//! The trail of Orion's past positions drawn during the transit: a bounded
//! buffer that forgets the oldest point when full.
use vstd::prelude::*;
use std::collections::VecDeque;

verus! {

/// The most points the trail keeps.
pub const TRAIL_MAX: usize = 500;

/// The trail after adding `point` to `trail`: when full, the oldest point
/// goes first.
pub open spec fn trail_after<T>(trail: Seq<T>, point: T) -> Seq<T> {
    if trail.len() >= TRAIL_MAX {
        trail.drop_first().push(point)
    } else {
        trail.push(point)
    }
}

/// Adds `point` to the end of the trail, dropping the oldest point when the
/// trail is full.
pub fn push_trail<T>(trail: &mut VecDeque<T>, point: T)
    requires
        old(trail)@.len() <= TRAIL_MAX,
    ensures
        final(trail)@ == trail_after(old(trail)@, point),
{
    if trail.len() >= TRAIL_MAX {
        let _ = trail.pop_front();
    }
    trail.push_back(point);
}

/// Law: the trail never grows past its bound, and its newest point is the one
/// last added.
pub proof fn lemma_trail_bounded<T>(trail: Seq<T>, point: T)
    requires
        trail.len() <= TRAIL_MAX,
    ensures
        trail_after(trail, point).len() <= TRAIL_MAX,
        trail_after(trail, point).len() > 0,
        trail_after(trail, point).last() == point,
{
}

} // verus!
