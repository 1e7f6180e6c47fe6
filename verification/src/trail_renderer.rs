//! The cap on how many points a motion trail records.

use vstd::prelude::*;

verus! {

/// Appends `point` when the trail holds fewer than `max_points` points, and
/// leaves the trail as it is otherwise. Returns whether the point was added.
/// A trail within its cap stays within it.
pub fn push_capped<T>(points: &mut Vec<T>, point: T, max_points: usize) -> (added: bool)
    ensures
        added == (old(points).len() < max_points),
        added ==> final(points)@ == old(points)@.push(point),
        !added ==> final(points)@ == old(points)@,
        old(points).len() <= max_points ==> final(points).len() <= max_points,
{
    if points.len() < max_points {
        points.push(point);
        true
    } else {
        false
    }
}

} // verus!
