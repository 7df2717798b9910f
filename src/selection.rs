//! Which segment is hot, decided from the simulation's collision events.
//!
//! The resolver does no geometry of its own: it only correlates the handles in
//! each event with the probe and the registered segment colliders.
use vstd::prelude::*;
use crate::proxy::{SegmentProxy, segment_of, find_segment};

verus! {

/// A collision event between two colliders, as the simulation reports it.
#[derive(Clone, Copy, Debug, PartialEq, Eq, Structural)]
pub enum CollisionEvent {
    /// The two colliders started touching.
    Started(u64, u64),
    /// The two colliders stopped touching.
    Stopped(u64, u64),
}

/// The collider on the other side of an event from the probe, if the probe
/// takes part in it.
pub open spec fn probe_partner(probe: Option<u64>, a: u64, b: u64) -> Option<u64> {
    if probe == Some(a) {
        Some(b)
    } else if probe == Some(b) {
        Some(a)
    } else {
        None
    }
}

/// The hot segment after one event: a started contact between the probe and
/// segment `i` makes `i` hot; a stopped one clears `i` if it is hot. Every
/// other event leaves the hot segment as it is.
pub open spec fn next_hot(
    hot: Option<usize>,
    probe: Option<u64>,
    segments: Seq<SegmentProxy>,
    event: CollisionEvent,
) -> Option<usize> {
    let (a, b, started) = match event {
        CollisionEvent::Started(a, b) => (a, b, true),
        CollisionEvent::Stopped(a, b) => (a, b, false),
    };
    match probe_partner(probe, a, b) {
        None => hot,
        Some(other) => match segment_of(segments, other) {
            None => hot,
            Some(i) => if started {
                Some(i)
            } else if hot == Some(i) {
                None
            } else {
                hot
            },
        },
    }
}

/// Computes the hot segment after one event.
pub fn resolve(
    hot: Option<usize>,
    probe: Option<u64>,
    segments: &Vec<SegmentProxy>,
    event: CollisionEvent,
) -> (r: Option<usize>)
    ensures
        r == next_hot(hot, probe, segments@, event),
{
    let (a, b, started) = match event {
        CollisionEvent::Started(a, b) => (a, b, true),
        CollisionEvent::Stopped(a, b) => (a, b, false),
    };
    let other = if probe == Some(a) {
        b
    } else if probe == Some(b) {
        a
    } else {
        return hot;
    };
    match find_segment(segments, other) {
        None => hot,
        Some(i) => if started {
            Some(i)
        } else if hot == Some(i) {
            None
        } else {
            hot
        },
    }
}

} // verus!
