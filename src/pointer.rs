//! Pointer tracking in the menu's local space.
//!
//! Positions and sizes are host values (screen coordinates in floating point)
//! that the tracker stores and hands back without looking inside them.
use vstd::prelude::*;

verus! {

/// Where the pointer started and where it is now during one active session,
/// and the last viewport size that the host reported.
#[derive(Debug)]
pub struct PointerState<P> {
    pub initial_position: Option<P>,
    pub current_position: Option<P>,
    pub viewport_size: Option<P>,
}

/// The pointer position and viewport size from which the host places the
/// probe collider (at `position - viewport_size / 2`).
#[derive(Debug)]
pub struct ProbePlacement<P> {
    pub position: P,
    pub viewport_size: P,
}

impl<P> PointerState<P> {
    /// The state after the samples of one tick, taken in arrival order: the
    /// first sample of a session becomes the initial position, and the last
    /// one is the current position.
    pub open spec fn after_samples(self, samples: Seq<P>) -> PointerState<P> {
        if samples.len() == 0 {
            self
        } else {
            PointerState {
                initial_position: if self.initial_position.is_none() {
                    Some(samples[0])
                } else {
                    self.initial_position
                },
                current_position: Some(samples.last()),
                viewport_size: self.viewport_size,
            }
        }
    }

    /// The state with both positions forgotten; the viewport size is kept.
    pub open spec fn cleared(self) -> PointerState<P> {
        PointerState { initial_position: None, current_position: None, viewport_size: self.viewport_size }
    }

    /// Where the probe goes, once both the pointer and the viewport are known.
    pub open spec fn placement(self) -> Option<ProbePlacement<P>> {
        match (self.current_position, self.viewport_size) {
            (Some(position), Some(viewport_size)) => Some(ProbePlacement { position, viewport_size }),
            _ => None,
        }
    }
}

impl<P: Copy> PointerState<P> {
    /// A tracker that has seen no pointer and no viewport yet.
    pub fn new() -> (r: PointerState<P>)
        ensures
            r.initial_position.is_none(),
            r.current_position.is_none(),
            r.viewport_size.is_none(),
    {
        PointerState { initial_position: None, current_position: None, viewport_size: None }
    }

    /// Takes in the pointer-moved samples of one tick.
    pub fn record_samples(&mut self, samples: &[P])
        ensures
            *final(self) == old(self).after_samples(samples@),
    {
        let n = samples.len();
        let mut i: usize = 0;
        while i < n
            invariant
                n == samples@.len(),
                i <= n,
                *self == old(self).after_samples(samples@.take(i as int)),
            decreases n - i,
        {
            let sample = samples[i];
            if self.initial_position.is_none() {
                self.initial_position = Some(sample);
            }
            self.current_position = Some(sample);
            i = i + 1;
            assert(samples@.take(i as int).last() == sample);
            assert(samples@.take(i as int)[0] == samples@[0]);
        }
        assert(samples@.take(n as int) =~= samples@);
    }

    /// Records the viewport size reported by the host.
    pub fn set_viewport_size(&mut self, size: P)
        ensures
            final(self).viewport_size == Some(size),
            final(self).initial_position == old(self).initial_position,
            final(self).current_position == old(self).current_position,
    {
        self.viewport_size = Some(size);
    }

    /// Forgets both positions.
    pub fn clear(&mut self)
        ensures
            *final(self) == old(self).cleared(),
    {
        self.initial_position = None;
        self.current_position = None;
    }

    /// The probe placement, if both the pointer and the viewport are known.
    pub fn placement_now(&self) -> (r: Option<ProbePlacement<P>>)
        ensures
            r == self.placement(),
    {
        match (self.current_position, self.viewport_size) {
            (Some(position), Some(viewport_size)) => Some(ProbePlacement { position, viewport_size }),
            _ => None,
        }
    }
}

} // verus!
