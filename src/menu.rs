//! The menu state machine, which alone decides when colliders are spawned and
//! destroyed, and which ties the pointer tracker, the proxy registry and the
//! selection resolver together.
//!
//! Each tick the host calls, in order: `press` or `release` on the edges of the
//! hold input (and `complete_arm` with the results of the spawns that `press`
//! asked for), `track_pointer` and `set_viewport_size`, `probe_target` to move
//! the probe, then, after the physics step, `handle_collisions`.
use vstd::prelude::*;
use crate::layout::{SegmentSpec, layout, segment_spec, valid_segment_count};
use crate::pointer::{PointerState, ProbePlacement};
use crate::proxy::{
    SegmentProxy, SpawnRequest, allocated, allocated_handles, build_segment_proxies,
    collect_live_handles, is_spawn_complete, live_handles, plan_spawn, segment_of,
    segment_of_finds_registered, segment_of_is_registered, segment_proxies, spawn_complete, spawn_requests,
};
use crate::selection::{CollisionEvent, next_hot, resolve};

verus! {

/// The state of the menu.
#[derive(Clone, Copy, Debug, PartialEq, Eq, Structural)]
pub enum MenuState {
    /// No colliders exist.
    Idle,
    /// The hold input was pressed and the colliders are being spawned.
    Arming,
    /// The colliders exist and the pointer is tracked.
    Active,
    /// The colliders are being destroyed; never seen between calls.
    Disarming,
}

/// Where the host should move the probe collider this tick.
#[derive(Debug)]
pub struct ProbeTarget<P> {
    pub handle: u64,
    pub placement: ProbePlacement<P>,
}

/// The abstract state of a menu.
pub ghost struct MenuModel<P> {
    pub state: MenuState,
    pub segment_count: nat,
    pub specs: Seq<SegmentSpec>,
    pub pointer: PointerState<P>,
    pub probe: Option<u64>,
    pub segments: Seq<SegmentProxy>,
    pub hot: Option<usize>,
}

pub open spec fn layout_of(n: nat) -> Seq<SegmentSpec> {
    Seq::new(n, |i: int| segment_spec(n, i as nat))
}

impl<P> MenuModel<P> {
    pub open spec fn wf(self) -> bool {
        &&& valid_segment_count(self.segment_count)
        &&& self.state != MenuState::Disarming
        &&& (self.state == MenuState::Arming || self.state == MenuState::Active) ==> self.specs
            == layout_of(self.segment_count)
        &&& self.state == MenuState::Active ==> {
            &&& self.probe.is_some()
            &&& self.segments.len() == self.segment_count
            &&& forall|k: int| 0 <= k < self.segments.len() ==> (#[trigger] self.segments[k]).index == k
        }
        &&& self.state != MenuState::Active ==> {
            &&& self.probe.is_none()
            &&& self.segments.len() == 0
            &&& self.hot.is_none()
            &&& self.pointer.initial_position.is_none()
        }
        &&& self.pointer.initial_position.is_some() == self.pointer.current_position.is_some()
        &&& self.hot matches Some(i) ==> i < self.segment_count
    }

    /// Every collider handle that currently exists.
    pub open spec fn live_handles(self) -> Seq<u64> {
        live_handles(self.probe, self.segments)
    }

    /// After a press edge: an idle menu lays out its segments and starts arming.
    pub open spec fn pressed(self) -> MenuModel<P> {
        if self.state == MenuState::Idle {
            MenuModel { state: MenuState::Arming, specs: layout_of(self.segment_count), ..self }
        } else {
            self
        }
    }

    /// What a press edge asks the host to spawn.
    pub open spec fn press_requests(self) -> Seq<SpawnRequest> {
        if self.state == MenuState::Idle {
            spawn_requests(layout_of(self.segment_count))
        } else {
            seq![]
        }
    }

    /// After the host reports the results of the spawns, in the order they
    /// were requested: a complete spawn activates an arming menu; an
    /// incomplete one sends it back to idle.
    pub open spec fn arm_completed(self, spawned: Seq<Option<u64>>) -> MenuModel<P> {
        if self.state == MenuState::Arming {
            if spawn_complete(self.segment_count, spawned) {
                MenuModel {
                    state: MenuState::Active,
                    probe: spawned[0],
                    segments: segment_proxies(self.segment_count, spawned),
                    ..self
                }
            } else {
                MenuModel { state: MenuState::Idle, ..self }
            }
        } else {
            self
        }
    }

    /// The spawned handles that the host must destroy again: all of them,
    /// unless they completed the arming of the menu.
    pub open spec fn arm_discards(self, spawned: Seq<Option<u64>>) -> Seq<u64> {
        if self.state == MenuState::Arming && spawn_complete(self.segment_count, spawned) {
            seq![]
        } else {
            allocated(spawned)
        }
    }

    /// After a release edge: every collider is gone, the pointer positions
    /// and the hot segment are cleared, and the menu is idle.
    pub open spec fn released(self) -> MenuModel<P> {
        MenuModel {
            state: MenuState::Idle,
            pointer: self.pointer.cleared(),
            probe: None,
            segments: seq![],
            hot: None,
            ..self
        }
    }

    /// After the pointer-moved samples of one tick; only an active menu tracks.
    pub open spec fn after_samples(self, samples: Seq<P>) -> MenuModel<P> {
        if self.state == MenuState::Active {
            MenuModel { pointer: self.pointer.after_samples(samples), ..self }
        } else {
            self
        }
    }

    /// After the host reports the viewport size.
    pub open spec fn with_viewport(self, size: P) -> MenuModel<P> {
        MenuModel {
            pointer: PointerState { viewport_size: Some(size), ..self.pointer },
            ..self
        }
    }

    /// After one collision event; only an active menu resolves.
    pub open spec fn after_event(self, event: CollisionEvent) -> MenuModel<P> {
        if self.state == MenuState::Active {
            MenuModel { hot: next_hot(self.hot, self.probe, self.segments, event), ..self }
        } else {
            self
        }
    }

    /// After the collision events of one tick, in delivery order.
    pub open spec fn after_events(self, events: Seq<CollisionEvent>) -> MenuModel<P>
        decreases events.len(),
    {
        if events.len() == 0 {
            self
        } else {
            self.after_events(events.drop_last()).after_event(events.last())
        }
    }

    /// Where the probe goes: only while active, and only once both the
    /// pointer and the viewport are known; otherwise it stays where it is.
    pub open spec fn probe_target(self) -> Option<ProbeTarget<P>> {
        if self.state == MenuState::Active && self.probe.is_some() {
            match self.pointer.placement() {
                Some(placement) => Some(ProbeTarget { handle: self.probe->0, placement }),
                None => None,
            }
        } else {
            None
        }
    }
}

/// A radial menu and the bookkeeping of its colliders.
pub struct ClickwheelMenu<P> {
    state: MenuState,
    segment_count: usize,
    specs: Vec<SegmentSpec>,
    pointer: PointerState<P>,
    probe: Option<u64>,
    segments: Vec<SegmentProxy>,
    hot: Option<usize>,
}

impl<P> View for ClickwheelMenu<P> {
    type V = MenuModel<P>;

    closed spec fn view(&self) -> MenuModel<P> {
        MenuModel {
            state: self.state,
            segment_count: self.segment_count as nat,
            specs: self.specs@,
            pointer: self.pointer,
            probe: self.probe,
            segments: self.segments@,
            hot: self.hot,
        }
    }
}

impl<P: Copy> ClickwheelMenu<P> {
    /// An idle menu of `segment_count` segments.
    pub fn new(segment_count: usize) -> (r: ClickwheelMenu<P>)
        requires
            valid_segment_count(segment_count as nat),
        ensures
            r@.wf(),
            r@.state == MenuState::Idle,
            r@.segment_count == segment_count,
            r@.specs.len() == 0,
            r@.pointer.viewport_size.is_none(),
    {
        let pointer = PointerState::new();
        ClickwheelMenu {
            state: MenuState::Idle,
            segment_count,
            specs: Vec::new(),
            pointer,
            probe: None,
            segments: Vec::new(),
            hot: None,
        }
    }

    /// The press edge of the hold input. An idle menu lays out its segments
    /// and returns what the host must spawn, probe first; any other press is
    /// ignored and asks for nothing.
    pub fn press(&mut self) -> (r: Vec<SpawnRequest>)
        requires
            old(self)@.wf(),
        ensures
            final(self)@ == old(self)@.pressed(),
            r@ == old(self)@.press_requests(),
            final(self)@.wf(),
    {
        if self.state != MenuState::Idle {
            return Vec::new();
        }
        let specs = layout(self.segment_count);
        assert(specs@ =~= layout_of(self.segment_count as nat));
        let requests = plan_spawn(&specs);
        self.specs = specs;
        self.state = MenuState::Arming;
        requests
    }

    /// Takes in the results of the spawns that `press` asked for, in the same
    /// order (`None` where a body could not be allocated). Spawning is all or
    /// nothing: returns the handles that the host must destroy again.
    pub fn complete_arm(&mut self, spawned: Vec<Option<u64>>) -> (r: Vec<u64>)
        requires
            old(self)@.wf(),
        ensures
            final(self)@ == old(self)@.arm_completed(spawned@),
            r@ == old(self)@.arm_discards(spawned@),
            final(self)@.wf(),
    {
        if self.state == MenuState::Arming {
            if is_spawn_complete(self.segment_count, &spawned) {
                let segments = build_segment_proxies(self.segment_count, &spawned);
                self.probe = spawned[0];
                self.segments = segments;
                self.state = MenuState::Active;
                return Vec::new();
            }
            self.state = MenuState::Idle;
        }
        allocated_handles(&spawned)
    }

    /// The release edge of the hold input, or any other reason to disarm.
    /// Returns every collider handle that the host must destroy; an idle menu
    /// has none and stays as it is.
    pub fn release(&mut self) -> (r: Vec<u64>)
        requires
            old(self)@.wf(),
        ensures
            final(self)@ == old(self)@.released(),
            r@ == old(self)@.live_handles(),
            final(self)@.wf(),
    {
        if self.state != MenuState::Idle {
            self.state = MenuState::Disarming;
        }
        let handles = collect_live_handles(self.probe, &self.segments);
        self.probe = None;
        self.segments = Vec::new();
        self.pointer.clear();
        self.hot = None;
        self.state = MenuState::Idle;
        handles
    }

    /// Takes in the pointer-moved samples of one tick, in arrival order.
    pub fn track_pointer(&mut self, samples: &[P])
        requires
            old(self)@.wf(),
        ensures
            final(self)@ == old(self)@.after_samples(samples@),
            final(self)@.wf(),
    {
        if self.state == MenuState::Active {
            self.pointer.record_samples(samples);
        }
    }

    /// Records the viewport size that the host reports.
    pub fn set_viewport_size(&mut self, size: P)
        requires
            old(self)@.wf(),
        ensures
            final(self)@ == old(self)@.with_viewport(size),
            final(self)@.wf(),
    {
        self.pointer.set_viewport_size(size);
    }

    /// Where the host should move the probe this tick, if anywhere.
    pub fn probe_target(&self) -> (r: Option<ProbeTarget<P>>)
        ensures
            r == self@.probe_target(),
    {
        if self.state != MenuState::Active {
            return None;
        }
        match self.probe {
            None => None,
            Some(handle) => match self.pointer.placement_now() {
                Some(placement) => Some(ProbeTarget { handle, placement }),
                None => None,
            },
        }
    }

    /// Takes in one collision event.
    pub fn handle_collision(&mut self, event: CollisionEvent)
        requires
            old(self)@.wf(),
        ensures
            final(self)@ == old(self)@.after_event(event),
            final(self)@.wf(),
    {
        if self.state == MenuState::Active {
            proof {
                old(self)@.event_keeps_wf(event);
            }
            self.hot = resolve(self.hot, self.probe, &self.segments, event);
        }
    }

    /// Takes in the collision events of one tick, in delivery order.
    pub fn handle_collisions(&mut self, events: &[CollisionEvent])
        requires
            old(self)@.wf(),
        ensures
            final(self)@ == old(self)@.after_events(events@),
            final(self)@.wf(),
    {
        let n = events.len();
        let mut i: usize = 0;
        while i < n
            invariant
                n == events@.len(),
                i <= n,
                self@ == old(self)@.after_events(events@.take(i as int)),
                self@.wf(),
            decreases n - i,
        {
            self.handle_collision(events[i]);
            i = i + 1;
            assert(events@.take(i as int).drop_last() =~= events@.take(i - 1));
        }
        assert(events@.take(n as int) =~= events@);
    }

    /// The state of the menu.
    pub fn state(&self) -> (r: MenuState)
        ensures
            r == self@.state,
    {
        self.state
    }

    /// The segment under the pointer, if any.
    pub fn hot_segment(&self) -> (r: Option<usize>)
        ensures
            r == self@.hot,
    {
        self.hot
    }

    /// Every collider handle that currently exists, probe first.
    pub fn live_handles(&self) -> (r: Vec<u64>)
        ensures
            r@ == self@.live_handles(),
    {
        collect_live_handles(self.probe, &self.segments)
    }

    /// The number of segments.
    pub fn segment_count(&self) -> (r: usize)
        ensures
            r == self@.segment_count,
    {
        self.segment_count
    }

    /// The layout of the current or last session.
    pub fn segment_specs(&self) -> (r: &Vec<SegmentSpec>)
        ensures
            r@ == self@.specs,
    {
        &self.specs
    }

    /// The pointer state.
    pub fn pointer(&self) -> (r: &PointerState<P>)
        ensures
            *r == self@.pointer,
    {
        &self.pointer
    }
}

impl<P> MenuModel<P> {
    proof fn event_keeps_wf(self, event: CollisionEvent)
        requires
            self.wf(),
        ensures
            self.after_event(event).wf(),
    {
        if self.state == MenuState::Active {
            let (a, b) = match event {
                CollisionEvent::Started(a, b) => (a, b),
                CollisionEvent::Stopped(a, b) => (a, b),
            };
            segment_of_is_registered(self.segments, a);
            segment_of_is_registered(self.segments, b);
        }
    }
}

/// Disarming is idempotent: whatever the starting state, one disarm leaves
/// the menu idle with no live collider and no hot segment, and a second one
/// changes nothing more.
pub proof fn disarm_is_idempotent<P>(m: MenuModel<P>)
    requires
        m.wf(),
    ensures
        m.released().state == MenuState::Idle,
        m.released().live_handles().len() == 0,
        m.released().hot.is_none(),
        m.released().released() == m.released(),
{
}

/// Disarming an idle menu changes nothing.
pub proof fn disarm_when_idle_is_noop<P>(m: MenuModel<P>)
    requires
        m.wf(),
        m.state == MenuState::Idle,
    ensures
        m.released() == m,
{
    assert(m.segments =~= seq![]);
    assert(m.pointer.cleared() == m.pointer);
}

/// Spawns and destroys balance: arming asks for the probe and exactly one
/// collider per segment; a complete spawn leaves exactly those colliders
/// live, an incomplete one hands back every handle it got; and disarming
/// afterwards leaves none.
pub proof fn spawn_and_despawn_balance<P>(m: MenuModel<P>, spawned: Seq<Option<u64>>)
    requires
        m.wf(),
        m.state == MenuState::Idle,
    ensures
        m.press_requests().len() == m.segment_count + 1,
        m.press_requests()[0] == SpawnRequest::Probe,
        forall|k: int| 0 <= k < m.segment_count ==> #[trigger] m.press_requests()[k + 1]
            == SpawnRequest::Segment(segment_spec(m.segment_count, k as nat)),
        spawn_complete(m.segment_count, spawned) ==> {
            &&& m.pressed().arm_completed(spawned).state == MenuState::Active
            &&& m.pressed().arm_completed(spawned).segments.len() == m.segment_count
            &&& m.pressed().arm_completed(spawned).live_handles().len() == m.segment_count + 1
            &&& m.pressed().arm_discards(spawned).len() == 0
        },
        !spawn_complete(m.segment_count, spawned) ==> {
            &&& m.pressed().arm_completed(spawned).state == MenuState::Idle
            &&& m.pressed().arm_completed(spawned).live_handles().len() == 0
            &&& m.pressed().arm_discards(spawned) == allocated(spawned)
        },
        m.pressed().arm_completed(spawned).released().live_handles().len() == 0,
{
    let a = m.pressed().arm_completed(spawned);
    assert(a.released().live_handles() =~= seq![]);
    if !spawn_complete(m.segment_count, spawned) {
        assert(a.live_handles() =~= seq![]);
    }
}

/// After a complete spawn whose handles are all different, the handle spawned
/// for segment `k` is correlated with index `k`.
pub proof fn arm_correlates_segments<P>(m: MenuModel<P>, spawned: Seq<Option<u64>>)
    requires
        m.wf(),
        m.state == MenuState::Idle,
        spawn_complete(m.segment_count, spawned),
        forall|i: int, j: int|
            0 <= i < j < spawned.len() ==> #[trigger] spawned[i] != #[trigger] spawned[j],
    ensures
        forall|k: int| 0 <= k < m.segment_count ==> segment_of(
            m.pressed().arm_completed(spawned).segments,
            (#[trigger] spawned[k + 1])->0,
        ) == Some(k as usize),
{
    let segs = m.pressed().arm_completed(spawned).segments;
    assert forall|k: int| 0 <= k < m.segment_count implies segment_of(
        segs,
        (#[trigger] spawned[k + 1])->0,
    ) == Some(k as usize) by {
        assert forall|j: int| 0 <= j < k implies (#[trigger] segs[j]).handle != segs[k].handle by {
            assert(spawned[j + 1] != spawned[k + 1]);
        }
        segment_of_finds_registered(segs, k);
    }
}

/// Whatever collision events arrive, the menu stays well formed, so at most
/// one segment is hot and it is a valid segment index.
pub proof fn hot_segment_stays_valid<P>(m: MenuModel<P>, events: Seq<CollisionEvent>)
    requires
        m.wf(),
    ensures
        m.after_events(events).wf(),
        m.after_events(events).segment_count == m.segment_count,
        m.after_events(events).hot matches Some(i) ==> i < m.segment_count,
    decreases events.len(),
{
    if events.len() > 0 {
        hot_segment_stays_valid(m, events.drop_last());
        m.after_events(events.drop_last()).event_keeps_wf(events.last());
    }
}

/// The probe is not placed before a pointer sample arrives in the session,
/// not even once the viewport size becomes known.
pub proof fn probe_waits_for_pointer<P>(m: MenuModel<P>, spawned: Seq<Option<u64>>, size: P)
    requires
        m.wf(),
        m.state == MenuState::Idle,
    ensures
        m.pressed().arm_completed(spawned).after_samples(seq![]).probe_target().is_none(),
        m.pressed().arm_completed(spawned).after_samples(seq![]).with_viewport(size).probe_target().is_none(),
{
}

} // verus!
