//! The registry of collision proxies: one pointer probe and one collider per
//! segment, each known by the handle that the simulation gave it.
//!
//! The registry never creates or destroys a collider itself. It says what to
//! spawn, takes in what was spawned (all or nothing), and hands back every
//! handle that must be destroyed, so that no handle outlives its session.
use vstd::prelude::*;
use crate::layout::SegmentSpec;

verus! {

/// A collider the host is asked to spawn.
#[derive(Clone, Copy, Debug, PartialEq, Eq, Structural)]
pub enum SpawnRequest {
    /// The small dynamic body that follows the pointer and reports collisions.
    Probe,
    /// The static body of one segment.
    Segment(SegmentSpec),
}

/// A live segment collider and the index of the segment it stands for.
#[derive(Clone, Copy, Debug, PartialEq, Eq, Structural)]
pub struct SegmentProxy {
    pub handle: u64,
    pub index: usize,
}

/// What to spawn for one session: the probe first, then one collider per
/// segment, in segment order.
pub open spec fn spawn_requests(specs: Seq<SegmentSpec>) -> Seq<SpawnRequest> {
    seq![SpawnRequest::Probe] + specs.map_values(|s: SegmentSpec| SpawnRequest::Segment(s))
}

/// The handles among the results of a spawn, in order.
pub open spec fn allocated(spawned: Seq<Option<u64>>) -> Seq<u64>
    decreases spawned.len(),
{
    if spawned.len() == 0 {
        seq![]
    } else {
        let rest = allocated(spawned.drop_last());
        match spawned.last() {
            Some(h) => rest.push(h),
            None => rest,
        }
    }
}

/// Every spawn of a session succeeded.
pub open spec fn spawn_complete(segment_count: nat, spawned: Seq<Option<u64>>) -> bool {
    &&& spawned.len() == segment_count + 1
    &&& forall|k: int| 0 <= k < spawned.len() ==> (#[trigger] spawned[k]).is_some()
}

/// The segment colliders of a complete spawn: result `k + 1` is segment `k`.
pub open spec fn segment_proxies(segment_count: nat, spawned: Seq<Option<u64>>) -> Seq<SegmentProxy> {
    Seq::new(segment_count, |k: int| SegmentProxy { handle: spawned[k + 1]->0, index: k as usize })
}

/// The index of the first segment collider with handle `h`.
pub open spec fn segment_of(segments: Seq<SegmentProxy>, h: u64) -> Option<usize>
    decreases segments.len(),
{
    if segments.len() == 0 {
        None
    } else if segments[0].handle == h {
        Some(segments[0].index)
    } else {
        segment_of(segments.drop_first(), h)
    }
}

/// All live handles: the probe, then the segments in order.
pub open spec fn live_handles(probe: Option<u64>, segments: Seq<SegmentProxy>) -> Seq<u64> {
    let probe_part: Seq<u64> = match probe {
        Some(h) => seq![h],
        None => seq![],
    };
    probe_part + segments.map_values(|s: SegmentProxy| s.handle)
}

/// A segment found by handle is one of the registered segments' indices.
pub proof fn segment_of_is_registered(segments: Seq<SegmentProxy>, h: u64)
    ensures
        segment_of(segments, h) matches Some(i) ==> exists|k: int|
            0 <= k < segments.len() && (#[trigger] segments[k]).index == i,
    decreases segments.len(),
{
    if segments.len() > 0 && segments[0].handle != h {
        segment_of_is_registered(segments.drop_first(), h);
        if let Some(i) = segment_of(segments, h) {
            let k = choose|k: int| 0 <= k < segments.drop_first().len()
                && (#[trigger] segments.drop_first()[k]).index == i;
            assert(segments[k + 1].index == i);
        }
    }
}

/// The handle of a registered segment collider that no earlier collider
/// shares is correlated with that segment's index.
pub proof fn segment_of_finds_registered(segments: Seq<SegmentProxy>, k: int)
    requires
        0 <= k < segments.len(),
        forall|j: int| 0 <= j < k ==> (#[trigger] segments[j]).handle != segments[k].handle,
    ensures
        segment_of(segments, segments[k].handle) == Some(segments[k].index),
    decreases k,
{
    if k > 0 {
        let rest = segments.drop_first();
        assert forall|j: int| 0 <= j < k - 1 implies (#[trigger] rest[j]).handle != rest[k - 1].handle by {
            assert(rest[j] == segments[j + 1]);
        }
        segment_of_finds_registered(rest, k - 1);
        assert(segments[0].handle != segments[k].handle);
    }
}

/// The spawn requests for a layout.
pub fn plan_spawn(specs: &Vec<SegmentSpec>) -> (r: Vec<SpawnRequest>)
    ensures
        r@ == spawn_requests(specs@),
{
    let mut requests: Vec<SpawnRequest> = Vec::new();
    requests.push(SpawnRequest::Probe);
    let n = specs.len();
    let mut i: usize = 0;
    while i < n
        invariant
            n == specs@.len(),
            i <= n,
            requests@ == spawn_requests(specs@.take(i as int)),
        decreases n - i,
    {
        requests.push(SpawnRequest::Segment(specs[i]));
        i = i + 1;
        assert(requests@ =~= spawn_requests(specs@.take(i as int)));
    }
    assert(specs@.take(n as int) =~= specs@);
    requests
}

/// The handles among the results of a spawn, in order.
pub fn allocated_handles(spawned: &Vec<Option<u64>>) -> (r: Vec<u64>)
    ensures
        r@ == allocated(spawned@),
{
    let mut handles: Vec<u64> = Vec::new();
    let n = spawned.len();
    let mut i: usize = 0;
    while i < n
        invariant
            n == spawned@.len(),
            i <= n,
            handles@ == allocated(spawned@.take(i as int)),
        decreases n - i,
    {
        assert(spawned@.take(i + 1).drop_last() =~= spawned@.take(i as int));
        if let Some(h) = spawned[i] {
            handles.push(h);
        }
        i = i + 1;
    }
    assert(spawned@.take(n as int) =~= spawned@);
    handles
}

/// Whether every spawn of a session succeeded.
pub fn is_spawn_complete(segment_count: usize, spawned: &Vec<Option<u64>>) -> (r: bool)
    ensures
        r == spawn_complete(segment_count as nat, spawned@),
{
    if spawned.len() == 0 || spawned.len() - 1 != segment_count {
        return false;
    }
    let mut i: usize = 0;
    while i < spawned.len()
        invariant
            i <= spawned@.len(),
            forall|k: int| 0 <= k < i ==> (#[trigger] spawned@[k]).is_some(),
        decreases spawned@.len() - i,
    {
        if spawned[i].is_none() {
            return false;
        }
        i = i + 1;
    }
    true
}

/// The segment colliders of a complete spawn.
pub fn build_segment_proxies(segment_count: usize, spawned: &Vec<Option<u64>>) -> (r: Vec<SegmentProxy>)
    requires
        spawn_complete(segment_count as nat, spawned@),
    ensures
        r@ == segment_proxies(segment_count as nat, spawned@),
{
    let mut segments: Vec<SegmentProxy> = Vec::new();
    let mut k: usize = 0;
    while k < segment_count
        invariant
            k <= segment_count,
            spawn_complete(segment_count as nat, spawned@),
            segments@.len() == k,
            forall|j: int| 0 <= j < k ==> #[trigger] segments@[j]
                == segment_proxies(segment_count as nat, spawned@)[j],
        decreases segment_count - k,
    {
        assert(spawned@[k + 1].is_some());
        let h = spawned[k + 1].unwrap();
        segments.push(SegmentProxy { handle: h, index: k });
        k = k + 1;
    }
    assert(segments@ =~= segment_proxies(segment_count as nat, spawned@));
    segments
}

/// The index of the first segment collider with handle `h`.
pub fn find_segment(segments: &Vec<SegmentProxy>, h: u64) -> (r: Option<usize>)
    ensures
        r == segment_of(segments@, h),
{
    let n = segments.len();
    let mut i: usize = 0;
    assert(segments@.subrange(0, n as int) =~= segments@);
    while i < n
        invariant
            n == segments@.len(),
            i <= n,
            segment_of(segments@, h) == segment_of(segments@.subrange(i as int, n as int), h),
        decreases n - i,
    {
        assert(segments@.subrange(i as int, n as int).drop_first()
            =~= segments@.subrange(i + 1, n as int));
        if segments[i].handle == h {
            return Some(segments[i].index);
        }
        i = i + 1;
    }
    None
}

/// All live handles: the probe, then the segments in order.
pub fn collect_live_handles(probe: Option<u64>, segments: &Vec<SegmentProxy>) -> (r: Vec<u64>)
    ensures
        r@ == live_handles(probe, segments@),
{
    let mut handles: Vec<u64> = Vec::new();
    if let Some(h) = probe {
        handles.push(h);
    }
    let ghost start = handles@;
    let n = segments.len();
    let mut i: usize = 0;
    while i < n
        invariant
            n == segments@.len(),
            i <= n,
            handles@ == start + segments@.take(i as int).map_values(|s: SegmentProxy| s.handle),
        decreases n - i,
    {
        handles.push(segments[i].handle);
        i = i + 1;
        assert(handles@ =~= start + segments@.take(i as int).map_values(|s: SegmentProxy| s.handle));
    }
    assert(segments@.take(n as int) =~= segments@);
    assert(handles@ =~= live_handles(probe, segments@));
    handles
}

} // verus!
