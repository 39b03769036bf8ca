use std::collections::HashMap;
use vstd::prelude::*;

use crate::common::{camera_plans, catalog_plans, StreamPlan};
use crate::config::{keys_unique, Camera, CameraId, ClusterVmsConfig, StreamId};

verus! {

/// Lookup table from (camera id, stream id) to the track sink of that stream.
pub struct TrackRegistry<T> {
    cameras: HashMap<CameraId, HashMap<StreamId, T>>,
}

impl<T> TrackRegistry<T> {
    /// The handle registered for (`camera`, `stream`), if any.
    pub closed spec fn get_spec(&self, camera: CameraId, stream: StreamId) -> Option<T> {
        if self.cameras@.contains_key(camera) && self.cameras@[camera]@.contains_key(stream) {
            Some(self.cameras@[camera]@[stream])
        } else {
            None
        }
    }

    /// A registry with no entries.
    pub fn new() -> (r: TrackRegistry<T>)
        ensures
            forall|c: CameraId, s: StreamId| (#[trigger] r.get_spec(c, s)) is None,
    {
        TrackRegistry { cameras: HashMap::new() }
    }

    /// Registers `handle` for (`camera`, `stream`), replacing any earlier one.
    pub fn insert(&mut self, camera: CameraId, stream: StreamId, handle: T)
        ensures
            final(self).get_spec(camera, stream) == Some(handle),
            forall|c: CameraId, s: StreamId|
                !(c == camera && s == stream) ==> #[trigger] final(self).get_spec(c, s) == old(
                    self,
                ).get_spec(c, s),
    {
        broadcast use vstd::std_specs::hash::group_hash_axioms;

        let ghost prev = self.cameras@;
        let mut streams = match self.cameras.remove(&camera) {
            Some(streams) => streams,
            None => HashMap::new(),
        };
        let ghost prev_streams = streams@;
        assert(prev.contains_key(camera) ==> prev_streams == prev[camera]@);
        assert(!prev.contains_key(camera) ==> prev_streams == Map::<StreamId, T>::empty());
        streams.insert(stream, handle);
        self.cameras.insert(camera, streams);
    }

    /// The handle registered for (`camera`, `stream`); `None` for an unknown stream.
    pub fn lookup(&self, camera: CameraId, stream: StreamId) -> (r: Option<&T>)
        ensures
            match r {
                Some(h) => self.get_spec(camera, stream) == Some(*h),
                None => self.get_spec(camera, stream) is None,
            },
    {
        broadcast use vstd::std_specs::hash::group_hash_axioms;

        match self.cameras.get(&camera) {
            Some(streams) => streams.get(&stream),
            None => None,
        }
    }
}

/// No two plans name the same (camera, stream) pair.
pub open spec fn plan_keys_distinct(plans: Seq<StreamPlan>) -> bool {
    forall|i: int, j: int|
        0 <= i < plans.len() && 0 <= j < plans.len() && i != j ==> !(plans[i].camera_id
            == plans[j].camera_id && plans[i].stream_id == plans[j].stream_id)
}

/// Builds the registry from the configured streams and one handle per stream,
/// in the same order: each planned pair gets its handle, and nothing else is registered.
pub fn register_all<T>(plans: &Vec<StreamPlan>, handles: Vec<T>) -> (r: TrackRegistry<T>)
    requires
        plans@.len() == handles@.len(),
    ensures
        forall|i: int|
            0 <= i < plans@.len() ==> (#[trigger] r.get_spec(
                plans@[i].camera_id,
                plans@[i].stream_id,
            )) is Some,
        plan_keys_distinct(plans@) ==> forall|i: int|
            0 <= i < plans@.len() ==> #[trigger] r.get_spec(plans@[i].camera_id, plans@[i].stream_id)
                == Some(handles@[i]),
        forall|c: CameraId, s: StreamId| #[trigger]
            r.get_spec(c, s) is Some ==> exists|i: int|
                0 <= i < plans@.len() && plans@[i].camera_id == c && plans@[i].stream_id == s,
{
    let mut reg: TrackRegistry<T> = TrackRegistry::new();
    let mut rest = handles;
    let mut i: usize = 0;
    while i < plans.len()
        invariant
            i <= plans@.len(),
            plans@.len() == handles@.len(),
            rest@ == handles@.subrange(i as int, handles@.len() as int),
            forall|k: int|
                0 <= k < i ==> (#[trigger] reg.get_spec(
                    plans@[k].camera_id,
                    plans@[k].stream_id,
                )) is Some,
            plan_keys_distinct(plans@) ==> forall|k: int|
                0 <= k < i ==> #[trigger] reg.get_spec(plans@[k].camera_id, plans@[k].stream_id)
                    == Some(handles@[k]),
            forall|c: CameraId, s: StreamId| #[trigger]
                reg.get_spec(c, s) is Some ==> exists|k: int|
                    0 <= k < i && plans@[k].camera_id == c && plans@[k].stream_id == s,
        decreases plans@.len() - i,
    {
        let handle = rest.remove(0);
        assert(handle == handles@[i as int]);
        assert(rest@ =~= handles@.subrange(i + 1, handles@.len() as int));
        let ghost before = reg;
        reg.insert(plans[i].camera_id, plans[i].stream_id, handle);
        assert forall|c: CameraId, s: StreamId| #[trigger]
            reg.get_spec(c, s) is Some implies exists|k: int|
                0 <= k < i + 1 && plans@[k].camera_id == c && plans@[k].stream_id == s by {
            if !(c == plans@[i as int].camera_id && s == plans@[i as int].stream_id) {
                assert(before.get_spec(c, s) is Some);
            }
        }
        i = i + 1;
    }
    reg
}

/// Every stream of every camera of `cameras` has a plan, at some position.
proof fn lemma_catalog_plans_cover(cameras: Seq<(CameraId, Camera)>, i: int, j: int) -> (k: int)
    requires
        0 <= i < cameras.len(),
        0 <= j < cameras[i].1.streams@.len(),
    ensures
        0 <= k < catalog_plans(cameras).len(),
        catalog_plans(cameras)[k].0 == cameras[i].0,
        catalog_plans(cameras)[k].1 == cameras[i].1.streams@[j].0,
    decreases cameras.len(),
{
    let prefix = catalog_plans(cameras.drop_last());
    let last = cameras.last();
    if i == cameras.len() - 1 {
        assert(camera_plans(last.0, last.1)[j] == catalog_plans(cameras)[prefix.len() + j]);
        prefix.len() + j
    } else {
        let k = lemma_catalog_plans_cover(cameras.drop_last(), i, j);
        assert(catalog_plans(cameras)[k] == prefix[k]);
        k
    }
}

/// Every plan of `cameras` is for a stream that the catalog holds.
proof fn lemma_catalog_plans_sound(cameras: Seq<(CameraId, Camera)>, k: int) -> (ij: (int, int))
    requires
        0 <= k < catalog_plans(cameras).len(),
    ensures
        0 <= ij.0 < cameras.len(),
        0 <= ij.1 < cameras[ij.0].1.streams@.len(),
        catalog_plans(cameras)[k].0 == cameras[ij.0].0,
        catalog_plans(cameras)[k].1 == cameras[ij.0].1.streams@[ij.1].0,
    decreases cameras.len(),
{
    let prefix = catalog_plans(cameras.drop_last());
    if k < prefix.len() {
        let (i, j) = lemma_catalog_plans_sound(cameras.drop_last(), k);
        assert(catalog_plans(cameras)[k] == prefix[k]);
        (i, j)
    } else {
        let last = cameras.last();
        assert(catalog_plans(cameras)[k] == camera_plans(last.0, last.1)[k - prefix.len()]);
        (cameras.len() - 1, k - prefix.len())
    }
}

/// Once every configured stream has been registered, whether or not its camera
/// can be reached, the registry holds an entry for every (camera, stream) pair
/// of the catalog, and for no other pair.
pub proof fn lemma_registry_covers_catalog<T>(
    config: ClusterVmsConfig,
    plans: Seq<StreamPlan>,
    registry: TrackRegistry<T>,
)
    requires
        plans.map_values(|p: StreamPlan| p.view()) == catalog_plans(config.cameras@),
        forall|i: int|
            0 <= i < plans.len() ==> (#[trigger] registry.get_spec(
                plans[i].camera_id,
                plans[i].stream_id,
            )) is Some,
        forall|c: CameraId, s: StreamId| #[trigger]
            registry.get_spec(c, s) is Some ==> exists|i: int|
                0 <= i < plans.len() && plans[i].camera_id == c && plans[i].stream_id == s,
    ensures
        forall|c: CameraId, s: StreamId| #[trigger]
            config.has_stream(c, s) <==> registry.get_spec(c, s) is Some,
{
    assert forall|c: CameraId, s: StreamId| #[trigger]
        registry.get_spec(c, s) is Some implies config.has_stream(c, s) by {
        let k = choose|k: int|
            0 <= k < plans.len() && plans[k].camera_id == c && plans[k].stream_id == s;
        assert(plans.map_values(|p: StreamPlan| p.view())[k] == plans[k].view());
        let (i, j) = lemma_catalog_plans_sound(config.cameras@, k);
        assert(config.cameras@[i].0 == c && config.cameras@[i].1.streams@[j].0 == s);
    }
    assert forall|c: CameraId, s: StreamId| #[trigger]
        config.has_stream(c, s) implies registry.get_spec(c, s) is Some by {
        let (i, j) = choose|i: int, j: int|
            0 <= i < config.cameras@.len() && 0 <= j < config.cameras@[i].1.streams@.len()
                && #[trigger] config.cameras@[i].0 == c
                && #[trigger] config.cameras@[i].1.streams@[j].0 == s;
        let k = lemma_catalog_plans_cover(config.cameras@, i, j);
        assert(plans.map_values(|p: StreamPlan| p.view())[k] == plans[k].view());
        assert(registry.get_spec(plans[k].camera_id, plans[k].stream_id) is Some);
    }
}

/// In a catalog with unique camera ids, and unique stream ids within each
/// camera, no two plans share a (camera, stream) pair.
proof fn lemma_catalog_plans_distinct(cameras: Seq<(CameraId, Camera)>)
    requires
        keys_unique(cameras),
        forall|i: int| 0 <= i < cameras.len() ==> (#[trigger] cameras[i]).1.wf(),
    ensures
        forall|a: int, b: int|
            0 <= a < catalog_plans(cameras).len() && 0 <= b < catalog_plans(cameras).len() && a
                != b ==> !(catalog_plans(cameras)[a].0 == catalog_plans(cameras)[b].0
                && catalog_plans(cameras)[a].1 == catalog_plans(cameras)[b].1),
    decreases cameras.len(),
{
    if cameras.len() > 0 {
        let init = cameras.drop_last();
        assert forall|i: int| 0 <= i < init.len() implies (#[trigger] init[i]).1.wf() by {
            assert(init[i] == cameras[i]);
        }
        lemma_catalog_plans_distinct(init);
        let prefix = catalog_plans(init);
        let last = cameras.last();
        let all = catalog_plans(cameras);
        assert(cameras[cameras.len() - 1].1.wf());
        assert forall|a: int, b: int|
            0 <= a < all.len() && 0 <= b < all.len() && a != b implies !(all[a].0 == all[b].0
            && all[a].1 == all[b].1) by {
            if a < prefix.len() && b < prefix.len() {
                assert(all[a] == prefix[a] && all[b] == prefix[b]);
            } else if a >= prefix.len() && b >= prefix.len() {
                assert(all[a] == camera_plans(last.0, last.1)[a - prefix.len()]);
                assert(all[b] == camera_plans(last.0, last.1)[b - prefix.len()]);
            } else {
                let (p, q) = if a < prefix.len() { (a, b) } else { (b, a) };
                let (i, j) = lemma_catalog_plans_sound(init, p);
                assert(all[p] == prefix[p]);
                assert(init[i] == cameras[i]);
                assert(all[q] == camera_plans(last.0, last.1)[q - prefix.len()]);
                assert(cameras[i].0 != cameras[cameras.len() - 1].0);
            }
        }
    }
}

/// The streams listed for a well-formed catalog are pairwise distinct, so each
/// configured stream gets exactly the handle created for it.
pub proof fn lemma_configured_streams_distinct(config: ClusterVmsConfig, plans: Seq<StreamPlan>)
    requires
        config.wf(),
        plans.map_values(|p: StreamPlan| p.view()) == catalog_plans(config.cameras@),
    ensures
        plan_keys_distinct(plans),
{
    lemma_catalog_plans_distinct(config.cameras@);
    assert forall|a: int, b: int|
        0 <= a < plans.len() && 0 <= b < plans.len() && a != b implies !(plans[a].camera_id
        == plans[b].camera_id && plans[a].stream_id == plans[b].stream_id) by {
        assert(plans.map_values(|p: StreamPlan| p.view())[a] == plans[a].view());
        assert(plans.map_values(|p: StreamPlan| p.view())[b] == plans[b].view());
    }
}

} // verus!
