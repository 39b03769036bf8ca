use vstd::prelude::*;

use crate::config::{Camera, CameraId, ClusterVmsConfig, Stream, StreamId};

verus! {

/// What one connect attempt needs: the source URL and resolved credentials.
#[derive(Clone, Debug)]
pub struct StreamSettings {
    pub source_url: String,
    pub username: String,
    pub password: String,
}

/// A credential as used for a connect attempt: absent means empty.
pub open spec fn credential_or_empty(c: Option<String>) -> Seq<char> {
    match c {
        Some(s) => s@,
        None => Seq::empty(),
    }
}

/// The settings for `stream` of `camera`.
pub open spec fn settings_of(camera: Camera, stream: Stream) -> (Seq<char>, Seq<char>, Seq<char>) {
    (stream.source_url@, credential_or_empty(camera.username), credential_or_empty(camera.password))
}

impl StreamSettings {
    pub open spec fn view(&self) -> (Seq<char>, Seq<char>, Seq<char>) {
        (self.source_url@, self.username@, self.password@)
    }

    /// Builds the settings for one connect attempt; absent credentials become empty strings.
    pub fn resolve(camera: &Camera, stream: &Stream) -> (r: StreamSettings)
        ensures
            r.view() == settings_of(*camera, *stream),
    {
        let username = match &camera.username {
            Some(u) => u.clone(),
            None => String::new(),
        };
        let password = match &camera.password {
            Some(p) => p.clone(),
            None => String::new(),
        };
        StreamSettings { source_url: stream.source_url.clone(), username, password }
    }
}

/// One configured (camera, stream) pair with the settings to connect to it.
pub struct StreamPlan {
    pub camera_id: CameraId,
    pub stream_id: StreamId,
    pub settings: StreamSettings,
}

impl StreamPlan {
    pub open spec fn view(&self) -> (CameraId, StreamId, (Seq<char>, Seq<char>, Seq<char>)) {
        (self.camera_id, self.stream_id, self.settings.view())
    }
}

/// The plans for the streams of one camera, in catalog order.
pub open spec fn camera_plans(id: CameraId, camera: Camera) -> Seq<
    (CameraId, StreamId, (Seq<char>, Seq<char>, Seq<char>)),
> {
    camera.streams@.map_values(
        |e: (StreamId, Stream)| (id, e.0, settings_of(camera, e.1)),
    )
}

/// The plans for every stream of every camera, in catalog order.
pub open spec fn catalog_plans(cameras: Seq<(CameraId, Camera)>) -> Seq<
    (CameraId, StreamId, (Seq<char>, Seq<char>, Seq<char>)),
>
    decreases cameras.len(),
{
    if cameras.len() == 0 {
        Seq::empty()
    } else {
        let last = cameras.last();
        catalog_plans(cameras.drop_last()) + camera_plans(last.0, last.1)
    }
}

/// Lists every configured (camera, stream) pair with its connect settings.
pub fn configured_streams(config: &ClusterVmsConfig) -> (r: Vec<StreamPlan>)
    ensures
        r@.map_values(|p: StreamPlan| p.view()) == catalog_plans(config.cameras@),
{
    let mut plans: Vec<StreamPlan> = Vec::new();
    let mut i: usize = 0;
    while i < config.cameras.len()
        invariant
            i <= config.cameras@.len(),
            plans@.map_values(|p: StreamPlan| p.view()) == catalog_plans(
                config.cameras@.take(i as int),
            ),
        decreases config.cameras@.len() - i,
    {
        let entry = &config.cameras[i];
        let camera_id = entry.0;
        let camera = &entry.1;
        let ghost before = plans@.map_values(|p: StreamPlan| p.view());
        let mut j: usize = 0;
        while j < camera.streams.len()
            invariant
                i < config.cameras@.len(),
                camera == &config.cameras@[i as int].1,
                camera_id == config.cameras@[i as int].0,
                j <= camera.streams@.len(),
                before == catalog_plans(config.cameras@.take(i as int)),
                plans@.map_values(|p: StreamPlan| p.view()) == before + camera_plans(
                    camera_id,
                    *camera,
                ).take(j as int),
            decreases camera.streams@.len() - j,
        {
            let s = &camera.streams[j];
            let settings = StreamSettings::resolve(camera, &s.1);
            let ghost prev = plans@;
            let plan = StreamPlan { camera_id, stream_id: s.0, settings };
            assert(plan.view() == camera_plans(camera_id, *camera)[j as int]);
            plans.push(plan);
            assert(plans@.map_values(|p: StreamPlan| p.view()) =~= prev.map_values(
                |p: StreamPlan| p.view(),
            ).push(plan.view()));
            assert(camera_plans(camera_id, *camera).take(j + 1) =~= camera_plans(
                camera_id,
                *camera,
            ).take(j as int).push(camera_plans(camera_id, *camera)[j as int]));
            assert(plans@.map_values(|p: StreamPlan| p.view()) =~= before + camera_plans(
                camera_id,
                *camera,
            ).take(j + 1));
            j = j + 1;
        }
        assert(camera_plans(camera_id, *camera).take(j as int) =~= camera_plans(
            camera_id,
            *camera,
        ));
        assert(config.cameras@.take(i + 1).drop_last() =~= config.cameras@.take(i as int));
        i = i + 1;
    }
    assert(config.cameras@.take(i as int) =~= config.cameras@);
    plans
}

} // verus!
