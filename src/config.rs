use vstd::prelude::*;

verus! {

/// Identifier of a camera within a loaded configuration.
pub type CameraId = u64;

/// Identifier of a stream within one camera.
pub type StreamId = u64;

/// One source stream of a camera.
#[derive(Clone, Debug)]
pub struct Stream {
    pub source_url: String,
}

/// One camera: optional credentials and its streams, keyed by stream id.
#[derive(Clone, Debug)]
pub struct Camera {
    pub username: Option<String>,
    pub password: Option<String>,
    pub streams: Vec<(StreamId, Stream)>,
}

/// The camera catalog, keyed by camera id.
#[derive(Clone, Debug)]
pub struct ClusterVmsConfig {
    pub cameras: Vec<(CameraId, Camera)>,
}

/// No two entries of `s` share a key.
pub open spec fn keys_unique<K, V>(s: Seq<(K, V)>) -> bool {
    forall|i: int, j: int| 0 <= i < s.len() && 0 <= j < s.len() && i != j ==> s[i].0 != s[j].0
}

impl Camera {
    pub open spec fn wf(&self) -> bool {
        keys_unique(self.streams@)
    }
}

impl ClusterVmsConfig {
    /// Camera ids are unique, and so are the stream ids within each camera.
    pub open spec fn wf(&self) -> bool {
        &&& keys_unique(self.cameras@)
        &&& forall|i: int| 0 <= i < self.cameras@.len() ==> (#[trigger] self.cameras@[i]).1.wf()
    }

    /// The catalog holds a stream `stream` under camera `camera`.
    pub open spec fn has_stream(&self, camera: CameraId, stream: StreamId) -> bool {
        exists|i: int, j: int|
            0 <= i < self.cameras@.len() && 0 <= j < self.cameras@[i].1.streams@.len()
                && #[trigger] self.cameras@[i].0 == camera
                && #[trigger] self.cameras@[i].1.streams@[j].0 == stream
    }

    /// An empty catalog.
    pub fn empty() -> (r: ClusterVmsConfig)
        ensures
            r.cameras@.len() == 0,
            r.wf(),
    {
        ClusterVmsConfig { cameras: Vec::new() }
    }
}

impl Default for ClusterVmsConfig {
    fn default() -> (r: ClusterVmsConfig)
        ensures
            r.cameras@.len() == 0,
    {
        ClusterVmsConfig::empty()
    }
}

/// Holds the catalog that the process runs with.
pub struct ConfigManager {
    config: ClusterVmsConfig,
}

impl ConfigManager {
    pub closed spec fn config_spec(&self) -> &ClusterVmsConfig {
        &self.config
    }

    /// A manager holding the empty catalog.
    pub fn new() -> (r: ConfigManager)
        ensures
            r.config_spec().cameras@.len() == 0,
            r.config_spec().wf(),
    {
        ConfigManager { config: ClusterVmsConfig::empty() }
    }

    /// Replaces the catalog with one loaded from the configuration sources.
    pub fn set_config(&mut self, config: ClusterVmsConfig)
        ensures
            final(self).config_spec() == &config,
    {
        self.config = config;
    }

    /// The current catalog.
    pub fn get_config(&self) -> (r: &ClusterVmsConfig)
        ensures
            r == self.config_spec(),
    {
        &self.config
    }
}

} // verus!
