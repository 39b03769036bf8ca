//! Verified core of an RTSP-to-WebRTC gateway: the camera catalog, the
//! per-stream ingestion state machine, the track registry, SDP offer
//! handling, the peer-session teardown rules and the HTTP reply policy.

pub mod common;
pub mod config;
pub mod ingest;
pub mod negotiate;
pub mod peer;
pub mod registry;
pub mod rest_api;
