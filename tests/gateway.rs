use rtsp_to_webrtc::common::{configured_streams, StreamSettings};
use rtsp_to_webrtc::config::{Camera, ClusterVmsConfig, ConfigManager, Stream};
use rtsp_to_webrtc::ingest::{
    find_h264_stream, IngestAction, IngestEvent, IngestManager, Phase, SubStream, DEFAULT_BACKOFF_MS,
};
use rtsp_to_webrtc::negotiate::{
    build_engine, parse_offer, Negotiation, NegotiationConfig, NegotiationError, NegotiationStep, DEFAULT_STUN_SERVER,
};
use rtsp_to_webrtc::peer::{ConnectionState, DrainAction, DrainEvent, DrainTask, FailureObserver};
use rtsp_to_webrtc::registry::{register_all, TrackRegistry};
use rtsp_to_webrtc::rest_api::{not_found, prepare_offer, reply_for, SdpReply, CORS};

const VALID_OFFER: &str = "v=0\r\no=- 0 0 IN IP4 127.0.0.1\r\ns=-\r\nt=0 0\r\n";

fn stream(url: &str) -> Stream {
    Stream { source_url: url.to_string() }
}

fn settings() -> StreamSettings {
    StreamSettings {
        source_url: "rtsp://cam/main".to_string(),
        username: "admin".to_string(),
        password: "pw".to_string(),
    }
}

fn sub(media: &str, enc: &str) -> SubStream {
    SubStream { media: media.to_string(), encoding_name: enc.to_string() }
}

fn two_camera_config() -> ClusterVmsConfig {
    ClusterVmsConfig {
        cameras: vec![
            (
                1,
                Camera {
                    username: Some("alice".to_string()),
                    password: None,
                    streams: vec![(10, stream("rtsp://one/main")), (11, stream("rtsp://one/sub"))],
                },
            ),
            (
                2,
                Camera { username: None, password: Some("secret".to_string()), streams: vec![(20, stream("rtsp://two/main"))] },
            ),
        ],
    }
}

#[test]
fn config_manager_starts_empty() {
    let m = ConfigManager::new();
    assert!(m.get_config().cameras.is_empty());
}

#[test]
fn config_manager_keeps_loaded_catalog() {
    let mut m = ConfigManager::new();
    m.set_config(two_camera_config());
    assert_eq!(m.get_config().cameras.len(), 2);
    assert_eq!(m.get_config().cameras[1].0, 2);
}

#[test]
fn settings_default_missing_credentials_to_empty() {
    let cam = Camera { username: None, password: Some("pw".to_string()), streams: vec![] };
    let s = StreamSettings::resolve(&cam, &stream("rtsp://x/y"));
    assert_eq!(s.source_url, "rtsp://x/y");
    assert_eq!(s.username, "");
    assert_eq!(s.password, "pw");
}

#[test]
fn configured_streams_lists_every_pair_in_order() {
    let plans = configured_streams(&two_camera_config());
    let keys: Vec<(u64, u64)> = plans.iter().map(|p| (p.camera_id, p.stream_id)).collect();
    assert_eq!(keys, vec![(1, 10), (1, 11), (2, 20)]);
    assert_eq!(plans[1].settings.source_url, "rtsp://one/sub");
    assert_eq!(plans[1].settings.username, "alice");
    assert_eq!(plans[1].settings.password, "");
    assert_eq!(plans[2].settings.username, "");
    assert_eq!(plans[2].settings.password, "secret");
}

#[test]
fn configured_streams_of_empty_catalog() {
    assert!(configured_streams(&ClusterVmsConfig::empty()).is_empty());
}

#[test]
fn registry_holds_every_configured_stream() {
    let plans = configured_streams(&two_camera_config());
    let handles: Vec<String> = plans.iter().map(|p| format!("track-{}-{}", p.camera_id, p.stream_id)).collect();
    let reg = register_all(&plans, handles);
    assert_eq!(reg.lookup(1, 10), Some(&"track-1-10".to_string()));
    assert_eq!(reg.lookup(1, 11), Some(&"track-1-11".to_string()));
    assert_eq!(reg.lookup(2, 20), Some(&"track-2-20".to_string()));
    assert_eq!(reg.lookup(2, 10), None);
    assert_eq!(reg.lookup(3, 20), None);
}

#[test]
fn registry_insert_replaces_and_keeps_others() {
    let mut reg: TrackRegistry<u32> = TrackRegistry::new();
    assert_eq!(reg.lookup(1, 1), None);
    reg.insert(1, 1, 5);
    reg.insert(1, 2, 6);
    reg.insert(1, 1, 7);
    assert_eq!(reg.lookup(1, 1), Some(&7));
    assert_eq!(reg.lookup(1, 2), Some(&6));
}

#[test]
fn h264_stream_is_found_by_media_and_encoding() {
    let streams = vec![sub("audio", "h264"), sub("video", "h265"), sub("video", "h264"), sub("video", "h264")];
    assert_eq!(find_h264_stream(&streams), Some(2));
    assert_eq!(find_h264_stream(&vec![sub("audio", "pcma"), sub("video", "jpeg")]), None);
    assert_eq!(find_h264_stream(&vec![]), None);
}

#[test]
fn ingest_connects_and_forwards_packets() {
    let mut m = IngestManager::new(settings(), DEFAULT_BACKOFF_MS);
    assert_eq!(m.phase(), Phase::Describing);
    assert_eq!(m.step(IngestEvent::Described(vec![sub("audio", "aac"), sub("video", "h264")])), IngestAction::Setup(1));
    assert_eq!(m.step(IngestEvent::SetupDone), IngestAction::Play);
    assert_eq!(m.step(IngestEvent::PlayDone), IngestAction::ReadNext);
    assert_eq!(m.phase(), Phase::Streaming);
    assert_eq!(m.step(IngestEvent::Rtp(vec![1, 2, 3])), IngestAction::Forward(vec![1, 2, 3]));
    assert_eq!(m.step(IngestEvent::Rtcp), IngestAction::ReadNext);
    assert_eq!(m.step(IngestEvent::OtherPacket), IngestAction::ReadNext);
    assert_eq!(m.step(IngestEvent::Rtp(vec![4])), IngestAction::Forward(vec![4]));
    assert_eq!(m.phase(), Phase::Streaming);
}

#[test]
fn ingest_backs_off_when_no_h264_stream() {
    let mut m = IngestManager::new(settings(), 250);
    assert_eq!(m.step(IngestEvent::Described(vec![sub("audio", "aac")])), IngestAction::Sleep(250));
    assert_eq!(m.phase(), Phase::BackingOff);
    assert_eq!(m.step(IngestEvent::SleepDone), IngestAction::Describe);
}

#[test]
fn ingest_reconnects_after_stream_ends_or_fails() {
    let mut m = IngestManager::new(settings(), DEFAULT_BACKOFF_MS);
    m.step(IngestEvent::Described(vec![sub("video", "h264")]));
    m.step(IngestEvent::SetupDone);
    m.step(IngestEvent::PlayDone);
    assert_eq!(m.step(IngestEvent::EndOfStream), IngestAction::Sleep(1000));
    assert_eq!(m.step(IngestEvent::SleepDone), IngestAction::Describe);
    m.step(IngestEvent::Described(vec![sub("video", "h264")]));
    assert_eq!(m.step(IngestEvent::SetupFailed), IngestAction::Sleep(1000));
    m.step(IngestEvent::SleepDone);
    m.step(IngestEvent::Described(vec![sub("video", "h264")]));
    m.step(IngestEvent::SetupDone);
    assert_eq!(m.step(IngestEvent::PlayFailed), IngestAction::Sleep(1000));
    m.step(IngestEvent::SleepDone);
    m.step(IngestEvent::Described(vec![sub("video", "h264")]));
    m.step(IngestEvent::SetupDone);
    m.step(IngestEvent::PlayDone);
    assert_eq!(m.step(IngestEvent::ReadFailed), IngestAction::Sleep(1000));
    assert_eq!(m.settings().username, "admin");
    assert_eq!(m.backoff_ms(), 1000);
}

#[test]
fn three_failed_connects_are_spaced_by_backoff() {
    let mut m = IngestManager::new(settings(), DEFAULT_BACKOFF_MS);
    let mut actions = Vec::new();
    for _ in 0..3 {
        actions.push(m.step(IngestEvent::DescribeFailed));
        actions.push(m.step(IngestEvent::SleepDone));
    }
    assert_eq!(
        actions,
        vec![
            IngestAction::Sleep(1000),
            IngestAction::Describe,
            IngestAction::Sleep(1000),
            IngestAction::Describe,
            IngestAction::Sleep(1000),
            IngestAction::Describe,
        ]
    );
    assert!(!actions.iter().any(|a| matches!(a, IngestAction::Forward(_))));
}

#[test]
fn ingest_treats_out_of_phase_event_as_failure() {
    let mut m = IngestManager::new(settings(), 5);
    assert_eq!(m.step(IngestEvent::Rtp(vec![9])), IngestAction::Sleep(5));
    assert_eq!(m.phase(), Phase::BackingOff);
    assert_eq!(m.step(IngestEvent::Rtcp), IngestAction::Sleep(5));
}

#[test]
fn failed_state_signals_once() {
    let mut obs = FailureObserver::new();
    assert!(!obs.on_state_change(ConnectionState::Connecting));
    assert!(!obs.on_state_change(ConnectionState::Disconnected));
    assert!(obs.on_state_change(ConnectionState::Failed));
    assert!(!obs.on_state_change(ConnectionState::Failed));
    assert!(!obs.on_state_change(ConnectionState::Closed));
}

#[test]
fn disconnected_alone_never_signals() {
    let mut obs = FailureObserver::new();
    for s in [ConnectionState::New, ConnectionState::Connected, ConnectionState::Disconnected, ConnectionState::Connected] {
        assert!(!obs.on_state_change(s));
    }
}

#[test]
fn drain_task_stops_sender_once() {
    let mut d = DrainTask::new();
    assert_eq!(d.on_event(DrainEvent::Rtcp), DrainAction::KeepReading);
    assert_eq!(d.on_event(DrainEvent::Disconnect), DrainAction::StopSenderAndExit);
    assert_eq!(d.on_event(DrainEvent::Disconnect), DrainAction::Exit);
    assert_eq!(d.on_event(DrainEvent::Rtcp), DrainAction::Exit);
}

#[test]
fn empty_offer_is_bad_offer() {
    assert!(matches!(parse_offer(String::new()), Err(NegotiationError::BadOffer)));
}

#[test]
fn garbage_offer_is_bad_offer() {
    assert!(matches!(parse_offer("hello world".to_string()), Err(NegotiationError::BadOffer)));
    assert!(matches!(parse_offer("v=0\r\nx=1\r\n".to_string()), Err(NegotiationError::BadOffer)));
}

#[test]
fn valid_offer_parses() {
    let offer = parse_offer(VALID_OFFER.to_string()).ok().unwrap();
    assert_eq!(offer.sdp, VALID_OFFER);
}

#[test]
fn default_negotiation_config_has_one_stun_server() {
    let c = NegotiationConfig::default_servers();
    assert_eq!(c.stun_urls, vec![DEFAULT_STUN_SERVER.to_string()]);
    assert_eq!(DEFAULT_STUN_SERVER, "stun:stun.freeswitch.org:3478");
}

#[test]
fn negotiation_runs_steps_in_order() {
    let mut n = Negotiation::new();
    let expected = [
        NegotiationStep::RegisterCodecs,
        NegotiationStep::RegisterInterceptors,
        NegotiationStep::CreateConnection,
        NegotiationStep::AddTrack,
        NegotiationStep::ApplyOffer,
        NegotiationStep::CreateAnswer,
        NegotiationStep::ApplyAnswer,
        NegotiationStep::AwaitGathering,
    ];
    for step in expected {
        assert_eq!(n.current(), step);
        assert!(n.complete(Ok(())).is_ok());
    }
    assert_eq!(n.current(), NegotiationStep::ReadAnswer);
    assert_eq!(n.answer(Some("v=0 answer".to_string())), Ok("v=0 answer".to_string()));
    assert_eq!(n.current(), NegotiationStep::Finished);
}

#[test]
fn negotiation_failure_is_reported_with_reason() {
    let mut n = Negotiation::new();
    n.complete(Ok(())).unwrap();
    assert_eq!(
        n.complete(Err("codec".to_string())),
        Err(NegotiationError::NegotiationFailed("codec".to_string()))
    );
    assert_eq!(n.current(), NegotiationStep::Failed);
}

#[test]
fn missing_local_description_fails() {
    let mut n = Negotiation::new();
    for _ in 0..8 {
        n.complete(Ok(())).unwrap();
    }
    assert_eq!(n.answer(None), Err(NegotiationError::NegotiationFailed("no local description".to_string())));
}

#[test]
fn replies_map_outcomes() {
    let ok = reply_for(Ok("answer".to_string()));
    assert_eq!((ok.status, ok.body.as_str()), (201, "answer"));
    let bad = reply_for(Err(NegotiationError::BadOffer));
    assert_eq!((bad.status, bad.body.as_str()), (400, "bad request"));
    let failed = reply_for(Err(NegotiationError::NegotiationFailed("x".to_string())));
    assert_eq!((failed.status, failed.body.as_str()), (400, "bad request"));
}

fn reply_of<T>(r: Result<(&T, webrtc::peer_connection::sdp::session_description::RTCSessionDescription), SdpReply>) -> Option<(u16, String)> {
    match r {
        Ok(_) => None,
        Err(reply) => Some((reply.status, reply.body)),
    }
}

#[test]
fn empty_offer_gets_bad_request() {
    let mut reg: TrackRegistry<u8> = TrackRegistry::new();
    reg.insert(1, 1, 0);
    assert_eq!(reply_of(prepare_offer(&reg, 1, 1, String::new())), Some((400, "bad request".to_string())));
}

#[test]
fn unknown_stream_gets_bad_request() {
    let mut reg: TrackRegistry<u8> = TrackRegistry::new();
    reg.insert(1, 1, 0);
    assert_eq!(reply_of(prepare_offer(&reg, 1, 2, VALID_OFFER.to_string())), Some((400, "bad request".to_string())));
}

#[test]
fn known_stream_and_valid_offer_are_accepted() {
    let mut reg: TrackRegistry<u8> = TrackRegistry::new();
    reg.insert(1, 1, 42);
    match prepare_offer(&reg, 1, 1, VALID_OFFER.to_string()) {
        Ok((track, offer)) => {
            assert_eq!(*track, 42);
            assert_eq!(offer.sdp, VALID_OFFER);
        }
        Err(_) => panic!("offer refused"),
    }
}

#[test]
fn not_found_body() {
    assert_eq!(not_found(), "Resource was not found.");
}

#[test]
fn cors_headers_allow_any_origin() {
    let h = CORS.headers();
    assert_eq!(h.len(), 4);
    assert_eq!(h[0], ("Access-Control-Allow-Origin".to_string(), "*".to_string()));
    assert_eq!(h[1], ("Access-Control-Allow-Methods".to_string(), "POST, GET, PATCH, OPTIONS".to_string()));
    assert_eq!(h[2], ("Access-Control-Allow-Headers".to_string(), "*".to_string()));
    assert_eq!(h[3], ("Access-Control-Allow-Credentials".to_string(), "true".to_string()));
}

#[test]
fn engine_is_built_for_each_negotiation() {
    let mut plan = Negotiation::new();
    let built = build_engine(&NegotiationConfig::default_servers(), &mut plan);
    assert!(built.is_ok());
    assert_eq!(plan.current(), NegotiationStep::CreateConnection);
    let engine = built.ok().unwrap();
    assert_eq!(engine.config.ice_servers.len(), 1);
    assert_eq!(engine.config.ice_servers[0].urls, vec![DEFAULT_STUN_SERVER.to_string()]);
    assert_eq!(engine.stun_urls, vec![DEFAULT_STUN_SERVER.to_string()]);
}

#[test]
fn empty_local_description_fails() {
    let mut n = Negotiation::new();
    for _ in 0..8 {
        n.complete(Ok(())).unwrap();
    }
    assert_eq!(n.answer(Some(String::new())), Err(NegotiationError::NegotiationFailed("no local description".to_string())));
    assert_eq!(n.current(), NegotiationStep::Failed);
}

#[test]
fn packets_are_forwarded_unchanged_in_order() {
    let mut m = IngestManager::new(settings(), DEFAULT_BACKOFF_MS);
    m.step(IngestEvent::Described(vec![sub("video", "h264")]));
    m.step(IngestEvent::SetupDone);
    m.step(IngestEvent::PlayDone);
    let payloads: Vec<Vec<u8>> = (0..6u8).map(|i| vec![i, i + 1, 0xFF - i]).collect();
    let forwarded: Vec<IngestAction> = payloads.iter().map(|p| m.step(IngestEvent::Rtp(p.clone()))).collect();
    let expected: Vec<IngestAction> = payloads.into_iter().map(IngestAction::Forward).collect();
    assert_eq!(forwarded, expected);
}
