use rtsp_to_webrtc::ingest::{IngestAction, IngestEvent, IngestManager, SubStream};
use rtsp_to_webrtc::common::StreamSettings;
use webrtc::api::media_engine::MIME_TYPE_H264;
use webrtc::rtp_transceiver::rtp_codec::RTCRtpCodecCapability;
use webrtc::track::track_local::track_local_static_rtp::TrackLocalStaticRTP;
use webrtc::track::track_local::TrackLocalWriter;

fn rtp_packet(seq: u8) -> Vec<u8> {
    vec![0x80, 0x60, 0x00, seq, 0, 0, 0, 1, 0, 0, 0, 7, 0xAA, 0xBB]
}

#[test]
fn write_to_sink_without_consumers_succeeds() {
    let track = TrackLocalStaticRTP::new(
        RTCRtpCodecCapability { mime_type: MIME_TYPE_H264.to_owned(), ..Default::default() },
        "video".to_owned(),
        "webrtc-rs".to_owned(),
    );
    let rt = tokio::runtime::Builder::new_current_thread().enable_all().build().unwrap();
    let mut m = IngestManager::new(
        StreamSettings { source_url: "rtsp://cam".to_string(), username: String::new(), password: String::new() },
        1000,
    );
    m.step(IngestEvent::Described(vec![SubStream { media: "video".to_string(), encoding_name: "h264".to_string() }]));
    m.step(IngestEvent::SetupDone);
    m.step(IngestEvent::PlayDone);
    for seq in 0..3u8 {
        match m.step(IngestEvent::Rtp(rtp_packet(seq))) {
            IngestAction::Forward(payload) => {
                assert!(rt.block_on(track.write(&payload)).is_ok());
            }
            other => panic!("unexpected action {:?}", other),
        }
    }
}

#[test]
fn sink_stays_writable_while_connects_fail() {
    let track = TrackLocalStaticRTP::new(
        RTCRtpCodecCapability { mime_type: MIME_TYPE_H264.to_owned(), ..Default::default() },
        "video".to_owned(),
        "webrtc-rs".to_owned(),
    );
    let rt = tokio::runtime::Builder::new_current_thread().enable_all().build().unwrap();
    let mut m = IngestManager::new(
        StreamSettings { source_url: "rtsp://unreachable".to_string(), username: String::new(), password: String::new() },
        1000,
    );
    for _ in 0..3 {
        assert_eq!(m.step(IngestEvent::DescribeFailed), IngestAction::Sleep(1000));
        assert!(rt.block_on(track.write(&rtp_packet(0))).is_ok());
        assert_eq!(m.step(IngestEvent::SleepDone), IngestAction::Describe);
    }
}
