use vstd::prelude::*;

use crate::common::StreamSettings;

verus! {

/// Backoff between connect attempts when none is configured, in milliseconds.
pub const DEFAULT_BACKOFF_MS: u64 = 1000;

/// A sub-stream that a camera advertises in its session description.
pub struct SubStream {
    pub media: String,
    pub encoding_name: String,
}

/// The sub-stream carries H.264 video.
pub open spec fn is_h264_video(s: SubStream) -> bool {
    s.media@ == "video"@ && s.encoding_name@ == "h264"@
}

/// Index of the first H.264 video sub-stream, if any.
pub open spec fn first_h264_video(streams: Seq<SubStream>) -> Option<usize> {
    if exists|i: int| 0 <= i < streams.len() && is_h264_video(#[trigger] streams[i]) {
        let i = choose|i: int|
            0 <= i < streams.len() && is_h264_video(#[trigger] streams[i]) && forall|j: int|
                0 <= j < i ==> !is_h264_video(#[trigger] streams[j]);
        Some(i as usize)
    } else {
        None
    }
}

/// Finds the first advertised sub-stream whose media is video and whose encoding is H.264.
pub fn find_h264_stream(streams: &Vec<SubStream>) -> (r: Option<usize>)
    ensures
        match r {
            Some(i) => {
                &&& i < streams@.len()
                &&& is_h264_video(streams@[i as int])
                &&& forall|j: int| 0 <= j < i ==> !is_h264_video(#[trigger] streams@[j])
            },
            None => forall|j: int| 0 <= j < streams@.len() ==> !is_h264_video(#[trigger] streams@[j]),
        },
        r == first_h264_video(streams@),
{
    let video = "video".to_owned();
    let h264 = "h264".to_owned();
    let mut i: usize = 0;
    while i < streams.len()
        invariant
            i <= streams@.len(),
            video@ == "video"@,
            h264@ == "h264"@,
            forall|j: int| 0 <= j < i ==> !is_h264_video(#[trigger] streams@[j]),
        decreases streams@.len() - i,
    {
        let s = &streams[i];
        if s.media == video && s.encoding_name == h264 {
            let ghost k = choose|k: int|
                0 <= k < streams@.len() && is_h264_video(#[trigger] streams@[k]) && forall|j: int|
                    0 <= j < k ==> !is_h264_video(#[trigger] streams@[j]);
            assert(is_h264_video(streams@[i as int]));
            assert(k == i) by {
                if k < i {
                    assert(!is_h264_video(streams@[k]));
                } else if k > i {
                    assert(!is_h264_video(streams@[i as int]));
                }
            }
            return Some(i);
        }
        i = i + 1;
    }
    None
}

/// Where a stream's supervisor stands.
#[derive(PartialEq, Eq, Structural, Clone, Copy, Debug)]
pub enum Phase {
    /// Waiting for the answer to "describe".
    Describing,
    /// Waiting for the answer to "setup".
    SettingUp,
    /// Waiting for the answer to "play".
    Starting,
    /// Reading packets and forwarding them to the track sink.
    Streaming,
    /// Sleeping before the next connect attempt.
    BackingOff,
}

/// What the runtime reports back after carrying out an action.
pub enum IngestEvent {
    /// "describe" succeeded and advertised these sub-streams.
    Described(Vec<SubStream>),
    DescribeFailed,
    SetupDone,
    SetupFailed,
    PlayDone,
    PlayFailed,
    /// An RTP packet arrived, with its raw bytes.
    Rtp(Vec<u8>),
    /// An RTCP packet arrived.
    Rtcp,
    /// A packet of another kind arrived.
    OtherPacket,
    /// The source has no more packets.
    EndOfStream,
    ReadFailed,
    /// The backoff sleep is over.
    SleepDone,
}

/// What the runtime is to do next.
#[derive(PartialEq, Eq, Debug)]
pub enum IngestAction {
    /// Issue "describe" with the supervisor's settings.
    Describe,
    /// Issue "setup" for the sub-stream at this index.
    Setup(usize),
    /// Issue "play".
    Play,
    /// Await the next packet.
    ReadNext,
    /// Write these bytes to the track sink, then await the next packet.
    Forward(Vec<u8>),
    /// Sleep this many milliseconds, then report `SleepDone`.
    Sleep(u64),
}

/// The supervisor's answer to `event` in `phase`: the next phase and action.
/// Every failure, and any event that does not belong to the phase, leads to a backoff.
pub open spec fn transition(phase: Phase, event: IngestEvent, backoff_ms: u64) -> (Phase, IngestAction) {
    let back_off = (Phase::BackingOff, IngestAction::Sleep(backoff_ms));
    match (phase, event) {
        (Phase::Describing, IngestEvent::Described(streams)) => match first_h264_video(streams@) {
            Some(i) => (Phase::SettingUp, IngestAction::Setup(i)),
            None => back_off,
        },
        (Phase::SettingUp, IngestEvent::SetupDone) => (Phase::Starting, IngestAction::Play),
        (Phase::Starting, IngestEvent::PlayDone) => (Phase::Streaming, IngestAction::ReadNext),
        (Phase::Streaming, IngestEvent::Rtp(payload)) => (Phase::Streaming, IngestAction::Forward(payload)),
        (Phase::Streaming, IngestEvent::Rtcp) => (Phase::Streaming, IngestAction::ReadNext),
        (Phase::Streaming, IngestEvent::OtherPacket) => (Phase::Streaming, IngestAction::ReadNext),
        (Phase::BackingOff, IngestEvent::SleepDone) => (Phase::Describing, IngestAction::Describe),
        _ => back_off,
    }
}

/// The phase reached and the actions taken when `events` are reported in turn from `phase`.
pub open spec fn run(phase: Phase, events: Seq<IngestEvent>, backoff_ms: u64) -> (Phase, Seq<IngestAction>)
    decreases events.len(),
{
    if events.len() == 0 {
        (phase, Seq::empty())
    } else {
        let (next, action) = transition(phase, events[0], backoff_ms);
        let (last, rest) = run(next, events.drop_first(), backoff_ms);
        (last, seq![action] + rest)
    }
}

/// The answer to "describe" makes the connect attempt fail: an error, or no H.264 video sub-stream.
pub open spec fn describe_fails(event: IngestEvent) -> bool {
    match event {
        IngestEvent::DescribeFailed => true,
        IngestEvent::Described(streams) => first_h264_video(streams@) is None,
        _ => false,
    }
}

/// The connect attempts that end with `failures`, each followed by the end of its backoff.
pub open spec fn failed_attempts(failures: Seq<IngestEvent>) -> Seq<IngestEvent>
    decreases failures.len(),
{
    if failures.len() == 0 {
        Seq::empty()
    } else {
        seq![failures[0], IngestEvent::SleepDone] + failed_attempts(failures.drop_first())
    }
}

/// `n` rounds of sleeping `backoff_ms` and then describing again.
pub open spec fn backoff_rounds(n: nat, backoff_ms: u64) -> Seq<IngestAction>
    decreases n,
{
    if n == 0 {
        Seq::empty()
    } else {
        seq![IngestAction::Sleep(backoff_ms), IngestAction::Describe] + backoff_rounds(
            (n - 1) as nat,
            backoff_ms,
        )
    }
}

/// Any number of consecutive failed connect attempts are each answered by a sleep
/// of exactly the backoff interval before the next attempt; the supervisor never
/// gives up, and never writes to the track sink meanwhile.
pub proof fn lemma_failed_attempts_back_off(failures: Seq<IngestEvent>, backoff_ms: u64)
    requires
        forall|i: int| 0 <= i < failures.len() ==> describe_fails(#[trigger] failures[i]),
    ensures
        run(Phase::Describing, failed_attempts(failures), backoff_ms) == (
            Phase::Describing,
            backoff_rounds(failures.len(), backoff_ms),
        ),
        forall|k: int|
            0 <= k < backoff_rounds(failures.len(), backoff_ms).len() ==> !(#[trigger] backoff_rounds(
                failures.len(),
                backoff_ms,
            )[k] is Forward),
    decreases failures.len(),
{
    let n = failures.len();
    if n > 0 {
        let others = failures.drop_first();
        assert forall|i: int| 0 <= i < others.len() implies describe_fails(#[trigger] others[i]) by {
            assert(others[i] == failures[i + 1]);
        }
        lemma_failed_attempts_back_off(others, backoff_ms);
        assert(describe_fails(failures[0]));
        let rest = failed_attempts(others);
        let evs = failed_attempts(failures);
        assert(evs[0] == failures[0]);
        assert(transition(Phase::Describing, failures[0], backoff_ms) == (
            Phase::BackingOff,
            IngestAction::Sleep(backoff_ms),
        ));
        assert(evs.drop_first() =~= seq![IngestEvent::SleepDone] + rest);
        assert((seq![IngestEvent::SleepDone] + rest)[0] == IngestEvent::SleepDone);
        assert((seq![IngestEvent::SleepDone] + rest).drop_first() =~= rest);
        let tail = backoff_rounds((n - 1) as nat, backoff_ms);
        let mid = seq![IngestEvent::SleepDone] + rest;
        assert(run(Phase::BackingOff, mid, backoff_ms) == (
            Phase::Describing,
            seq![IngestAction::Describe] + tail,
        ));
        assert(run(Phase::Describing, evs, backoff_ms) == (
            Phase::Describing,
            seq![IngestAction::Sleep(backoff_ms)] + (seq![IngestAction::Describe] + tail),
        ));
        assert(seq![IngestAction::Sleep(backoff_ms)] + (seq![IngestAction::Describe] + tail)
            =~= backoff_rounds(n, backoff_ms));
        assert forall|k: int| 0 <= k < backoff_rounds(n, backoff_ms).len() implies !(
        #[trigger] backoff_rounds(n, backoff_ms)[k] is Forward) by {
            if k >= 2 {
                assert(backoff_rounds(n, backoff_ms)[k] == tail[k - 2]);
            }
        }
    }
}

/// The track sink is written only while streaming, and a write never ends the
/// streaming phase: whatever the write's outcome, the next packet is awaited.
pub proof fn lemma_forward_only_while_streaming(phase: Phase, event: IngestEvent, backoff_ms: u64)
    ensures
        transition(phase, event, backoff_ms).1 is Forward ==> phase == Phase::Streaming
            && transition(phase, event, backoff_ms).0 == Phase::Streaming,
        event is Rtp && phase == Phase::Streaming ==> transition(phase, event, backoff_ms).1
            == IngestAction::Forward(event->Rtp_0),
{
}

/// The reports of RTP packets carrying `payloads`, in receive order.
pub open spec fn rtp_events(payloads: Seq<Vec<u8>>) -> Seq<IngestEvent> {
    payloads.map_values(|p: Vec<u8>| IngestEvent::Rtp(p))
}

/// While streaming, every RTP packet is forwarded to the track sink unchanged,
/// once, and in the order received, whatever the number of packets.
pub proof fn lemma_packets_forwarded_in_order(payloads: Seq<Vec<u8>>, backoff_ms: u64)
    ensures
        run(Phase::Streaming, rtp_events(payloads), backoff_ms) == (
            Phase::Streaming,
            payloads.map_values(|p: Vec<u8>| IngestAction::Forward(p)),
        ),
    decreases payloads.len(),
{
    if payloads.len() > 0 {
        let rest = payloads.drop_first();
        lemma_packets_forwarded_in_order(rest, backoff_ms);
        assert(rtp_events(payloads).drop_first() =~= rtp_events(rest));
        assert(seq![IngestAction::Forward(payloads[0])] + rest.map_values(
            |p: Vec<u8>| IngestAction::Forward(p),
        ) =~= payloads.map_values(|p: Vec<u8>| IngestAction::Forward(p)));
    }
}

/// Supervisor of one configured stream: keeps reconnecting to the camera
/// and forwards its RTP packets to the stream's track sink.
pub struct IngestManager {
    settings: StreamSettings,
    backoff_ms: u64,
    phase: Phase,
}

impl IngestManager {
    pub closed spec fn phase_spec(&self) -> Phase {
        self.phase
    }

    pub closed spec fn settings_spec(&self) -> StreamSettings {
        self.settings
    }

    pub closed spec fn backoff_spec(&self) -> u64 {
        self.backoff_ms
    }

    /// A supervisor that starts by describing the source; its first action is `Describe`.
    pub fn new(settings: StreamSettings, backoff_ms: u64) -> (r: IngestManager)
        ensures
            r.phase_spec() == Phase::Describing,
            r.settings_spec() == settings,
            r.backoff_spec() == backoff_ms,
    {
        IngestManager { settings, backoff_ms, phase: Phase::Describing }
    }

    /// The settings that each connect attempt uses.
    pub fn settings(&self) -> (r: &StreamSettings)
        ensures
            *r == self.settings_spec(),
    {
        &self.settings
    }

    /// The pause between a failure and the next connect attempt, in milliseconds.
    pub fn backoff_ms(&self) -> (r: u64)
        ensures
            r == self.backoff_spec(),
    {
        self.backoff_ms
    }

    /// The current phase.
    pub fn phase(&self) -> (r: Phase)
        ensures
            r == self.phase_spec(),
    {
        self.phase
    }

    /// Takes the runtime's report of the last action and decides the next one.
    pub fn step(&mut self, event: IngestEvent) -> (r: IngestAction)
        ensures
            (final(self).phase_spec(), r) == transition(
                old(self).phase_spec(),
                event,
                old(self).backoff_spec(),
            ),
            final(self).settings_spec() == old(self).settings_spec(),
            final(self).backoff_spec() == old(self).backoff_spec(),
    {
        let (phase, action) = match (self.phase, event) {
            (Phase::Describing, IngestEvent::Described(streams)) => match find_h264_stream(&streams) {
                Some(i) => (Phase::SettingUp, IngestAction::Setup(i)),
                None => (Phase::BackingOff, IngestAction::Sleep(self.backoff_ms)),
            },
            (Phase::SettingUp, IngestEvent::SetupDone) => (Phase::Starting, IngestAction::Play),
            (Phase::Starting, IngestEvent::PlayDone) => (Phase::Streaming, IngestAction::ReadNext),
            (Phase::Streaming, IngestEvent::Rtp(payload)) => (Phase::Streaming, IngestAction::Forward(payload)),
            (Phase::Streaming, IngestEvent::Rtcp) => (Phase::Streaming, IngestAction::ReadNext),
            (Phase::Streaming, IngestEvent::OtherPacket) => (Phase::Streaming, IngestAction::ReadNext),
            (Phase::BackingOff, IngestEvent::SleepDone) => (Phase::Describing, IngestAction::Describe),
            _ => (Phase::BackingOff, IngestAction::Sleep(self.backoff_ms)),
        };
        self.phase = phase;
        action
    }
}

} // verus!
