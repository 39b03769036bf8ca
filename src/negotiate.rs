use vstd::prelude::*;

use webrtc::api::interceptor_registry::register_default_interceptors;
use webrtc::api::media_engine::MediaEngine;
use webrtc::api::{APIBuilder, API};
use webrtc::ice_transport::ice_server::RTCIceServer;
use webrtc::interceptor::registry::Registry;
use webrtc::peer_connection::configuration::RTCConfiguration;
use webrtc::peer_connection::sdp::session_description::RTCSessionDescription;

verus! {

/// webrtc's `RTCSessionDescription`, carried opaquely from the parser to the peer connection.
#[verifier::external_type_specification]
#[verifier::external_body]
pub struct ExSessionDescription(RTCSessionDescription);

/// webrtc's error type, as returned by the SDP parser; only its presence is inspected.
#[verifier::external_type_specification]
#[verifier::external_body]
pub struct ExWebrtcError(webrtc::Error);

/// webrtc's `MediaEngine`, the codec table of one peer connection.
#[verifier::external_type_specification]
#[verifier::external_body]
pub struct ExMediaEngine(MediaEngine);

/// webrtc's interceptor `Registry`, the RTP/RTCP pipeline of one peer connection.
#[verifier::external_type_specification]
#[verifier::external_body]
pub struct ExRegistry(Registry);

/// webrtc's `API`, the factory of peer connections.
#[verifier::external_type_specification]
#[verifier::external_body]
pub struct ExApi(API);

/// webrtc's `RTCConfiguration`, the settings of a peer connection.
#[verifier::external_type_specification]
#[verifier::external_body]
pub struct ExRtcConfiguration(RTCConfiguration);

/// STUN server used for ICE candidate discovery unless another is configured.
pub const DEFAULT_STUN_SERVER: &'static str = "stun:stun.freeswitch.org:3478";

/// Why no SDP answer could be produced.
#[derive(PartialEq, Eq, Debug, Clone)]
pub enum NegotiationError {
    /// The offer is not valid SDP.
    BadOffer,
    /// Setting up the engine, the connection or the negotiation failed, for this reason.
    NegotiationFailed(String),
}

/// Whether the SDP parser accepts `sdp` as a session description.
pub uninterp spec fn sdp_offer_parses(sdp: Seq<char>) -> bool;

/// Relies on `RTCSessionDescription::offer`: it succeeds exactly when the text
/// parses as SDP, which depends on the text alone. The parser first skips line
/// breaks and then requires the key `v=`, so text that is empty or starts with
/// any other character is refused.
#[verifier::external_body]
fn offer_from_sdp(sdp: String) -> (r: Result<RTCSessionDescription, webrtc::Error>)
    ensures
        r is Ok == sdp_offer_parses(sdp@),
        sdp@.len() == 0 || (sdp@[0] != 'v' && sdp@[0] != '\n' && sdp@[0] != '\r') ==> r is Err,
{
    RTCSessionDescription::offer(sdp)
}

/// Parses the text of an SDP offer; text that is not valid SDP is a `BadOffer`.
pub fn parse_offer(sdp: String) -> (r: Result<RTCSessionDescription, NegotiationError>)
    ensures
        r is Ok == sdp_offer_parses(sdp@),
        r is Err ==> r == Err::<RTCSessionDescription, NegotiationError>(NegotiationError::BadOffer),
        sdp@.len() == 0 ==> r == Err::<RTCSessionDescription, NegotiationError>(
            NegotiationError::BadOffer,
        ),
{
    match offer_from_sdp(sdp) {
        Ok(offer) => Ok(offer),
        Err(_) => Err(NegotiationError::BadOffer),
    }
}

/// The transport defaults that each negotiation is built with.
pub struct NegotiationConfig {
    /// STUN servers for ICE candidate discovery.
    pub stun_urls: Vec<String>,
}

impl NegotiationConfig {
    /// One STUN server, `DEFAULT_STUN_SERVER`.
    pub fn default_servers() -> (r: NegotiationConfig)
        ensures
            r.stun_urls@.len() == 1,
            r.stun_urls@[0]@ == DEFAULT_STUN_SERVER@,
    {
        let mut stun_urls: Vec<String> = Vec::new();
        stun_urls.push(DEFAULT_STUN_SERVER.to_owned());
        NegotiationConfig { stun_urls }
    }
}

/// A media engine, and whether it is still free of RTP header extensions.
pub struct CodecTable {
    engine: MediaEngine,
    no_header_extensions: Ghost<bool>,
}

impl CodecTable {
    /// No RTP header extension has been registered on the engine.
    pub closed spec fn is_clean(&self) -> bool {
        self.no_header_extensions@
    }
}

/// Relies on `MediaEngine::default`: an engine with no codec and no header extension.
#[verifier::external_body]
fn new_media_engine() -> (r: CodecTable)
    ensures
        r.is_clean(),
{
    CodecTable { engine: MediaEngine::default(), no_header_extensions: Ghost(true) }
}

/// Relies on `MediaEngine::register_default_codecs`, whose video codecs include
/// H.264: it registers audio and video codecs only, which always succeeds, and
/// touches no header extension.
#[verifier::external_body]
fn register_codecs(table: &mut CodecTable) -> (r: Result<(), webrtc::Error>)
    ensures
        r is Ok,
        final(table).is_clean() == old(table).is_clean(),
{
    table.engine.register_default_codecs()
}

/// Relies on `register_default_interceptors`: NACK, RTCP reports and TWCC, on a
/// fresh registry. It can fail only when registering the TWCC header extension
/// finds no free id or a conflicting direction, neither of which happens on an
/// engine without header extensions.
#[verifier::external_body]
fn default_interceptors(table: &mut CodecTable) -> (r: Result<Registry, webrtc::Error>)
    ensures
        old(table).is_clean() ==> r is Ok,
        !final(table).is_clean(),
{
    table.no_header_extensions = Ghost(false);
    register_default_interceptors(Registry::new(), &mut table.engine)
}

/// Relies on `APIBuilder`: a peer-connection factory bound to this engine and pipeline.
#[verifier::external_body]
fn build_api(table: CodecTable, registry: Registry) -> API {
    APIBuilder::new().with_media_engine(table.engine).with_interceptor_registry(registry).build()
}

/// Relies on `RTCConfiguration` and `RTCIceServer`: one ICE server entry with these URLs.
#[verifier::external_body]
fn ice_configuration(urls: Vec<String>) -> RTCConfiguration {
    RTCConfiguration {
        ice_servers: vec![RTCIceServer { urls, ..Default::default() }],
        ..Default::default()
    }
}

/// A transport engine built for one negotiation, shared with no other.
pub struct Engine {
    /// Creates the peer connection, with the registered codecs and interceptors.
    pub api: API,
    /// The peer connection's settings: one ICE server entry holding `stun_urls`.
    pub config: RTCConfiguration,
    /// The STUN servers handed to the ICE configuration.
    pub stun_urls: Vec<String>,
}

/// Copies a list of URLs.
fn copy_urls(urls: &Vec<String>) -> (r: Vec<String>)
    ensures
        r@.len() == urls@.len(),
        forall|i: int| 0 <= i < urls@.len() ==> r@[i]@ == urls@[i]@,
{
    let mut r: Vec<String> = Vec::new();
    let mut i: usize = 0;
    while i < urls.len()
        invariant
            i <= urls@.len(),
            r@.len() == i,
            forall|k: int| 0 <= k < i ==> r@[k]@ == urls@[k]@,
        decreases urls@.len() - i,
    {
        r.push(urls[i].clone());
        i = i + 1;
    }
    r
}

/// Carries out the first two steps of `plan`: a fresh media engine with the
/// default codecs (H.264 among them), and the default interceptor pipeline;
/// the ICE configuration gets the configured STUN servers. Both steps succeed
/// on a fresh engine, so the plan moves on to creating the connection.
pub fn build_engine(settings: &NegotiationConfig, plan: &mut Negotiation) -> (r: Result<Engine, NegotiationError>)
    requires
        old(plan).step_spec() == NegotiationStep::RegisterCodecs,
    ensures
        r is Ok,
        final(plan).step_spec() == NegotiationStep::CreateConnection,
        r->Ok_0.stun_urls@.len() == settings.stun_urls@.len(),
        forall|i: int|
            0 <= i < settings.stun_urls@.len() ==> r->Ok_0.stun_urls@[i]@ == settings.stun_urls@[i]@,
{
    let mut table = new_media_engine();
    if let Err(e) = register_codecs(&mut table) {
        let reason = e.to_string();
        let _ = plan.complete(Err(reason.clone()));
        return Err(NegotiationError::NegotiationFailed(reason));
    }
    let _ = plan.complete(Ok(()));
    let registry = match default_interceptors(&mut table) {
        Ok(registry) => registry,
        Err(e) => {
            let reason = e.to_string();
            let _ = plan.complete(Err(reason.clone()));
            return Err(NegotiationError::NegotiationFailed(reason));
        },
    };
    let _ = plan.complete(Ok(()));
    let stun_urls = copy_urls(&settings.stun_urls);
    let config = ice_configuration(copy_urls(&stun_urls));
    Ok(Engine { api: build_api(table, registry), config, stun_urls })
}

/// The steps of answering one offer, in the order they are carried out.
#[derive(PartialEq, Eq, Structural, Clone, Copy, Debug)]
pub enum NegotiationStep {
    /// Register the H.264 codec with a fresh media engine.
    RegisterCodecs,
    /// Enable the default interceptor pipeline (NACK, RTCP reports).
    RegisterInterceptors,
    /// Create the peer connection with the configured ICE servers.
    CreateConnection,
    /// Attach the track sink, start the RTCP drain task and the state observer.
    AddTrack,
    /// Apply the offer as the remote description.
    ApplyOffer,
    /// Generate the local answer.
    CreateAnswer,
    /// Set the local description, which starts ICE gathering.
    ApplyAnswer,
    /// Wait until ICE gathering reports completion.
    AwaitGathering,
    /// Read back the local description, which now holds every candidate.
    ReadAnswer,
    /// The answer was produced.
    Finished,
    /// A step failed.
    Failed,
}

/// The step after `s` when `s` succeeds.
pub open spec fn next_step(s: NegotiationStep) -> NegotiationStep {
    match s {
        NegotiationStep::RegisterCodecs => NegotiationStep::RegisterInterceptors,
        NegotiationStep::RegisterInterceptors => NegotiationStep::CreateConnection,
        NegotiationStep::CreateConnection => NegotiationStep::AddTrack,
        NegotiationStep::AddTrack => NegotiationStep::ApplyOffer,
        NegotiationStep::ApplyOffer => NegotiationStep::CreateAnswer,
        NegotiationStep::CreateAnswer => NegotiationStep::ApplyAnswer,
        NegotiationStep::ApplyAnswer => NegotiationStep::AwaitGathering,
        NegotiationStep::AwaitGathering => NegotiationStep::ReadAnswer,
        NegotiationStep::ReadAnswer => NegotiationStep::Finished,
        NegotiationStep::Finished => NegotiationStep::Finished,
        NegotiationStep::Failed => NegotiationStep::Failed,
    }
}

/// The step is one that the runtime still has to carry out with `complete`.
pub open spec fn is_pending(s: NegotiationStep) -> bool {
    s != NegotiationStep::ReadAnswer && s != NegotiationStep::Finished && s
        != NegotiationStep::Failed
}

/// Progress of answering one offer.
pub struct Negotiation {
    step: NegotiationStep,
}

impl Negotiation {
    pub closed spec fn step_spec(&self) -> NegotiationStep {
        self.step
    }

    /// A negotiation at its first step.
    pub fn new() -> (r: Negotiation)
        ensures
            r.step_spec() == NegotiationStep::RegisterCodecs,
    {
        Negotiation { step: NegotiationStep::RegisterCodecs }
    }

    /// The step to carry out now.
    pub fn current(&self) -> (r: NegotiationStep)
        ensures
            r == self.step_spec(),
    {
        self.step
    }

    /// Records the outcome of the current step: success moves on to the next
    /// step, a failure ends the negotiation with `NegotiationFailed`.
    pub fn complete(&mut self, outcome: Result<(), String>) -> (r: Result<(), NegotiationError>)
        requires
            is_pending(old(self).step_spec()),
        ensures
            match outcome {
                Ok(()) => r is Ok && final(self).step_spec() == next_step(old(self).step_spec()),
                Err(reason) => r == Err::<(), NegotiationError>(
                    NegotiationError::NegotiationFailed(reason),
                ) && final(self).step_spec() == NegotiationStep::Failed,
            },
    {
        match outcome {
            Ok(()) => {
                self.step = match self.step {
                    NegotiationStep::RegisterCodecs => NegotiationStep::RegisterInterceptors,
                    NegotiationStep::RegisterInterceptors => NegotiationStep::CreateConnection,
                    NegotiationStep::CreateConnection => NegotiationStep::AddTrack,
                    NegotiationStep::AddTrack => NegotiationStep::ApplyOffer,
                    NegotiationStep::ApplyOffer => NegotiationStep::CreateAnswer,
                    NegotiationStep::CreateAnswer => NegotiationStep::ApplyAnswer,
                    NegotiationStep::ApplyAnswer => NegotiationStep::AwaitGathering,
                    NegotiationStep::AwaitGathering => NegotiationStep::ReadAnswer,
                    other => other,
                };
                Ok(())
            },
            Err(reason) => {
                self.step = NegotiationStep::Failed;
                Err(NegotiationError::NegotiationFailed(reason))
            },
        }
    }

    /// Ends the negotiation with the local description read back after ICE
    /// gathering; a missing or empty description is a `NegotiationFailed`.
    pub fn answer(&mut self, local: Option<String>) -> (r: Result<String, NegotiationError>)
        requires
            old(self).step_spec() == NegotiationStep::ReadAnswer,
        ensures
            match local {
                Some(sdp) if sdp@.len() > 0 => r == Ok::<String, NegotiationError>(sdp)
                    && final(self).step_spec() == NegotiationStep::Finished,
                _ => r is Err && r->Err_0 is NegotiationFailed && r->Err_0->NegotiationFailed_0@
                    == "no local description"@ && final(self).step_spec()
                    == NegotiationStep::Failed,
            },
            r is Ok ==> r->Ok_0@.len() > 0,
    {
        match local {
            Some(sdp) if !sdp.as_str().is_empty() => {
                self.step = NegotiationStep::Finished;
                Ok(sdp)
            },
            _ => {
                self.step = NegotiationStep::Failed;
                Err(NegotiationError::NegotiationFailed("no local description".to_owned()))
            },
        }
    }
}

/// The answer is read back only right after ICE gathering has completed, and
/// the offer is applied before the answer is created, which comes before the
/// local description is set: trickle ICE is never exposed to the caller.
pub proof fn lemma_answer_after_gathering(s: NegotiationStep)
    ensures
        next_step(s) == NegotiationStep::ReadAnswer <==> s == NegotiationStep::AwaitGathering,
        next_step(s) == NegotiationStep::AwaitGathering <==> s == NegotiationStep::ApplyAnswer,
        next_step(s) == NegotiationStep::ApplyAnswer <==> s == NegotiationStep::CreateAnswer,
        next_step(s) == NegotiationStep::CreateAnswer <==> s == NegotiationStep::ApplyOffer,
{
}

} // verus!
