use vstd::prelude::*;

use webrtc::peer_connection::sdp::session_description::RTCSessionDescription;

use crate::config::{CameraId, StreamId};
use crate::negotiate::{parse_offer, sdp_offer_parses, NegotiationError};
use crate::registry::TrackRegistry;

verus! {

/// HTTP status of a produced SDP answer.
pub const STATUS_CREATED: u16 = 201;

/// HTTP status of any failure on the SDP endpoint.
pub const STATUS_BAD_REQUEST: u16 = 400;

/// Status and body of a response of the SDP endpoint.
pub struct SdpReply {
    pub status: u16,
    pub body: String,
}

impl SdpReply {
    /// The response is the generic client error.
    pub open spec fn is_bad_request(&self) -> bool {
        self.status == STATUS_BAD_REQUEST && self.body@ == "bad request"@
    }

    /// The generic client error: status 400 with body "bad request".
    pub fn bad_request() -> (r: SdpReply)
        ensures
            r.is_bad_request(),
    {
        SdpReply { status: STATUS_BAD_REQUEST, body: "bad request".to_owned() }
    }
}

/// Maps the outcome of a negotiation to the response: 201 with the answer, or
/// the generic client error whatever the failure (details are only logged).
pub fn reply_for(outcome: Result<String, NegotiationError>) -> (r: SdpReply)
    ensures
        match outcome {
            Ok(answer) => r.status == STATUS_CREATED && r.body@ == answer@,
            Err(_) => r.is_bad_request(),
        },
{
    match outcome {
        Ok(answer) => SdpReply { status: STATUS_CREATED, body: answer },
        Err(_) => SdpReply::bad_request(),
    }
}

/// Checks an inbound offer for (`camera`, `stream`): the stream must be
/// registered and the body must parse as SDP. On success returns the stream's
/// track sink and the parsed offer; otherwise the response to send.
pub fn prepare_offer<'a, T>(
    registry: &'a TrackRegistry<T>,
    camera: CameraId,
    stream: StreamId,
    sdp: String,
) -> (r: Result<(&'a T, RTCSessionDescription), SdpReply>)
    ensures
        registry.get_spec(camera, stream) is None ==> r is Err && r->Err_0.is_bad_request(),
        registry.get_spec(camera, stream) is Some ==> (r is Ok <==> sdp_offer_parses(sdp@)),
        r is Ok ==> registry.get_spec(camera, stream) == Some(*r->Ok_0.0),
        r is Err ==> r->Err_0.is_bad_request(),
        sdp@.len() == 0 ==> r is Err && r->Err_0.is_bad_request(),
{
    match registry.lookup(camera, stream) {
        None => Err(SdpReply::bad_request()),
        Some(track) => match parse_offer(sdp) {
            Ok(offer) => Ok((track, offer)),
            Err(_) => Err(SdpReply::bad_request()),
        },
    }
}

/// Body of the response to an unmatched route.
pub fn not_found() -> (r: &'static str)
    ensures
        r@ == "Resource was not found."@,
{
    "Resource was not found."
}

/// Cross-origin policy added to every response: any origin, the methods
/// POST, GET, PATCH and OPTIONS, all headers, and credentials.
pub struct CORS;

impl CORS {
    /// The (name, value) pairs of the headers to set on each response.
    pub fn headers(&self) -> (r: Vec<(String, String)>)
        ensures
            r@.len() == 4,
            r@[0].0@ == "Access-Control-Allow-Origin"@ && r@[0].1@ == "*"@,
            r@[1].0@ == "Access-Control-Allow-Methods"@ && r@[1].1@ == "POST, GET, PATCH, OPTIONS"@,
            r@[2].0@ == "Access-Control-Allow-Headers"@ && r@[2].1@ == "*"@,
            r@[3].0@ == "Access-Control-Allow-Credentials"@ && r@[3].1@ == "true"@,
    {
        let mut r: Vec<(String, String)> = Vec::new();
        r.push(("Access-Control-Allow-Origin".to_owned(), "*".to_owned()));
        r.push(("Access-Control-Allow-Methods".to_owned(), "POST, GET, PATCH, OPTIONS".to_owned()));
        r.push(("Access-Control-Allow-Headers".to_owned(), "*".to_owned()));
        r.push(("Access-Control-Allow-Credentials".to_owned(), "true".to_owned()));
        r
    }
}

} // verus!
