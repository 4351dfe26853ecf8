//! The messages exchanged with the matching server and with the matched
//! peer, and the decisions a client takes on the server's replies.

use vstd::prelude::*;

verus! {

/// The id of a user of the matching service.
pub type UserId = u64;

/// The id of an application using the matching service.
pub type AppId = u64;

/// The id of a matcher within an application.
pub type MatcherId = u64;

/// The application id this client uses.
pub const APP_ID: AppId = 10;

/// The matcher id this client uses.
pub const MATCHER_ID: MatcherId = 20;

/// How the client asks the server about its user id.
#[derive(Clone, Copy, Debug, PartialEq, Eq, Structural)]
pub enum UserIdRequestType {
    Creating,
    Updating,
    Keep(UserId),
}

/// How the server answers about the user id.
#[derive(Clone, Copy, Debug, PartialEq, Eq, Structural)]
pub enum UserIdResponseType {
    Created(UserId),
    Updated(UserId),
    Keep,
}

/// What the client offers for signaling.
#[derive(Clone, Debug)]
pub enum SignalingRequestType {
    OfferAccepting,
    Answering(String),
}

/// What the server hands back for signaling.
#[derive(Clone, Debug)]
pub enum SignalingResponseType {
    Offering(String),
    NotRequired,
    AnswerAccepted,
}

/// A session description, as an offer or as an answer.
#[derive(Clone, Debug)]
pub enum SdpType {
    Offer(String),
    Answer(String),
}

/// The request that enters the client into matching.
#[derive(Clone, Debug)]
pub struct StartMatchingRequest {
    pub user_id_request_type: UserIdRequestType,
    pub signaling_request_type: SignalingRequestType,
    pub matcher_id: MatcherId,
    pub app_id: AppId,
}

/// Whether the client has been matched, and with whom.
#[derive(Clone, Copy, Debug, PartialEq, Eq, Structural)]
pub enum StartMatchingResponseType {
    Matched(UserId),
    Waiting,
}

/// The server's reply to a `StartMatchingRequest`.
#[derive(Clone, Debug)]
pub struct StartMatchingResponse {
    pub user_id_response_type: UserIdResponseType,
    pub signaling_response_type: SignalingResponseType,
    pub response_type: StartMatchingResponseType,
}

/// A session description sent to the matched opponent through the server.
#[derive(Clone, Debug)]
pub struct SendSdpRequest {
    pub sdp_type: SdpType,
    pub user_id: UserId,
    pub app_id: AppId,
    pub matcher_id: MatcherId,
    pub opponent_id: UserId,
    pub offer: String,
}

/// The server's reply to a `SendSdpRequest`.
#[derive(Clone, Debug)]
pub struct SendSdpResponse {
    pub answer: String,
    pub opponent_user_id: UserId,
    pub signaling_response_type: SignalingResponseType,
}

/// An answer to a received offer, sent to the server.
#[derive(Clone, Debug)]
pub struct SignalingAnswerRequest {
    pub user_id: UserId,
    pub app_id: AppId,
    pub matcher_id: MatcherId,
    pub answer: String,
}

/// The server's reply to a `SignalingAnswerRequest`.
#[derive(Clone, Debug)]
pub struct SignalingAnswerResponse {
    pub signaling_response_type: SignalingResponseType,
}

/// An offer relayed to a peer over the data channel.
#[derive(Clone, Debug)]
pub struct ReceiveSdpOutboundData {
    pub matcher_id: MatcherId,
    pub opponent_id: UserId,
    pub offer: String,
}

/// A peer's answer relayed over the data channel.
#[derive(Clone, Debug)]
pub struct ReceiveSdpReturnData {
    pub answer: String,
}

pub open spec fn creating_mismatch_text() -> Seq<char> {
    "request type is creating, but response type is not created"@
}

pub open spec fn updating_mismatch_text() -> Seq<char> {
    "request type is updating, but response type is not updated"@
}

pub open spec fn keep_mismatch_text() -> Seq<char> {
    "request type is keep, but response type is not keep"@
}

/// The user id that a reply of kind `response` settles for a request of
/// kind `request`: the id created or updated by the server, or the id kept
/// by the client; any other pairing is an error.
pub open spec fn current_user_id(
    request: UserIdRequestType,
    response: UserIdResponseType,
) -> Result<UserId, Seq<char>> {
    match request {
        UserIdRequestType::Creating => match response {
            UserIdResponseType::Created(id) => Ok(id),
            _ => Err(creating_mismatch_text()),
        },
        UserIdRequestType::Updating => match response {
            UserIdResponseType::Updated(id) => Ok(id),
            _ => Err(updating_mismatch_text()),
        },
        UserIdRequestType::Keep(id) => match response {
            UserIdResponseType::Keep => Ok(id),
            _ => Err(keep_mismatch_text()),
        },
    }
}

impl UserIdRequestType {
    /// The user id settled by the server's reply to a request of this kind.
    pub fn get_current_user_id(&self, user_id_response_type: &UserIdResponseType) -> (r: Result<UserId, String>)
        ensures
            match r {
                Ok(id) => current_user_id(*self, *user_id_response_type) == Ok::<UserId, Seq<char>>(id),
                Err(e) => current_user_id(*self, *user_id_response_type) == Err::<UserId, Seq<char>>(e@),
            },
    {
        match self {
            UserIdRequestType::Creating => match user_id_response_type {
                UserIdResponseType::Created(user_id) => Ok(*user_id),
                _ => Err(String::from_str("request type is creating, but response type is not created")),
            },
            UserIdRequestType::Updating => match user_id_response_type {
                UserIdResponseType::Updated(user_id) => Ok(*user_id),
                _ => Err(String::from_str("request type is updating, but response type is not updated")),
            },
            UserIdRequestType::Keep(user_id) => match user_id_response_type {
                UserIdResponseType::Keep => Ok(*user_id),
                _ => Err(String::from_str("request type is keep, but response type is not keep")),
            },
        }
    }
}

impl StartMatchingRequest {
    /// Where the request is posted.
    pub fn get_uri(&self) -> (uri: &'static str)
        ensures
            uri@ == "http://127.0.0.1:3000/start-matching"@,
    {
        "http://127.0.0.1:3000/start-matching"
    }
}

impl SendSdpRequest {
    /// Where the request is posted.
    pub fn get_uri(&self) -> (uri: &'static str)
        ensures
            uri@ == "http://127.0.0.1:3000/web_rtc/send-sdp"@,
    {
        "http://127.0.0.1:3000/web_rtc/send-sdp"
    }
}

/// The request that enters a new user into matching: the server is to
/// create the user id, and the client accepts an offer.
pub fn start_matching_request() -> (req: StartMatchingRequest)
    ensures
        req.user_id_request_type == UserIdRequestType::Creating,
        req.signaling_request_type is OfferAccepting,
        req.matcher_id == MATCHER_ID,
        req.app_id == APP_ID,
{
    StartMatchingRequest {
        user_id_request_type: UserIdRequestType::Creating,
        signaling_request_type: SignalingRequestType::OfferAccepting,
        matcher_id: MATCHER_ID,
        app_id: APP_ID,
    }
}

/// The request that sends `answer` to the opponent, with an empty offer.
pub fn answer_sdp_request(user_id: UserId, opponent_id: UserId, answer: String) -> (req: SendSdpRequest)
    ensures
        req.sdp_type matches SdpType::Answer(a) && a@ == answer@,
        req.user_id == user_id,
        req.app_id == APP_ID,
        req.matcher_id == MATCHER_ID,
        req.opponent_id == opponent_id,
        req.offer@ == Seq::<char>::empty(),
{
    SendSdpRequest {
        sdp_type: SdpType::Answer(answer),
        user_id,
        app_id: APP_ID,
        matcher_id: MATCHER_ID,
        opponent_id,
        offer: String::new(),
    }
}

/// The request that sends `offer` to the opponent, both as the session
/// description and in the offer field.
pub fn offer_sdp_request(user_id: UserId, opponent_id: UserId, offer: String) -> (req: SendSdpRequest)
    ensures
        req.sdp_type matches SdpType::Offer(o) && o@ == offer@,
        req.user_id == user_id,
        req.app_id == APP_ID,
        req.matcher_id == MATCHER_ID,
        req.opponent_id == opponent_id,
        req.offer@ == offer@,
{
    SendSdpRequest {
        sdp_type: SdpType::Offer(offer.clone()),
        user_id,
        app_id: APP_ID,
        matcher_id: MATCHER_ID,
        opponent_id,
        offer,
    }
}

/// The address of the server's start-matching endpoint.
pub fn start_matching_url(server_domain: &str) -> (url: String)
    ensures
        url@ == server_domain@ + "/start-matching"@,
{
    String::from_str(server_domain).concat("/start-matching")
}

/// The address of the server's send-sdp endpoint.
pub fn send_sdp_url(server_domain: &str) -> (url: String)
    ensures
        url@ == server_domain@ + "/send-sdp"@,
{
    String::from_str(server_domain).concat("/send-sdp")
}

/// What the client learned from entering matching.
pub struct StartPeerConnectionResponse {
    user_id: UserId,
    opponent_user_id: UserId,
    offer: Option<String>,
}

/// What a `StartPeerConnectionResponse` holds, the offer by its text.
pub struct PeerConnectionStart {
    pub user_id: UserId,
    pub opponent_user_id: UserId,
    pub offer: Option<Seq<char>>,
}

pub open spec fn text_of(o: Option<String>) -> Option<Seq<char>> {
    match o {
        Some(s) => Some(s@),
        None => None,
    }
}

impl View for StartPeerConnectionResponse {
    type V = PeerConnectionStart;

    closed spec fn view(&self) -> PeerConnectionStart {
        PeerConnectionStart {
            user_id: self.user_id,
            opponent_user_id: self.opponent_user_id,
            offer: text_of(self.offer),
        }
    }
}

impl StartPeerConnectionResponse {
    /// The client's own user id.
    pub fn get_user_id(&self) -> (id: &UserId)
        ensures
            *id == self@.user_id,
    {
        &self.user_id
    }

    /// The matched opponent's user id.
    pub fn get_opponent_user_id(&self) -> (id: &UserId)
        ensures
            *id == self@.opponent_user_id,
    {
        &self.opponent_user_id
    }

    /// The offer handed over by the server, when there is one.
    pub fn get_offer(&self) -> (offer: Option<&String>)
        ensures
            match offer {
                Some(o) => self@.offer == Some(o@),
                None => self@.offer is None,
            },
    {
        self.offer.as_ref()
    }
}

pub open spec fn user_id_failed_text(e: Seq<char>) -> Seq<char> {
    "get_current_user_id failed: "@ + e
}

/// The offer that a signaling reply hands over, if any.
pub open spec fn offered(signaling: SignalingResponseType) -> Option<Seq<char>> {
    match signaling {
        SignalingResponseType::Offering(o) => Some(o@),
        _ => None,
    }
}

/// What entering matching as a new user yields from the server's reply:
/// the user id the server created, the opponent it matched, and the offer it
/// handed over; a reply that does not create a user id is an error.
/// (A reply that creates a user id is one that matched the client.)
pub fn start_peer_connection_response(parsed: StartMatchingResponse) -> (r: Result<StartPeerConnectionResponse, String>)
    requires
        parsed.user_id_response_type is Created ==> parsed.response_type is Matched,
    ensures
        match r {
            Ok(resp) => {
                &&& parsed.user_id_response_type is Created
                &&& resp@.user_id == parsed.user_id_response_type->Created_0
                &&& resp@.opponent_user_id == parsed.response_type->Matched_0
                &&& resp@.offer == offered(parsed.signaling_response_type)
            },
            Err(e) => {
                &&& !(parsed.user_id_response_type is Created)
                &&& e@ == user_id_failed_text(creating_mismatch_text())
            },
        },
{
    let user_id = match UserIdRequestType::Creating.get_current_user_id(&parsed.user_id_response_type) {
        Ok(id) => id,
        Err(e) => return Err(String::from_str("get_current_user_id failed: ").concat(e.as_str())),
    };
    let opponent_user_id = match parsed.response_type {
        StartMatchingResponseType::Matched(id) => id,
        StartMatchingResponseType::Waiting => {
            proof {
                assert(false);
            }
            0
        },
    };
    let offer = match parsed.signaling_response_type {
        SignalingResponseType::Offering(o) => Some(o),
        _ => None,
    };
    Ok(StartPeerConnectionResponse { user_id, opponent_user_id, offer })
}

/// Which side of the connection the client takes once matched.
#[derive(Clone, Debug)]
pub enum ConnectionRole {
    /// The server handed over the opponent's offer: the client answers it.
    Answerer(String),
    /// No offer was handed over: the client makes the offer.
    Offerer,
}

/// The side the client takes: it answers the offer it was handed, or makes
/// one when it was handed none.
pub fn connection_role(response: &StartPeerConnectionResponse) -> (role: ConnectionRole)
    ensures
        match role {
            ConnectionRole::Answerer(offer) => response@.offer == Some(offer@),
            ConnectionRole::Offerer => response@.offer is None,
        },
{
    match response.get_offer() {
        Some(offer) => ConnectionRole::Answerer(offer.clone()),
        None => ConnectionRole::Offerer,
    }
}

} // verus!
