use board_game_if::matching::{
    answer_sdp_request, connection_role, offer_sdp_request, send_sdp_url, start_matching_request,
    start_matching_url, start_peer_connection_response, ConnectionRole, SdpType, SendSdpRequest,
    SignalingRequestType, SignalingResponseType, StartMatchingRequest, StartMatchingResponse,
    StartMatchingResponseType, UserIdRequestType, UserIdResponseType, APP_ID, MATCHER_ID,
};

#[test]
fn current_user_id_pairs() {
    assert_eq!(UserIdRequestType::Creating.get_current_user_id(&UserIdResponseType::Created(5)), Ok(5));
    assert_eq!(
        UserIdRequestType::Creating.get_current_user_id(&UserIdResponseType::Keep),
        Err("request type is creating, but response type is not created".to_string())
    );
    assert_eq!(UserIdRequestType::Updating.get_current_user_id(&UserIdResponseType::Updated(6)), Ok(6));
    assert_eq!(
        UserIdRequestType::Updating.get_current_user_id(&UserIdResponseType::Created(6)),
        Err("request type is updating, but response type is not updated".to_string())
    );
    assert_eq!(UserIdRequestType::Keep(7).get_current_user_id(&UserIdResponseType::Keep), Ok(7));
    assert_eq!(
        UserIdRequestType::Keep(7).get_current_user_id(&UserIdResponseType::Updated(8)),
        Err("request type is keep, but response type is not keep".to_string())
    );
}

#[test]
fn uris() {
    let req = start_matching_request();
    assert_eq!(req.get_uri(), "http://127.0.0.1:3000/start-matching");
    let sdp = answer_sdp_request(1, 2, "a".to_string());
    assert_eq!(SendSdpRequest::get_uri(&sdp), "http://127.0.0.1:3000/web_rtc/send-sdp");
    let _: &StartMatchingRequest = &req;
}

#[test]
fn start_matching_request_fields() {
    let req = start_matching_request();
    assert_eq!(req.user_id_request_type, UserIdRequestType::Creating);
    assert!(matches!(req.signaling_request_type, SignalingRequestType::OfferAccepting));
    assert_eq!(req.matcher_id, 20);
    assert_eq!(req.app_id, 10);
    assert_eq!((APP_ID, MATCHER_ID), (10, 20));
}

#[test]
fn sdp_requests() {
    let ans = answer_sdp_request(1, 2, "answer-sdp".to_string());
    assert!(matches!(&ans.sdp_type, SdpType::Answer(a) if a == "answer-sdp"));
    assert_eq!((ans.user_id, ans.opponent_id, ans.app_id, ans.matcher_id), (1, 2, 10, 20));
    assert_eq!(ans.offer, "");
    let off = offer_sdp_request(3, 4, "offer-sdp".to_string());
    assert!(matches!(&off.sdp_type, SdpType::Offer(o) if o == "offer-sdp"));
    assert_eq!((off.user_id, off.opponent_id, off.app_id, off.matcher_id), (3, 4, 10, 20));
    assert_eq!(off.offer, "offer-sdp");
}

#[test]
fn urls() {
    assert_eq!(start_matching_url("http://example.org"), "http://example.org/start-matching");
    assert_eq!(send_sdp_url("http://example.org"), "http://example.org/send-sdp");
}

#[test]
fn matched_with_offer() {
    let resp = start_peer_connection_response(StartMatchingResponse {
        user_id_response_type: UserIdResponseType::Created(11),
        signaling_response_type: SignalingResponseType::Offering("sdp".to_string()),
        response_type: StartMatchingResponseType::Matched(12),
    })
    .unwrap();
    assert_eq!(*resp.get_user_id(), 11);
    assert_eq!(*resp.get_opponent_user_id(), 12);
    assert_eq!(resp.get_offer(), Some(&"sdp".to_string()));
    assert!(matches!(connection_role(&resp), ConnectionRole::Answerer(o) if o == "sdp"));
}

#[test]
fn matched_without_offer() {
    let resp = start_peer_connection_response(StartMatchingResponse {
        user_id_response_type: UserIdResponseType::Created(11),
        signaling_response_type: SignalingResponseType::NotRequired,
        response_type: StartMatchingResponseType::Matched(12),
    })
    .unwrap();
    assert_eq!(resp.get_offer(), None);
    assert!(matches!(connection_role(&resp), ConnectionRole::Offerer));
}

#[test]
fn reply_without_created_id_is_an_error() {
    let r = start_peer_connection_response(StartMatchingResponse {
        user_id_response_type: UserIdResponseType::Keep,
        signaling_response_type: SignalingResponseType::AnswerAccepted,
        response_type: StartMatchingResponseType::Waiting,
    });
    assert_eq!(
        r.err().unwrap(),
        "get_current_user_id failed: request type is creating, but response type is not created"
    );
}
