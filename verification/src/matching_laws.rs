//! What the decisions on the matching server's replies do.

use vstd::prelude::*;
use crate::matching::{
    creating_mismatch_text, current_user_id, keep_mismatch_text, offered, updating_mismatch_text,
    SignalingResponseType, UserId, UserIdRequestType, UserIdResponseType,
};

verus! {

/// A reply settles the user id exactly when its kind answers the request's
/// kind (created for creating, updated for updating, keep for keep): the id
/// is then the one the server created or updated, or the one the client
/// kept; every other reply is refused with the error of the request's kind.
pub proof fn user_id_settled_only_by_matching_reply(request: UserIdRequestType, response: UserIdResponseType)
    ensures
        current_user_id(request, response) is Ok <==> (
            (request is Creating && response is Created)
            || (request is Updating && response is Updated)
            || (request is Keep && response is Keep)
        ),
        request is Creating && response is Created ==> current_user_id(request, response)
            == Ok::<UserId, Seq<char>>(response->Created_0),
        request is Updating && response is Updated ==> current_user_id(request, response)
            == Ok::<UserId, Seq<char>>(response->Updated_0),
        request is Keep && response is Keep ==> current_user_id(request, response)
            == Ok::<UserId, Seq<char>>(request->Keep_0),
        request is Creating && !(response is Created) ==> current_user_id(request, response)
            == Err::<UserId, Seq<char>>(creating_mismatch_text()),
        request is Updating && !(response is Updated) ==> current_user_id(request, response)
            == Err::<UserId, Seq<char>>(updating_mismatch_text()),
        request is Keep && !(response is Keep) ==> current_user_id(request, response)
            == Err::<UserId, Seq<char>>(keep_mismatch_text()),
{
}

/// A signaling reply hands over an offer exactly when it is an offering,
/// and then the offer is the text it carries.
pub proof fn only_an_offering_hands_over_an_offer(signaling: SignalingResponseType)
    ensures
        offered(signaling) is Some <==> signaling is Offering,
        signaling is Offering ==> offered(signaling) == Some(signaling->Offering_0@),
{
}

} // verus!
