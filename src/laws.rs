use crate::discord::{
    dispatch_for, response_for, BodyModel, DispatchModel, RejectionModel, RequestModel,
    ResponseModel, STATUS_INTERNAL_SERVER_ERROR, STATUS_OK,
};
use serde_json::Value;
use vstd::prelude::*;

verus! {

/// A request with a message and no display-name override is sent with that
/// message and no override; when the send succeeds, the answer has status 200
/// and the service's value, unchanged, as its body.
pub proof fn lemma_message_without_username(req: RequestModel, value: Value)
    requires
        req.message.len() > 0,
        req.username is None,
    ensures
        dispatch_for(Ok(req)) == (DispatchModel::Send { content: req.message, username: None }),
        response_for(Ok(value)) == (ResponseModel { status: STATUS_OK, body: BodyModel::Json(value) }),
{
}

/// A request with a message and a display-name override is sent with both, the
/// override exactly as it came.
pub proof fn lemma_username_passed_through(req: RequestModel)
    requires
        req.username is Some,
    ensures
        dispatch_for(Ok(req)) == (DispatchModel::Send {
            content: req.message,
            username: Some(req.username->Some_0),
        }),
{
}

/// A body that could not be decoded never reaches the chat service: the
/// endpoint answers with the transport's rejection instead.
pub proof fn lemma_malformed_never_sent(rejection: RejectionModel)
    ensures
        dispatch_for(Err(rejection)) is Reject,
        dispatch_for(Err(rejection)) == DispatchModel::Reject(
            ResponseModel { status: rejection.status, body: BodyModel::Text(rejection.description) },
        ),
{
}

/// Any failure of the chat service is answered with status 500, and the body
/// is the error's description, character for character.
pub proof fn lemma_failure_text_round_trip(description: Seq<char>)
    ensures
        response_for(Err(description)).status == STATUS_INTERNAL_SERVER_ERROR,
        response_for(Err(description)).body == BodyModel::Text(description),
{
}

/// The endpoint keeps nothing between requests: handling the same request
/// twice sends it twice, with the same arguments each time.
pub proof fn lemma_no_deduplication(first: RequestModel, second: RequestModel)
    requires
        first == second,
    ensures
        dispatch_for(Ok(first)) is Send,
        dispatch_for(Ok(second)) is Send,
        dispatch_for(Ok(first)) == dispatch_for(Ok(second)),
{
}

} // verus!
