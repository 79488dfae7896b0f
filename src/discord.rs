use serde_json::Value;
use vstd::prelude::*;

verus! {

/// The decoded body of a message-post request.
pub struct DiscordPostRequest {
    pub message: String,
    pub username: Option<String>,
}

/// Mathematical model of a [`DiscordPostRequest`].
pub struct RequestModel {
    pub message: Seq<char>,
    pub username: Option<Seq<char>>,
}

/// The model of an optional text: absent stays absent, present text keeps its characters.
pub open spec fn opt_text_view(t: Option<String>) -> Option<Seq<char>> {
    match t {
        Some(s) => Some(s@),
        None => None,
    }
}

impl View for DiscordPostRequest {
    type V = RequestModel;

    open spec fn view(&self) -> RequestModel {
        RequestModel { message: self.message@, username: opt_text_view(self.username) }
    }
}

impl DiscordPostRequest {
    /// A request with the given message and display-name override.
    pub fn new(message: String, username: Option<String>) -> (r: DiscordPostRequest)
        ensures
            r.message == message,
            r.username == username,
    {
        DiscordPostRequest { message, username }
    }
}

/// HTTP status of a response that carries the chat service's value.
pub const STATUS_OK: u16 = 200;

/// HTTP status of a response that reports a failure of the chat service.
pub const STATUS_INTERNAL_SERVER_ERROR: u16 = 500;

/// The body of an endpoint response.
pub enum ResponseBody {
    /// A JSON value, relayed as it came.
    Json(Value),
    /// Plain text.
    Text(String),
}

/// Mathematical model of a [`ResponseBody`].
pub enum BodyModel {
    Json(Value),
    Text(Seq<char>),
}

impl View for ResponseBody {
    type V = BodyModel;

    open spec fn view(&self) -> BodyModel {
        match self {
            ResponseBody::Json(v) => BodyModel::Json(*v),
            ResponseBody::Text(t) => BodyModel::Text(t@),
        }
    }
}

/// A response of the endpoint: an HTTP status and a body.
pub struct HandlerResponse {
    pub status: u16,
    pub body: ResponseBody,
}

/// Mathematical model of a [`HandlerResponse`].
pub struct ResponseModel {
    pub status: u16,
    pub body: BodyModel,
}

impl View for HandlerResponse {
    type V = ResponseModel;

    open spec fn view(&self) -> ResponseModel {
        ResponseModel { status: self.status, body: self.body@ }
    }
}

/// The response owed for the chat service's outcome: its value with status 200
/// on success, its error's description as text with status 500 on failure.
pub open spec fn response_for(outcome: Result<Value, Seq<char>>) -> ResponseModel {
    match outcome {
        Ok(v) => ResponseModel { status: STATUS_OK, body: BodyModel::Json(v) },
        Err(d) => ResponseModel { status: STATUS_INTERNAL_SERVER_ERROR, body: BodyModel::Text(d) },
    }
}

/// The model of a service outcome whose error is already described as text.
pub open spec fn described_outcome_view(outcome: Result<Value, String>) -> Result<Value, Seq<char>> {
    match outcome {
        Ok(v) => Ok(v),
        Err(d) => Err(d@),
    }
}

/// The response to a successful send: status 200, the service's value unchanged.
pub fn success_response(value: Value) -> (r: HandlerResponse)
    ensures
        r@ == response_for(Ok(value)),
{
    HandlerResponse { status: STATUS_OK, body: ResponseBody::Json(value) }
}

/// The response to a failed send: status 500, the error's description as it is.
pub fn error_response(description: String) -> (r: HandlerResponse)
    ensures
        r@ == response_for(Err(description@)),
{
    HandlerResponse { status: STATUS_INTERNAL_SERVER_ERROR, body: ResponseBody::Text(description) }
}

/// The response to the chat service's outcome, its error already described as text.
pub fn respond(outcome: Result<Value, String>) -> (r: HandlerResponse)
    ensures
        r@ == response_for(described_outcome_view(outcome)),
{
    match outcome {
        Ok(v) => success_response(v),
        Err(d) => error_response(d),
    }
}

/// Relies on anyhow::Error's `Display` impl, through `ToString`: the text that
/// describes the error.
#[verifier::external_body]
fn describe_error(e: &anyhow::Error) -> (r: String) {
    e.to_string()
}

/// The response to the chat service's outcome as the service reports it: the
/// value with status 200 on success; on failure status 500, with the error's
/// description as text.
pub fn respond_to_outcome(outcome: Result<Value, anyhow::Error>) -> (r: HandlerResponse)
    ensures
        outcome is Ok ==> r@ == response_for(Ok(outcome->Ok_0)),
        outcome is Err ==> r.status == STATUS_INTERNAL_SERVER_ERROR && r.body is Text,
{
    match outcome {
        Ok(v) => success_response(v),
        Err(e) => error_response(describe_error(&e)),
    }
}

/// Why a request body could not be decoded, as the transport reports it.
pub struct MalformedRequest {
    pub status: u16,
    pub description: String,
}

/// Mathematical model of a [`MalformedRequest`].
pub struct RejectionModel {
    pub status: u16,
    pub description: Seq<char>,
}

impl View for MalformedRequest {
    type V = RejectionModel;

    open spec fn view(&self) -> RejectionModel {
        RejectionModel { status: self.status, description: self.description@ }
    }
}

/// What the endpoint does with a request body.
pub enum Dispatch<'a> {
    /// Call the chat service once, with this text and display-name override.
    Send { content: &'a str, username: Option<&'a str> },
    /// Call nothing; answer with this response.
    Reject(HandlerResponse),
}

/// Mathematical model of a [`Dispatch`].
pub enum DispatchModel {
    Send { content: Seq<char>, username: Option<Seq<char>> },
    Reject(ResponseModel),
}

/// The model of an optional borrowed text.
pub open spec fn opt_str_view(t: Option<&str>) -> Option<Seq<char>> {
    match t {
        Some(s) => Some(s@),
        None => None,
    }
}

impl<'a> View for Dispatch<'a> {
    type V = DispatchModel;

    open spec fn view(&self) -> DispatchModel {
        match self {
            Dispatch::Send { content, username } => DispatchModel::Send {
                content: content@,
                username: opt_str_view(*username),
            },
            Dispatch::Reject(r) => DispatchModel::Reject(r@),
        }
    }
}

/// The model of the transport's decoding result.
pub open spec fn decoded_view(decoded: Result<DiscordPostRequest, MalformedRequest>) -> Result<
    RequestModel,
    RejectionModel,
> {
    match decoded {
        Ok(req) => Ok(req@),
        Err(rej) => Err(rej@),
    }
}

/// What is owed for a decoding result: a decoded request is sent with its
/// message and display-name override as they are; a body that could not be
/// decoded calls nothing and is answered with the transport's status and
/// description.
pub open spec fn dispatch_for(decoded: Result<RequestModel, RejectionModel>) -> DispatchModel {
    match decoded {
        Ok(req) => DispatchModel::Send { content: req.message, username: req.username },
        Err(rej) => DispatchModel::Reject(
            ResponseModel { status: rej.status, body: BodyModel::Text(rej.description) },
        ),
    }
}

/// The arguments of the chat service call for a decoded request, borrowed from it.
pub fn send_arguments(req: &DiscordPostRequest) -> (r: (&str, Option<&str>))
    ensures
        r.0@ == req.message@,
        opt_str_view(r.1) == opt_text_view(req.username),
{
    let username = match &req.username {
        Some(u) => Some(u.as_str()),
        None => None,
    };
    (req.message.as_str(), username)
}

/// The response to a body that could not be decoded: the transport's status,
/// its description as text.
pub fn rejection_response(rejection: &MalformedRequest) -> (r: HandlerResponse)
    ensures
        r@ == (ResponseModel { status: rejection.status, body: BodyModel::Text(rejection.description@) }),
{
    HandlerResponse { status: rejection.status, body: ResponseBody::Text(rejection.description.clone()) }
}

/// Decides what the endpoint does with the transport's decoding result.
pub fn plan_dispatch(decoded: &Result<DiscordPostRequest, MalformedRequest>) -> (d: Dispatch<'_>)
    ensures
        d@ == dispatch_for(decoded_view(*decoded)),
{
    match decoded {
        Ok(req) => {
            let (content, username) = send_arguments(req);
            Dispatch::Send { content, username }
        },
        Err(rej) => Dispatch::Reject(rejection_response(rej)),
    }
}

} // verus!
