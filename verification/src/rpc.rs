//! Envelopes, method registry, dispatch and typed correlation for the two
//! roles.
//!
//! An envelope is the sum of every request (or response) a role can receive.
//! On the wire only the inner payload travels; the method name carried out of
//! band picks the variant. The dispatcher pattern-matches a decoded request
//! envelope, invokes exactly the one handler method declared for it, and
//! normalizes handler failures to the protocol's error taxonomy.

use vstd::prelude::*;

use crate::error::{Error, ErrorCode, HandlerError};
use crate::json::{json_view, Json, JsonV};
use crate::schema::{
    dec_push_response, dec_request_confirmation_response, dec_initialize_response,
    dec_push_params, dec_request_confirmation_params, dec_send_user_message_params,
    dec_stream_params, dec_update_params, enc_empty, enc_initialize_response, enc_push_params,
    enc_push_response, enc_request_confirmation_params, enc_request_confirmation_response,
    enc_send_user_message_params, enc_stream_params, enc_update_params, empty_payload,
    lemma_initialize_response_round_trip, lemma_push_params_round_trip,
    lemma_push_response_round_trip, lemma_request_confirmation_params_round_trip,
    lemma_request_confirmation_response_round_trip, lemma_send_user_message_params_round_trip,
    lemma_stream_params_round_trip, lemma_update_params_round_trip, AuthenticateParams,
    AuthenticateResponse, CancelSendMessageParams, CancelSendMessageResponse, InitializeParams,
    InitializeResponse, PushToolCallParams, PushToolCallParamsV, PushToolCallResponse,
    RequestToolCallConfirmationParams, RequestToolCallConfirmationParamsV,
    RequestToolCallConfirmationResponse, SendUserMessageParams, SendUserMessageParamsV,
    SendUserMessageResponse, StreamAssistantMessageChunkParams,
    StreamAssistantMessageChunkParamsV, StreamAssistantMessageChunkResponse,
    UpdateToolCallParams, UpdateToolCallParamsV, UpdateToolCallResponse,
};

verus! {

// ---------------------------------------------------------------------------
// Envelopes.
// ---------------------------------------------------------------------------

/// Any request the client role can receive. Each variant is named after the
/// concrete payload type it wraps.
#[derive(Clone, Debug, PartialEq)]
pub enum AnyClientRequest {
    StreamAssistantMessageChunkParams(StreamAssistantMessageChunkParams),
    RequestToolCallConfirmationParams(RequestToolCallConfirmationParams),
    PushToolCallParams(PushToolCallParams),
    UpdateToolCallParams(UpdateToolCallParams),
}

/// The model of [`AnyClientRequest`].
pub enum AnyClientRequestV {
    StreamAssistantMessageChunkParams(StreamAssistantMessageChunkParamsV),
    RequestToolCallConfirmationParams(RequestToolCallConfirmationParamsV),
    PushToolCallParams(PushToolCallParamsV),
    UpdateToolCallParams(UpdateToolCallParamsV),
}

impl DeepView for AnyClientRequest {
    type V = AnyClientRequestV;

    open spec fn deep_view(&self) -> AnyClientRequestV {
        match self {
            AnyClientRequest::StreamAssistantMessageChunkParams(p) =>
                AnyClientRequestV::StreamAssistantMessageChunkParams(p.deep_view()),
            AnyClientRequest::RequestToolCallConfirmationParams(p) =>
                AnyClientRequestV::RequestToolCallConfirmationParams(p.deep_view()),
            AnyClientRequest::PushToolCallParams(p) => AnyClientRequestV::PushToolCallParams(
                p.deep_view(),
            ),
            AnyClientRequest::UpdateToolCallParams(p) => AnyClientRequestV::UpdateToolCallParams(
                p.deep_view(),
            ),
        }
    }
}

/// Any response the client role can return. Every variant is made of plain
/// data, so the envelope needs no separate model.
#[derive(Clone, Copy, Debug, PartialEq, Eq, Structural)]
pub enum AnyClientResult {
    StreamAssistantMessageChunkResponse(StreamAssistantMessageChunkResponse),
    RequestToolCallConfirmationResponse(RequestToolCallConfirmationResponse),
    PushToolCallResponse(PushToolCallResponse),
    UpdateToolCallResponse(UpdateToolCallResponse),
}

impl DeepView for AnyClientResult {
    type V = AnyClientResult;

    open spec fn deep_view(&self) -> AnyClientResult {
        *self
    }
}

/// Any request the agent role can receive.
#[derive(Clone, Debug, PartialEq)]
pub enum AnyAgentRequest {
    InitializeParams(InitializeParams),
    AuthenticateParams(AuthenticateParams),
    SendUserMessageParams(SendUserMessageParams),
    CancelSendMessageParams(CancelSendMessageParams),
}

/// The model of [`AnyAgentRequest`].
pub enum AnyAgentRequestV {
    InitializeParams(InitializeParams),
    AuthenticateParams(AuthenticateParams),
    SendUserMessageParams(SendUserMessageParamsV),
    CancelSendMessageParams(CancelSendMessageParams),
}

impl DeepView for AnyAgentRequest {
    type V = AnyAgentRequestV;

    open spec fn deep_view(&self) -> AnyAgentRequestV {
        match self {
            AnyAgentRequest::InitializeParams(p) => AnyAgentRequestV::InitializeParams(*p),
            AnyAgentRequest::AuthenticateParams(p) => AnyAgentRequestV::AuthenticateParams(*p),
            AnyAgentRequest::SendUserMessageParams(p) => AnyAgentRequestV::SendUserMessageParams(
                p.deep_view(),
            ),
            AnyAgentRequest::CancelSendMessageParams(p) => AnyAgentRequestV::CancelSendMessageParams(
                *p,
            ),
        }
    }
}

/// Any response the agent role can return.
#[derive(Clone, Copy, Debug, PartialEq, Eq, Structural)]
pub enum AnyAgentResult {
    InitializeResponse(InitializeResponse),
    AuthenticateResponse(AuthenticateResponse),
    SendUserMessageResponse(SendUserMessageResponse),
    CancelSendMessageResponse(CancelSendMessageResponse),
}

impl DeepView for AnyAgentResult {
    type V = AnyAgentResult;

    open spec fn deep_view(&self) -> AnyAgentResult {
        *self
    }
}

// ---------------------------------------------------------------------------
// The registry.
// ---------------------------------------------------------------------------

/// One registry entry: the wire method string, the payload type names, and
/// whether a request or response payload travels at all.
#[derive(Clone, Copy, Debug)]
pub struct Method {
    pub name: &'static str,
    pub request_type: &'static str,
    pub param_payload: bool,
    pub response_type: &'static str,
    pub response_payload: bool,
}

/// The wire method strings of the client role, in declaration order.
pub open spec fn spec_client_methods() -> Seq<Seq<char>> {
    seq![
        "streamAssistantMessageChunk"@,
        "requestToolCallConfirmation"@,
        "pushToolCall"@,
        "updateToolCall"@,
    ]
}

/// The wire method strings of the agent role, in declaration order.
pub open spec fn spec_agent_methods() -> Seq<Seq<char>> {
    seq!["initialize"@, "authenticate"@, "sendUserMessage"@, "cancelSendMessage"@]
}

/// The client role's registry table, kept consistent with the codec and the
/// dispatcher by the laws of this module.
pub fn client_methods() -> (r: Vec<Method>)
    ensures
        r@.len() == 4,
        r@[0].name@ == spec_client_methods()[0] && r@[0].param_payload && !r@[0].response_payload,
        r@[1].name@ == spec_client_methods()[1] && r@[1].param_payload && r@[1].response_payload,
        r@[2].name@ == spec_client_methods()[2] && r@[2].param_payload && r@[2].response_payload,
        r@[3].name@ == spec_client_methods()[3] && r@[3].param_payload && !r@[3].response_payload,
{
    let mut out: Vec<Method> = Vec::new();
    out.push(
        Method {
            name: "streamAssistantMessageChunk",
            request_type: "StreamAssistantMessageChunkParams",
            param_payload: true,
            response_type: "StreamAssistantMessageChunkResponse",
            response_payload: false,
        },
    );
    out.push(
        Method {
            name: "requestToolCallConfirmation",
            request_type: "RequestToolCallConfirmationParams",
            param_payload: true,
            response_type: "RequestToolCallConfirmationResponse",
            response_payload: true,
        },
    );
    out.push(
        Method {
            name: "pushToolCall",
            request_type: "PushToolCallParams",
            param_payload: true,
            response_type: "PushToolCallResponse",
            response_payload: true,
        },
    );
    out.push(
        Method {
            name: "updateToolCall",
            request_type: "UpdateToolCallParams",
            param_payload: true,
            response_type: "UpdateToolCallResponse",
            response_payload: false,
        },
    );
    out
}

/// The agent role's registry table.
pub fn agent_methods() -> (r: Vec<Method>)
    ensures
        r@.len() == 4,
        r@[0].name@ == spec_agent_methods()[0] && !r@[0].param_payload && r@[0].response_payload,
        r@[1].name@ == spec_agent_methods()[1] && !r@[1].param_payload && !r@[1].response_payload,
        r@[2].name@ == spec_agent_methods()[2] && r@[2].param_payload && !r@[2].response_payload,
        r@[3].name@ == spec_agent_methods()[3] && !r@[3].param_payload && !r@[3].response_payload,
{
    let mut out: Vec<Method> = Vec::new();
    out.push(
        Method {
            name: "initialize",
            request_type: "InitializeParams",
            param_payload: false,
            response_type: "InitializeResponse",
            response_payload: true,
        },
    );
    out.push(
        Method {
            name: "authenticate",
            request_type: "AuthenticateParams",
            param_payload: false,
            response_type: "AuthenticateResponse",
            response_payload: false,
        },
    );
    out.push(
        Method {
            name: "sendUserMessage",
            request_type: "SendUserMessageParams",
            param_payload: true,
            response_type: "SendUserMessageResponse",
            response_payload: false,
        },
    );
    out.push(
        Method {
            name: "cancelSendMessage",
            request_type: "CancelSendMessageParams",
            param_payload: false,
            response_type: "CancelSendMessageResponse",
            response_payload: false,
        },
    );
    out
}

// ---------------------------------------------------------------------------
// The envelope codec.
// ---------------------------------------------------------------------------

/// Resolves a method name to a client-request variant and decodes the
/// payload. An unknown method is `MethodNotFound`; a known method with a
/// payload that does not match its declared type is `ParseError`.
pub open spec fn dec_any_client_request(method: Seq<char>, payload: JsonV) -> Result<
    AnyClientRequestV,
    ErrorCode,
> {
    if method == "streamAssistantMessageChunk"@ {
        match dec_stream_params(payload) {
            Some(v) => Ok(AnyClientRequestV::StreamAssistantMessageChunkParams(v)),
            None => Err(ErrorCode::ParseError),
        }
    } else if method == "requestToolCallConfirmation"@ {
        match dec_request_confirmation_params(payload) {
            Some(v) => Ok(AnyClientRequestV::RequestToolCallConfirmationParams(v)),
            None => Err(ErrorCode::ParseError),
        }
    } else if method == "pushToolCall"@ {
        match dec_push_params(payload) {
            Some(v) => Ok(AnyClientRequestV::PushToolCallParams(v)),
            None => Err(ErrorCode::ParseError),
        }
    } else if method == "updateToolCall"@ {
        match dec_update_params(payload) {
            Some(v) => Ok(AnyClientRequestV::UpdateToolCallParams(v)),
            None => Err(ErrorCode::ParseError),
        }
    } else {
        Err(ErrorCode::MethodNotFound)
    }
}

/// Resolves a method name to the client-response variant owed for it and
/// decodes the result payload. Entries without a response payload ignore the
/// raw result entirely.
pub open spec fn dec_any_client_result(method: Seq<char>, payload: JsonV) -> Result<
    AnyClientResult,
    ErrorCode,
> {
    if method == "streamAssistantMessageChunk"@ {
        Ok(
            AnyClientResult::StreamAssistantMessageChunkResponse(
                StreamAssistantMessageChunkResponse,
            ),
        )
    } else if method == "requestToolCallConfirmation"@ {
        match dec_request_confirmation_response(payload) {
            Some(v) => Ok(AnyClientResult::RequestToolCallConfirmationResponse(v)),
            None => Err(ErrorCode::ParseError),
        }
    } else if method == "pushToolCall"@ {
        match dec_push_response(payload) {
            Some(v) => Ok(AnyClientResult::PushToolCallResponse(v)),
            None => Err(ErrorCode::ParseError),
        }
    } else if method == "updateToolCall"@ {
        Ok(AnyClientResult::UpdateToolCallResponse(UpdateToolCallResponse))
    } else {
        Err(ErrorCode::MethodNotFound)
    }
}

/// Resolves a method name to an agent-request variant. Entries without a
/// request payload ignore the raw payload entirely, so even a malformed one
/// decodes to the marker variant.
pub open spec fn dec_any_agent_request(method: Seq<char>, payload: JsonV) -> Result<
    AnyAgentRequestV,
    ErrorCode,
> {
    if method == "initialize"@ {
        Ok(AnyAgentRequestV::InitializeParams(InitializeParams))
    } else if method == "authenticate"@ {
        Ok(AnyAgentRequestV::AuthenticateParams(AuthenticateParams))
    } else if method == "sendUserMessage"@ {
        match dec_send_user_message_params(payload) {
            Some(v) => Ok(AnyAgentRequestV::SendUserMessageParams(v)),
            None => Err(ErrorCode::ParseError),
        }
    } else if method == "cancelSendMessage"@ {
        Ok(AnyAgentRequestV::CancelSendMessageParams(CancelSendMessageParams))
    } else {
        Err(ErrorCode::MethodNotFound)
    }
}

/// Resolves a method name to the agent-response variant owed for it.
pub open spec fn dec_any_agent_result(method: Seq<char>, payload: JsonV) -> Result<
    AnyAgentResult,
    ErrorCode,
> {
    if method == "initialize"@ {
        match dec_initialize_response(payload) {
            Some(v) => Ok(AnyAgentResult::InitializeResponse(v)),
            None => Err(ErrorCode::ParseError),
        }
    } else if method == "authenticate"@ {
        Ok(AnyAgentResult::AuthenticateResponse(AuthenticateResponse))
    } else if method == "sendUserMessage"@ {
        Ok(AnyAgentResult::SendUserMessageResponse(SendUserMessageResponse))
    } else if method == "cancelSendMessage"@ {
        Ok(AnyAgentResult::CancelSendMessageResponse(CancelSendMessageResponse))
    } else {
        Err(ErrorCode::MethodNotFound)
    }
}

/// The wire method string a client-request envelope travels under.
pub open spec fn client_request_method(v: AnyClientRequestV) -> Seq<char> {
    match v {
        AnyClientRequestV::StreamAssistantMessageChunkParams(_) => "streamAssistantMessageChunk"@,
        AnyClientRequestV::RequestToolCallConfirmationParams(_) => "requestToolCallConfirmation"@,
        AnyClientRequestV::PushToolCallParams(_) => "pushToolCall"@,
        AnyClientRequestV::UpdateToolCallParams(_) => "updateToolCall"@,
    }
}

/// The wire method string an agent-request envelope travels under.
pub open spec fn agent_request_method(v: AnyAgentRequestV) -> Seq<char> {
    match v {
        AnyAgentRequestV::InitializeParams(_) => "initialize"@,
        AnyAgentRequestV::AuthenticateParams(_) => "authenticate"@,
        AnyAgentRequestV::SendUserMessageParams(_) => "sendUserMessage"@,
        AnyAgentRequestV::CancelSendMessageParams(_) => "cancelSendMessage"@,
    }
}

/// The payload a client-request envelope puts on the wire: the plain inner
/// value, with no envelope tag; payload-less entries send an empty object.
pub open spec fn enc_client_request_payload(v: AnyClientRequestV) -> JsonV {
    match v {
        AnyClientRequestV::StreamAssistantMessageChunkParams(p) => enc_stream_params(p),
        AnyClientRequestV::RequestToolCallConfirmationParams(p) => enc_request_confirmation_params(
            p,
        ),
        AnyClientRequestV::PushToolCallParams(p) => enc_push_params(p),
        AnyClientRequestV::UpdateToolCallParams(p) => enc_update_params(p),
    }
}

/// The payload an agent-request envelope puts on the wire.
pub open spec fn enc_agent_request_payload(v: AnyAgentRequestV) -> JsonV {
    match v {
        AnyAgentRequestV::SendUserMessageParams(p) => enc_send_user_message_params(p),
        _ => enc_empty(),
    }
}

/// The wire method string whose response a client-result envelope answers.
pub open spec fn client_result_method(v: AnyClientResult) -> Seq<char> {
    match v {
        AnyClientResult::StreamAssistantMessageChunkResponse(_) => "streamAssistantMessageChunk"@,
        AnyClientResult::RequestToolCallConfirmationResponse(_) => "requestToolCallConfirmation"@,
        AnyClientResult::PushToolCallResponse(_) => "pushToolCall"@,
        AnyClientResult::UpdateToolCallResponse(_) => "updateToolCall"@,
    }
}

/// The payload a client-result envelope puts on the wire.
pub open spec fn enc_client_result_payload(v: AnyClientResult) -> JsonV {
    match v {
        AnyClientResult::RequestToolCallConfirmationResponse(p) =>
            enc_request_confirmation_response(p),
        AnyClientResult::PushToolCallResponse(p) => enc_push_response(p),
        _ => enc_empty(),
    }
}

/// The wire method string whose response an agent-result envelope answers.
pub open spec fn agent_result_method(v: AnyAgentResult) -> Seq<char> {
    match v {
        AnyAgentResult::InitializeResponse(_) => "initialize"@,
        AnyAgentResult::AuthenticateResponse(_) => "authenticate"@,
        AnyAgentResult::SendUserMessageResponse(_) => "sendUserMessage"@,
        AnyAgentResult::CancelSendMessageResponse(_) => "cancelSendMessage"@,
    }
}

/// The payload an agent-result envelope puts on the wire.
pub open spec fn enc_agent_result_payload(v: AnyAgentResult) -> JsonV {
    match v {
        AnyAgentResult::InitializeResponse(p) => enc_initialize_response(p),
        _ => enc_empty(),
    }
}

/// A parse failure, with a non-empty diagnostic as its detail.
fn parse_error() -> (r: Error)
    ensures
        r.code == ErrorCode::ParseError,
        r.details matches Some(d) && d@.len() > 0,
{
    proof {
        reveal_strlit("payload does not match the declared parameter type");
    }
    ErrorCode::ParseError.into_error_with_details(
        "payload does not match the declared parameter type".to_owned(),
    )
}

impl AnyClientRequest {
    /// Looks the method up in the registry and decodes the raw payload as
    /// the entry's request type; unknown methods fail with `MethodNotFound`,
    /// mismatched payloads with `ParseError` and a non-empty detail.
    pub fn from_method_and_params(method: &str, params: &Json) -> (r: Result<
        AnyClientRequest,
        Error,
    >)
        ensures
            match r {
                Ok(v) => dec_any_client_request(method@, params.deep_view()) == Ok::<
                    _,
                    ErrorCode,
                >(v.deep_view()),
                Err(e) => {
                    &&& dec_any_client_request(method@, params.deep_view()) == Err::<
                        AnyClientRequestV,
                        _,
                    >(e.code)
                    &&& (e.code == ErrorCode::ParseError ==> (e.details matches Some(d)
                        && d@.len() > 0))
                },
            },
    {
        if crate::json::str_eq(method, "streamAssistantMessageChunk") {
            match StreamAssistantMessageChunkParams::from_json(params) {
                Some(p) => Ok(AnyClientRequest::StreamAssistantMessageChunkParams(p)),
                None => Err(parse_error()),
            }
        } else if crate::json::str_eq(method, "requestToolCallConfirmation") {
            match RequestToolCallConfirmationParams::from_json(params) {
                Some(p) => Ok(AnyClientRequest::RequestToolCallConfirmationParams(p)),
                None => Err(parse_error()),
            }
        } else if crate::json::str_eq(method, "pushToolCall") {
            match PushToolCallParams::from_json(params) {
                Some(p) => Ok(AnyClientRequest::PushToolCallParams(p)),
                None => Err(parse_error()),
            }
        } else if crate::json::str_eq(method, "updateToolCall") {
            match UpdateToolCallParams::from_json(params) {
                Some(p) => Ok(AnyClientRequest::UpdateToolCallParams(p)),
                None => Err(parse_error()),
            }
        } else {
            Err(ErrorCode::MethodNotFound.into_error())
        }
    }

    /// Looks the method up in the registry and decodes the raw result as the
    /// entry's response type; entries without a response payload ignore it.
    pub fn response_from_method_and_result(method: &str, result: &Json) -> (r: Result<
        AnyClientResult,
        Error,
    >)
        ensures
            match r {
                Ok(v) => dec_any_client_result(method@, result.deep_view()) == Ok::<
                    _,
                    ErrorCode,
                >(v),
                Err(e) => {
                    &&& dec_any_client_result(method@, result.deep_view()) == Err::<
                        AnyClientResult,
                        _,
                    >(e.code)
                    &&& (e.code == ErrorCode::ParseError ==> (e.details matches Some(d)
                        && d@.len() > 0))
                },
            },
    {
        if crate::json::str_eq(method, "streamAssistantMessageChunk") {
            Ok(
                AnyClientResult::StreamAssistantMessageChunkResponse(
                    StreamAssistantMessageChunkResponse,
                ),
            )
        } else if crate::json::str_eq(method, "requestToolCallConfirmation") {
            match RequestToolCallConfirmationResponse::from_json(result) {
                Some(p) => Ok(AnyClientResult::RequestToolCallConfirmationResponse(p)),
                None => Err(parse_error()),
            }
        } else if crate::json::str_eq(method, "pushToolCall") {
            match PushToolCallResponse::from_json(result) {
                Some(p) => Ok(AnyClientResult::PushToolCallResponse(p)),
                None => Err(parse_error()),
            }
        } else if crate::json::str_eq(method, "updateToolCall") {
            Ok(AnyClientResult::UpdateToolCallResponse(UpdateToolCallResponse))
        } else {
            Err(ErrorCode::MethodNotFound.into_error())
        }
    }

    /// The wire method string to send alongside this request's payload.
    pub fn method_name(&self) -> (r: &'static str)
        ensures
            r@ == client_request_method(self.deep_view()),
    {
        match self {
            AnyClientRequest::StreamAssistantMessageChunkParams(_) => "streamAssistantMessageChunk",
            AnyClientRequest::RequestToolCallConfirmationParams(_) => "requestToolCallConfirmation",
            AnyClientRequest::PushToolCallParams(_) => "pushToolCall",
            AnyClientRequest::UpdateToolCallParams(_) => "updateToolCall",
        }
    }

    /// Serializes this request's payload: the plain inner value, with no
    /// envelope tag.
    pub fn params_to_json(&self) -> (r: Json)
        ensures
            json_view(r) == enc_client_request_payload(self.deep_view()),
    {
        match self {
            AnyClientRequest::StreamAssistantMessageChunkParams(p) => p.to_json(),
            AnyClientRequest::RequestToolCallConfirmationParams(p) => p.to_json(),
            AnyClientRequest::PushToolCallParams(p) => p.to_json(),
            AnyClientRequest::UpdateToolCallParams(p) => p.to_json(),
        }
    }
}

impl AnyClientResult {
    /// Serializes this response's payload.
    pub fn result_to_json(&self) -> (r: Json)
        ensures
            json_view(r) == enc_client_result_payload(*self),
    {
        match self {
            AnyClientResult::RequestToolCallConfirmationResponse(p) => p.to_json(),
            AnyClientResult::PushToolCallResponse(p) => p.to_json(),
            _ => empty_payload(),
        }
    }
}

impl AnyAgentRequest {
    /// As [`AnyClientRequest::from_method_and_params`], for the agent role.
    /// Payload-less entries accept any raw payload, an empty object
    /// included, and ignore it.
    pub fn from_method_and_params(method: &str, params: &Json) -> (r: Result<
        AnyAgentRequest,
        Error,
    >)
        ensures
            match r {
                Ok(v) => dec_any_agent_request(method@, params.deep_view()) == Ok::<
                    _,
                    ErrorCode,
                >(v.deep_view()),
                Err(e) => {
                    &&& dec_any_agent_request(method@, params.deep_view()) == Err::<
                        AnyAgentRequestV,
                        _,
                    >(e.code)
                    &&& (e.code == ErrorCode::ParseError ==> (e.details matches Some(d)
                        && d@.len() > 0))
                },
            },
    {
        if crate::json::str_eq(method, "initialize") {
            Ok(AnyAgentRequest::InitializeParams(InitializeParams))
        } else if crate::json::str_eq(method, "authenticate") {
            Ok(AnyAgentRequest::AuthenticateParams(AuthenticateParams))
        } else if crate::json::str_eq(method, "sendUserMessage") {
            match SendUserMessageParams::from_json(params) {
                Some(p) => Ok(AnyAgentRequest::SendUserMessageParams(p)),
                None => Err(parse_error()),
            }
        } else if crate::json::str_eq(method, "cancelSendMessage") {
            Ok(AnyAgentRequest::CancelSendMessageParams(CancelSendMessageParams))
        } else {
            Err(ErrorCode::MethodNotFound.into_error())
        }
    }

    /// As [`AnyClientRequest::response_from_method_and_result`], for the
    /// agent role.
    pub fn response_from_method_and_result(method: &str, result: &Json) -> (r: Result<
        AnyAgentResult,
        Error,
    >)
        ensures
            match r {
                Ok(v) => dec_any_agent_result(method@, result.deep_view()) == Ok::<
                    _,
                    ErrorCode,
                >(v),
                Err(e) => {
                    &&& dec_any_agent_result(method@, result.deep_view()) == Err::<
                        AnyAgentResult,
                        _,
                    >(e.code)
                    &&& (e.code == ErrorCode::ParseError ==> (e.details matches Some(d)
                        && d@.len() > 0))
                },
            },
    {
        if crate::json::str_eq(method, "initialize") {
            match InitializeResponse::from_json(result) {
                Some(p) => Ok(AnyAgentResult::InitializeResponse(p)),
                None => Err(parse_error()),
            }
        } else if crate::json::str_eq(method, "authenticate") {
            Ok(AnyAgentResult::AuthenticateResponse(AuthenticateResponse))
        } else if crate::json::str_eq(method, "sendUserMessage") {
            Ok(AnyAgentResult::SendUserMessageResponse(SendUserMessageResponse))
        } else if crate::json::str_eq(method, "cancelSendMessage") {
            Ok(AnyAgentResult::CancelSendMessageResponse(CancelSendMessageResponse))
        } else {
            Err(ErrorCode::MethodNotFound.into_error())
        }
    }

    /// The wire method string to send alongside this request's payload.
    pub fn method_name(&self) -> (r: &'static str)
        ensures
            r@ == agent_request_method(self.deep_view()),
    {
        match self {
            AnyAgentRequest::InitializeParams(_) => "initialize",
            AnyAgentRequest::AuthenticateParams(_) => "authenticate",
            AnyAgentRequest::SendUserMessageParams(_) => "sendUserMessage",
            AnyAgentRequest::CancelSendMessageParams(_) => "cancelSendMessage",
        }
    }

    /// Serializes this request's payload; payload-less entries serialize as
    /// an empty object, never as null.
    pub fn params_to_json(&self) -> (r: Json)
        ensures
            json_view(r) == enc_agent_request_payload(self.deep_view()),
    {
        match self {
            AnyAgentRequest::SendUserMessageParams(p) => p.to_json(),
            _ => empty_payload(),
        }
    }
}

impl AnyAgentResult {
    /// Serializes this response's payload.
    pub fn result_to_json(&self) -> (r: Json)
        ensures
            json_view(r) == enc_agent_result_payload(*self),
    {
        match self {
            AnyAgentResult::InitializeResponse(p) => p.to_json(),
            _ => empty_payload(),
        }
    }
}

// ---------------------------------------------------------------------------
// Role dispatch.
// ---------------------------------------------------------------------------

/// Whether a client response envelope answers the given client request: the
/// central method/response pairing invariant of the dispatcher.
pub open spec fn client_response_matches(req: AnyClientRequestV, resp: AnyClientResult) -> bool {
    match req {
        AnyClientRequestV::StreamAssistantMessageChunkParams(_) => resp matches
            AnyClientResult::StreamAssistantMessageChunkResponse(_),
        AnyClientRequestV::RequestToolCallConfirmationParams(_) => resp matches
            AnyClientResult::RequestToolCallConfirmationResponse(_),
        AnyClientRequestV::PushToolCallParams(_) => resp matches
            AnyClientResult::PushToolCallResponse(_),
        AnyClientRequestV::UpdateToolCallParams(_) => resp matches
            AnyClientResult::UpdateToolCallResponse(_),
    }
}

/// Whether an agent response envelope answers the given agent request.
pub open spec fn agent_response_matches(req: AnyAgentRequestV, resp: AnyAgentResult) -> bool {
    match req {
        AnyAgentRequestV::InitializeParams(_) => resp matches AnyAgentResult::InitializeResponse(
            _,
        ),
        AnyAgentRequestV::AuthenticateParams(_) => resp matches
            AnyAgentResult::AuthenticateResponse(_),
        AnyAgentRequestV::SendUserMessageParams(_) => resp matches
            AnyAgentResult::SendUserMessageResponse(_),
        AnyAgentRequestV::CancelSendMessageParams(_) => resp matches
            AnyAgentResult::CancelSendMessageResponse(_),
    }
}

/// Normalizes a handler outcome without a response payload into the given
/// marker envelope, or into an internal error whose detail preserves the
/// handler's failure message.
fn wrap_unit_client_outcome(outcome: Result<(), HandlerError>, marker: AnyClientResult) -> (r:
    Result<AnyClientResult, Error>)
    ensures
        match outcome {
            Ok(_) => r == Ok::<_, Error>(marker),
            Err(h) => (r matches Err(e) && e.code == ErrorCode::InternalError && e.details == Some(
                h.message,
            )),
        },
{
    match outcome {
        Ok(_) => Ok(marker),
        Err(h) => Err(ErrorCode::InternalError.into_error_with_details(h.message)),
    }
}

/// As [`wrap_unit_client_outcome`], for the agent role.
fn wrap_unit_agent_outcome(outcome: Result<(), HandlerError>, marker: AnyAgentResult) -> (r:
    Result<AnyAgentResult, Error>)
    ensures
        match outcome {
            Ok(_) => r == Ok::<_, Error>(marker),
            Err(h) => (r matches Err(e) && e.code == ErrorCode::InternalError && e.details == Some(
                h.message,
            )),
        },
{
    match outcome {
        Ok(_) => Ok(marker),
        Err(h) => Err(ErrorCode::InternalError.into_error_with_details(h.message)),
    }
}

/// Normalizes a confirmation handler's outcome into its response envelope.
fn wrap_confirmation_outcome(
    outcome: Result<RequestToolCallConfirmationResponse, HandlerError>,
) -> (r: Result<AnyClientResult, Error>)
    ensures
        match outcome {
            Ok(resp) => r == Ok::<_, Error>(
                AnyClientResult::RequestToolCallConfirmationResponse(resp),
            ),
            Err(h) => (r matches Err(e) && e.code == ErrorCode::InternalError && e.details == Some(
                h.message,
            )),
        },
{
    match outcome {
        Ok(resp) => Ok(AnyClientResult::RequestToolCallConfirmationResponse(resp)),
        Err(h) => Err(ErrorCode::InternalError.into_error_with_details(h.message)),
    }
}

/// Normalizes a push handler's outcome into its response envelope.
fn wrap_push_outcome(outcome: Result<PushToolCallResponse, HandlerError>) -> (r: Result<
    AnyClientResult,
    Error,
>)
    ensures
        match outcome {
            Ok(resp) => r == Ok::<_, Error>(AnyClientResult::PushToolCallResponse(resp)),
            Err(h) => (r matches Err(e) && e.code == ErrorCode::InternalError && e.details == Some(
                h.message,
            )),
        },
{
    match outcome {
        Ok(resp) => Ok(AnyClientResult::PushToolCallResponse(resp)),
        Err(h) => Err(ErrorCode::InternalError.into_error_with_details(h.message)),
    }
}

/// Normalizes an initialize handler's outcome into its response envelope.
fn wrap_initialize_outcome(outcome: Result<InitializeResponse, HandlerError>) -> (r: Result<
    AnyAgentResult,
    Error,
>)
    ensures
        match outcome {
            Ok(resp) => r == Ok::<_, Error>(AnyAgentResult::InitializeResponse(resp)),
            Err(h) => (r matches Err(e) && e.code == ErrorCode::InternalError && e.details == Some(
                h.message,
            )),
        },
{
    match outcome {
        Ok(resp) => Ok(AnyAgentResult::InitializeResponse(resp)),
        Err(h) => Err(ErrorCode::InternalError.into_error_with_details(h.message)),
    }
}

/// The client role's handler contract: one method per catalog entry. A
/// handler returns its concrete response payload, or a failure that the
/// dispatcher normalizes; it never sees an envelope.
pub trait Client {
    fn stream_assistant_message_chunk(&self, request: StreamAssistantMessageChunkParams) -> Result<
        (),
        HandlerError,
    >;

    fn request_tool_call_confirmation(&self, request: RequestToolCallConfirmationParams) -> Result<
        RequestToolCallConfirmationResponse,
        HandlerError,
    >;

    fn push_tool_call(&self, request: PushToolCallParams) -> Result<
        PushToolCallResponse,
        HandlerError,
    >;

    fn update_tool_call(&self, request: UpdateToolCallParams) -> Result<(), HandlerError>;

    /// The dispatch entry point: pattern-matches the request envelope,
    /// invokes the one handler method declared for it, and wraps the
    /// outcome. A successful response always answers the request's own
    /// method; a handler failure surfaces as an internal error, never as an
    /// unstructured crash.
    fn call(&self, params: AnyClientRequest) -> (r: Result<AnyClientResult, Error>)
        ensures
            match r {
                Ok(resp) => client_response_matches(params.deep_view(), resp),
                Err(e) => e.code == ErrorCode::InternalError,
            },
    {
        match params {
            AnyClientRequest::StreamAssistantMessageChunkParams(p) => wrap_unit_client_outcome(
                self.stream_assistant_message_chunk(p),
                AnyClientResult::StreamAssistantMessageChunkResponse(
                    StreamAssistantMessageChunkResponse,
                ),
            ),
            AnyClientRequest::RequestToolCallConfirmationParams(p) => wrap_confirmation_outcome(
                self.request_tool_call_confirmation(p),
            ),
            AnyClientRequest::PushToolCallParams(p) => wrap_push_outcome(self.push_tool_call(p)),
            AnyClientRequest::UpdateToolCallParams(p) => wrap_unit_client_outcome(
                self.update_tool_call(p),
                AnyClientResult::UpdateToolCallResponse(UpdateToolCallResponse),
            ),
        }
    }
}

/// The agent role's handler contract: one method per catalog entry.
pub trait Agent {
    fn initialize(&self) -> Result<InitializeResponse, HandlerError>;

    fn authenticate(&self) -> Result<(), HandlerError>;

    fn send_user_message(&self, request: SendUserMessageParams) -> Result<(), HandlerError>;

    fn cancel_send_message(&self) -> Result<(), HandlerError>;

    /// The dispatch entry point for the agent role; see [`Client::call`].
    fn call(&self, params: AnyAgentRequest) -> (r: Result<AnyAgentResult, Error>)
        ensures
            match r {
                Ok(resp) => agent_response_matches(params.deep_view(), resp),
                Err(e) => e.code == ErrorCode::InternalError,
            },
    {
        match params {
            AnyAgentRequest::InitializeParams(_) => wrap_initialize_outcome(self.initialize()),
            AnyAgentRequest::AuthenticateParams(_) => wrap_unit_agent_outcome(
                self.authenticate(),
                AnyAgentResult::AuthenticateResponse(AuthenticateResponse),
            ),
            AnyAgentRequest::SendUserMessageParams(p) => wrap_unit_agent_outcome(
                self.send_user_message(p),
                AnyAgentResult::SendUserMessageResponse(SendUserMessageResponse),
            ),
            AnyAgentRequest::CancelSendMessageParams(_) => wrap_unit_agent_outcome(
                self.cancel_send_message(),
                AnyAgentResult::CancelSendMessageResponse(CancelSendMessageResponse),
            ),
        }
    }
}

// ---------------------------------------------------------------------------
// The typed correlation layer.
// ---------------------------------------------------------------------------

impl StreamAssistantMessageChunkParams {
    /// Wraps this request in its one envelope variant.
    pub fn into_any(self) -> (r: AnyClientRequest)
        ensures
            r == AnyClientRequest::StreamAssistantMessageChunkParams(self),
    {
        AnyClientRequest::StreamAssistantMessageChunkParams(self)
    }

    /// Unwraps the response owed for this request, or fails with an internal
    /// error when the envelope carries another method's response.
    pub fn response_from_any(any: AnyClientResult) -> (r: Result<(), Error>)
        ensures
            match any {
                AnyClientResult::StreamAssistantMessageChunkResponse(_) => r == Ok::<_, Error>(()),
                _ => (r matches Err(e) && e.code == ErrorCode::InternalError && (e.details
                    matches Some(d) && d@ == "Unexpected Response"@)),
            },
    {
        match any {
            AnyClientResult::StreamAssistantMessageChunkResponse(_) => Ok(()),
            _ => Err(
                ErrorCode::InternalError.into_error_with_details("Unexpected Response".to_owned()),
            ),
        }
    }
}

impl RequestToolCallConfirmationParams {
    /// Wraps this request in its one envelope variant.
    pub fn into_any(self) -> (r: AnyClientRequest)
        ensures
            r == AnyClientRequest::RequestToolCallConfirmationParams(self),
    {
        AnyClientRequest::RequestToolCallConfirmationParams(self)
    }

    /// Unwraps the response owed for this request; see
    /// [`StreamAssistantMessageChunkParams::response_from_any`].
    pub fn response_from_any(any: AnyClientResult) -> (r: Result<
        RequestToolCallConfirmationResponse,
        Error,
    >)
        ensures
            match any {
                AnyClientResult::RequestToolCallConfirmationResponse(resp) => r == Ok::<_, Error>(
                    resp,
                ),
                _ => (r matches Err(e) && e.code == ErrorCode::InternalError && (e.details
                    matches Some(d) && d@ == "Unexpected Response"@)),
            },
    {
        match any {
            AnyClientResult::RequestToolCallConfirmationResponse(resp) => Ok(resp),
            _ => Err(
                ErrorCode::InternalError.into_error_with_details("Unexpected Response".to_owned()),
            ),
        }
    }
}

impl PushToolCallParams {
    /// Wraps this request in its one envelope variant.
    pub fn into_any(self) -> (r: AnyClientRequest)
        ensures
            r == AnyClientRequest::PushToolCallParams(self),
    {
        AnyClientRequest::PushToolCallParams(self)
    }

    /// Unwraps the response owed for this request; see
    /// [`StreamAssistantMessageChunkParams::response_from_any`].
    pub fn response_from_any(any: AnyClientResult) -> (r: Result<PushToolCallResponse, Error>)
        ensures
            match any {
                AnyClientResult::PushToolCallResponse(resp) => r == Ok::<_, Error>(resp),
                _ => (r matches Err(e) && e.code == ErrorCode::InternalError && (e.details
                    matches Some(d) && d@ == "Unexpected Response"@)),
            },
    {
        match any {
            AnyClientResult::PushToolCallResponse(resp) => Ok(resp),
            _ => Err(
                ErrorCode::InternalError.into_error_with_details("Unexpected Response".to_owned()),
            ),
        }
    }
}

impl UpdateToolCallParams {
    /// Wraps this request in its one envelope variant.
    pub fn into_any(self) -> (r: AnyClientRequest)
        ensures
            r == AnyClientRequest::UpdateToolCallParams(self),
    {
        AnyClientRequest::UpdateToolCallParams(self)
    }

    /// Unwraps the response owed for this request; see
    /// [`StreamAssistantMessageChunkParams::response_from_any`].
    pub fn response_from_any(any: AnyClientResult) -> (r: Result<(), Error>)
        ensures
            match any {
                AnyClientResult::UpdateToolCallResponse(_) => r == Ok::<_, Error>(()),
                _ => (r matches Err(e) && e.code == ErrorCode::InternalError && (e.details
                    matches Some(d) && d@ == "Unexpected Response"@)),
            },
    {
        match any {
            AnyClientResult::UpdateToolCallResponse(_) => Ok(()),
            _ => Err(
                ErrorCode::InternalError.into_error_with_details("Unexpected Response".to_owned()),
            ),
        }
    }
}

impl InitializeParams {
    /// Wraps this request in its one envelope variant.
    pub fn into_any(self) -> (r: AnyAgentRequest)
        ensures
            r == AnyAgentRequest::InitializeParams(self),
    {
        AnyAgentRequest::InitializeParams(self)
    }

    /// Unwraps the response owed for this request; see
    /// [`StreamAssistantMessageChunkParams::response_from_any`].
    pub fn response_from_any(any: AnyAgentResult) -> (r: Result<InitializeResponse, Error>)
        ensures
            match any {
                AnyAgentResult::InitializeResponse(resp) => r == Ok::<_, Error>(resp),
                _ => (r matches Err(e) && e.code == ErrorCode::InternalError && (e.details
                    matches Some(d) && d@ == "Unexpected Response"@)),
            },
    {
        match any {
            AnyAgentResult::InitializeResponse(resp) => Ok(resp),
            _ => Err(
                ErrorCode::InternalError.into_error_with_details("Unexpected Response".to_owned()),
            ),
        }
    }
}

impl AuthenticateParams {
    /// Wraps this request in its one envelope variant.
    pub fn into_any(self) -> (r: AnyAgentRequest)
        ensures
            r == AnyAgentRequest::AuthenticateParams(self),
    {
        AnyAgentRequest::AuthenticateParams(self)
    }

    /// Unwraps the response owed for this request; see
    /// [`StreamAssistantMessageChunkParams::response_from_any`].
    pub fn response_from_any(any: AnyAgentResult) -> (r: Result<(), Error>)
        ensures
            match any {
                AnyAgentResult::AuthenticateResponse(_) => r == Ok::<_, Error>(()),
                _ => (r matches Err(e) && e.code == ErrorCode::InternalError && (e.details
                    matches Some(d) && d@ == "Unexpected Response"@)),
            },
    {
        match any {
            AnyAgentResult::AuthenticateResponse(_) => Ok(()),
            _ => Err(
                ErrorCode::InternalError.into_error_with_details("Unexpected Response".to_owned()),
            ),
        }
    }
}

impl SendUserMessageParams {
    /// Wraps this request in its one envelope variant.
    pub fn into_any(self) -> (r: AnyAgentRequest)
        ensures
            r == AnyAgentRequest::SendUserMessageParams(self),
    {
        AnyAgentRequest::SendUserMessageParams(self)
    }

    /// Unwraps the response owed for this request; see
    /// [`StreamAssistantMessageChunkParams::response_from_any`].
    pub fn response_from_any(any: AnyAgentResult) -> (r: Result<(), Error>)
        ensures
            match any {
                AnyAgentResult::SendUserMessageResponse(_) => r == Ok::<_, Error>(()),
                _ => (r matches Err(e) && e.code == ErrorCode::InternalError && (e.details
                    matches Some(d) && d@ == "Unexpected Response"@)),
            },
    {
        match any {
            AnyAgentResult::SendUserMessageResponse(_) => Ok(()),
            _ => Err(
                ErrorCode::InternalError.into_error_with_details("Unexpected Response".to_owned()),
            ),
        }
    }
}

impl CancelSendMessageParams {
    /// Wraps this request in its one envelope variant.
    pub fn into_any(self) -> (r: AnyAgentRequest)
        ensures
            r == AnyAgentRequest::CancelSendMessageParams(self),
    {
        AnyAgentRequest::CancelSendMessageParams(self)
    }

    /// Unwraps the response owed for this request; see
    /// [`StreamAssistantMessageChunkParams::response_from_any`].
    pub fn response_from_any(any: AnyAgentResult) -> (r: Result<(), Error>)
        ensures
            match any {
                AnyAgentResult::CancelSendMessageResponse(_) => r == Ok::<_, Error>(()),
                _ => (r matches Err(e) && e.code == ErrorCode::InternalError && (e.details
                    matches Some(d) && d@ == "Unexpected Response"@)),
            },
    {
        match any {
            AnyAgentResult::CancelSendMessageResponse(_) => Ok(()),
            _ => Err(
                ErrorCode::InternalError.into_error_with_details("Unexpected Response".to_owned()),
            ),
        }
    }
}

// ---------------------------------------------------------------------------
// Laws of the codec and the registry.
// ---------------------------------------------------------------------------

/// The lengths of the wire method strings, so that distinct methods are
/// provably distinct.
proof fn lemma_method_facts()
    ensures
        "streamAssistantMessageChunk"@.len() == 27,
        "requestToolCallConfirmation"@.len() == 27 && "requestToolCallConfirmation"@[0] == 'r'
            && "streamAssistantMessageChunk"@[0] == 's',
        "pushToolCall"@.len() == 12 && "pushToolCall"@[0] == 'p',
        "updateToolCall"@.len() == 14,
        "initialize"@.len() == 10,
        "authenticate"@.len() == 12 && "authenticate"@[0] == 'a',
        "sendUserMessage"@.len() == 15,
        "cancelSendMessage"@.len() == 17,
{
    reveal_strlit("streamAssistantMessageChunk");
    reveal_strlit("requestToolCallConfirmation");
    reveal_strlit("pushToolCall");
    reveal_strlit("updateToolCall");
    reveal_strlit("initialize");
    reveal_strlit("authenticate");
    reveal_strlit("sendUserMessage");
    reveal_strlit("cancelSendMessage");
}

/// Round-trip fidelity for client requests: serializing any request
/// envelope's payload and decoding it under the envelope's own method yields
/// the same envelope.
pub proof fn lemma_client_request_round_trip(v: AnyClientRequestV)
    ensures
        dec_any_client_request(client_request_method(v), enc_client_request_payload(v)) == Ok::<
            _,
            ErrorCode,
        >(v),
{
    lemma_method_facts();
    match v {
        AnyClientRequestV::StreamAssistantMessageChunkParams(p) => lemma_stream_params_round_trip(
            p,
        ),
        AnyClientRequestV::RequestToolCallConfirmationParams(p) =>
            lemma_request_confirmation_params_round_trip(p),
        AnyClientRequestV::PushToolCallParams(p) => lemma_push_params_round_trip(p),
        AnyClientRequestV::UpdateToolCallParams(p) => lemma_update_params_round_trip(p),
    }
}

/// Round-trip fidelity for agent requests.
pub proof fn lemma_agent_request_round_trip(v: AnyAgentRequestV)
    ensures
        dec_any_agent_request(agent_request_method(v), enc_agent_request_payload(v)) == Ok::<
            _,
            ErrorCode,
        >(v),
{
    lemma_method_facts();
    match v {
        AnyAgentRequestV::SendUserMessageParams(p) => lemma_send_user_message_params_round_trip(p),
        _ => {},
    }
}

/// Round-trip fidelity for client responses, keyed by the request's method.
pub proof fn lemma_client_result_round_trip(v: AnyClientResult)
    ensures
        dec_any_client_result(client_result_method(v), enc_client_result_payload(v)) == Ok::<
            _,
            ErrorCode,
        >(v),
{
    lemma_method_facts();
    match v {
        AnyClientResult::RequestToolCallConfirmationResponse(p) =>
            lemma_request_confirmation_response_round_trip(p),
        AnyClientResult::PushToolCallResponse(p) => lemma_push_response_round_trip(p),
        _ => {},
    }
}

/// Round-trip fidelity for agent responses, keyed by the request's method.
pub proof fn lemma_agent_result_round_trip(v: AnyAgentResult)
    ensures
        dec_any_agent_result(agent_result_method(v), enc_agent_result_payload(v)) == Ok::<
            _,
            ErrorCode,
        >(v),
{
    lemma_method_facts();
    match v {
        AnyAgentResult::InitializeResponse(p) => lemma_initialize_response_round_trip(p),
        _ => {},
    }
}

/// An unknown method string always decodes to `MethodNotFound`, whatever the
/// payload, for requests and responses of both roles.
pub proof fn lemma_unknown_method(method: Seq<char>, payload: JsonV)
    requires
        !spec_client_methods().contains(method),
        !spec_agent_methods().contains(method),
    ensures
        dec_any_client_request(method, payload) == Err::<AnyClientRequestV, _>(
            ErrorCode::MethodNotFound,
        ),
        dec_any_client_result(method, payload) == Err::<AnyClientResult, _>(
            ErrorCode::MethodNotFound,
        ),
        dec_any_agent_request(method, payload) == Err::<AnyAgentRequestV, _>(
            ErrorCode::MethodNotFound,
        ),
        dec_any_agent_result(method, payload) == Err::<AnyAgentResult, _>(
            ErrorCode::MethodNotFound,
        ),
{
    let cm = spec_client_methods();
    let am = spec_agent_methods();
    assert(cm[0] == "streamAssistantMessageChunk"@);
    assert(cm[1] == "requestToolCallConfirmation"@);
    assert(cm[2] == "pushToolCall"@);
    assert(cm[3] == "updateToolCall"@);
    assert(am[0] == "initialize"@);
    assert(am[1] == "authenticate"@);
    assert(am[2] == "sendUserMessage"@);
    assert(am[3] == "cancelSendMessage"@);
}

/// A known method never decodes to `MethodNotFound`: the registry's method
/// set and the decoder's agree exactly. The only failure a known method can
/// produce is `ParseError`, for a payload that does not match its declared
/// request type.
pub proof fn lemma_known_client_method(method: Seq<char>, payload: JsonV)
    requires
        spec_client_methods().contains(method),
    ensures
        dec_any_client_request(method, payload) != Err::<AnyClientRequestV, _>(
            ErrorCode::MethodNotFound,
        ),
        dec_any_client_request(method, payload) matches Err(c) ==> c == ErrorCode::ParseError,
{
    let cm = spec_client_methods();
    let i = choose|i: int| 0 <= i < cm.len() && cm[i] == method;
    assert(cm[0] == "streamAssistantMessageChunk"@);
    assert(cm[1] == "requestToolCallConfirmation"@);
    assert(cm[2] == "pushToolCall"@);
    assert(cm[3] == "updateToolCall"@);
}

/// As [`lemma_known_client_method`], for the agent role.
pub proof fn lemma_known_agent_method(method: Seq<char>, payload: JsonV)
    requires
        spec_agent_methods().contains(method),
    ensures
        dec_any_agent_request(method, payload) != Err::<AnyAgentRequestV, _>(
            ErrorCode::MethodNotFound,
        ),
        dec_any_agent_request(method, payload) matches Err(c) ==> c == ErrorCode::ParseError,
{
    let am = spec_agent_methods();
    let i = choose|i: int| 0 <= i < am.len() && am[i] == method;
    assert(am[0] == "initialize"@);
    assert(am[1] == "authenticate"@);
    assert(am[2] == "sendUserMessage"@);
    assert(am[3] == "cancelSendMessage"@);
}

/// A payload-less entry ignores its raw payload entirely: the two decoders
/// give the same answer for any two payloads.
pub proof fn lemma_payloadless_ignores_payload(method: Seq<char>, p1: JsonV, p2: JsonV)
    requires
        method == "initialize"@ || method == "authenticate"@ || method == "cancelSendMessage"@,
    ensures
        dec_any_agent_request(method, p1) == dec_any_agent_request(method, p2),
{
    lemma_method_facts();
}

} // verus!
