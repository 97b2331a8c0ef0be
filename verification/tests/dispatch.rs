//! Tests of the role dispatcher and the typed correlation layer.

use std::cell::Cell;

use agentic_coding_protocol::error::{ErrorCode, HandlerError};
use agentic_coding_protocol::rpc::{Agent, AnyClientResult, Client};
use agentic_coding_protocol::schema::{
    AuthenticateParams, Icon, InitializeParams, InitializeResponse, PushToolCallParams,
    PushToolCallResponse, RequestToolCallConfirmationParams, RequestToolCallConfirmationResponse,
    SendUserMessageParams, StreamAssistantMessageChunkParams, ToolCallConfirmationOutcome,
    ToolCallId, UpdateToolCallParams,
};

/// A client that answers like a fixture and counts which handler methods run.
#[derive(Default)]
struct TestClient {
    stream: Cell<u32>,
    confirm: Cell<u32>,
    push: Cell<u32>,
    update: Cell<u32>,
}

impl Client for TestClient {
    fn stream_assistant_message_chunk(
        &self,
        _request: StreamAssistantMessageChunkParams,
    ) -> Result<(), HandlerError> {
        self.stream.set(self.stream.get() + 1);
        Ok(())
    }

    fn request_tool_call_confirmation(
        &self,
        _request: RequestToolCallConfirmationParams,
    ) -> Result<RequestToolCallConfirmationResponse, HandlerError> {
        self.confirm.set(self.confirm.get() + 1);
        Ok(RequestToolCallConfirmationResponse {
            id: ToolCallId(0),
            outcome: ToolCallConfirmationOutcome::Allow,
        })
    }

    fn push_tool_call(
        &self,
        _request: PushToolCallParams,
    ) -> Result<PushToolCallResponse, HandlerError> {
        self.push.set(self.push.get() + 1);
        Ok(PushToolCallResponse { id: ToolCallId(0) })
    }

    fn update_tool_call(&self, _request: UpdateToolCallParams) -> Result<(), HandlerError> {
        self.update.set(self.update.get() + 1);
        Ok(())
    }
}

/// A client whose push handler fails.
struct FailingClient;

impl Client for FailingClient {
    fn stream_assistant_message_chunk(
        &self,
        _request: StreamAssistantMessageChunkParams,
    ) -> Result<(), HandlerError> {
        Ok(())
    }

    fn request_tool_call_confirmation(
        &self,
        _request: RequestToolCallConfirmationParams,
    ) -> Result<RequestToolCallConfirmationResponse, HandlerError> {
        Err(HandlerError::new("confirmation unavailable".to_string()))
    }

    fn push_tool_call(
        &self,
        _request: PushToolCallParams,
    ) -> Result<PushToolCallResponse, HandlerError> {
        Err(HandlerError::new("database is on fire".to_string()))
    }

    fn update_tool_call(&self, _request: UpdateToolCallParams) -> Result<(), HandlerError> {
        Ok(())
    }
}

struct TestAgent;

impl Agent for TestAgent {
    fn initialize(&self) -> Result<InitializeResponse, HandlerError> {
        Ok(InitializeResponse { is_authenticated: true })
    }

    fn authenticate(&self) -> Result<(), HandlerError> {
        Ok(())
    }

    fn send_user_message(&self, _request: SendUserMessageParams) -> Result<(), HandlerError> {
        Ok(())
    }

    fn cancel_send_message(&self) -> Result<(), HandlerError> {
        Ok(())
    }
}

fn push_request() -> PushToolCallParams {
    PushToolCallParams {
        label: "test".to_string(),
        icon: Icon::FileSearch,
        content: None,
    }
}

#[test]
fn call_reaches_exactly_one_handler() {
    let client = TestClient::default();
    let response = client.call(push_request().into_any()).unwrap();
    assert_eq!(client.push.get(), 1);
    assert_eq!(client.stream.get(), 0);
    assert_eq!(client.confirm.get(), 0);
    assert_eq!(client.update.get(), 0);
    assert!(matches!(response, AnyClientResult::PushToolCallResponse(_)));

    let update = UpdateToolCallParams {
        tool_call_id: ToolCallId(0),
        status: agentic_coding_protocol::schema::ToolCallStatus::Finished,
        content: None,
    };
    let response = client.call(update.into_any()).unwrap();
    assert_eq!(client.push.get(), 1);
    assert_eq!(client.update.get(), 1);
    assert!(matches!(response, AnyClientResult::UpdateToolCallResponse(_)));
}

#[test]
fn handler_failure_becomes_internal_error_with_detail() {
    let client = FailingClient;
    let err = client.call(push_request().into_any()).unwrap_err();
    assert_eq!(err.code, ErrorCode::InternalError);
    let details = err.details.unwrap();
    assert!(details.contains("database is on fire"));

    let confirm = RequestToolCallConfirmationParams {
        label: "edit".to_string(),
        icon: Icon::Pencil,
        confirmation: agentic_coding_protocol::schema::ToolCallConfirmation::Edit {
            description: None,
        },
        content: None,
    };
    let err = client.call(confirm.into_any()).unwrap_err();
    assert_eq!(err.code, ErrorCode::InternalError);
    assert!(err.details.unwrap().contains("confirmation unavailable"));
}

#[test]
fn push_tool_call_end_to_end_typed() {
    // Issue a typed push request, dispatch it, and get the typed response
    // back through the correlation layer.
    let client = TestClient::default();
    let any_response = client.call(push_request().into_any()).unwrap();
    let response = PushToolCallParams::response_from_any(any_response).unwrap();
    assert_eq!(response.id, ToolCallId(0));

    let agent = TestAgent;
    let any_response = agent.call(InitializeParams.into_any()).unwrap();
    let response = InitializeParams::response_from_any(any_response).unwrap();
    assert!(response.is_authenticated);
}

#[test]
fn mismatched_response_envelope_is_an_internal_error() {
    let wrong = AnyClientResult::UpdateToolCallResponse(
        agentic_coding_protocol::schema::UpdateToolCallResponse,
    );
    let err = PushToolCallParams::response_from_any(wrong).unwrap_err();
    assert_eq!(err.code, ErrorCode::InternalError);
    assert_eq!(err.details.unwrap(), "Unexpected Response");
}

#[test]
fn payloadless_request_correlation() {
    let agent = TestAgent;
    let any_response = agent.call(AuthenticateParams.into_any()).unwrap();
    AuthenticateParams::response_from_any(any_response).unwrap();
}

#[test]
fn method_name_gives_the_wire_string() {
    assert_eq!(push_request().into_any().method_name(), "pushToolCall");
    assert_eq!(InitializeParams.into_any().method_name(), "initialize");
    assert_eq!(AuthenticateParams.into_any().method_name(), "authenticate");
}
