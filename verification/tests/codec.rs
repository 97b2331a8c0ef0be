//! Tests of the envelope codec: round trips, unknown methods, and parse
//! failures.

use agentic_coding_protocol::error::ErrorCode;
use agentic_coding_protocol::json::Json;
use agentic_coding_protocol::rpc::{AnyAgentRequest, AnyAgentResult, AnyClientRequest, AnyClientResult};
use agentic_coding_protocol::schema::{
    AssistantMessageChunk, Icon, PushToolCallParams, StreamAssistantMessageChunkParams,
    ToolCallConfirmation, ToolCallContent, ToolCallId, ToolCallStatus, UpdateToolCallParams,
    UserMessage, UserMessageChunk,
};

fn obj(fields: Vec<(&str, Json)>) -> Json {
    Json::Obj(fields.into_iter().map(|(k, v)| (k.to_string(), v)).collect())
}

fn s(text: &str) -> Json {
    Json::Str(text.to_string())
}

#[test]
fn push_tool_call_round_trip() {
    let params = PushToolCallParams {
        label: "test".to_string(),
        icon: Icon::FileSearch,
        content: None,
    };
    let wire = params.to_json();
    let decoded = AnyClientRequest::from_method_and_params("pushToolCall", &wire).unwrap();
    match decoded {
        AnyClientRequest::PushToolCallParams(p) => {
            assert_eq!(p.label, "test");
            assert_eq!(p.icon, Icon::FileSearch);
            assert!(p.content.is_none());
        }
        _ => panic!("decoded into the wrong variant"),
    }
}

#[test]
fn every_client_method_round_trips() {
    let requests = vec![
        AnyClientRequest::StreamAssistantMessageChunkParams(StreamAssistantMessageChunkParams {
            chunk: AssistantMessageChunk::Thought { chunk: "hm".to_string() },
        }),
        AnyClientRequest::RequestToolCallConfirmationParams(
            agentic_coding_protocol::schema::RequestToolCallConfirmationParams {
                label: "run".to_string(),
                icon: Icon::Terminal,
                confirmation: ToolCallConfirmation::Execute {
                    command: "make test".to_string(),
                    root_command: "make".to_string(),
                    description: Some("build".to_string()),
                },
                content: Some(ToolCallContent::Markdown { markdown: "hi".to_string() }),
            },
        ),
        AnyClientRequest::PushToolCallParams(PushToolCallParams {
            label: "read".to_string(),
            icon: Icon::Folder,
            content: None,
        }),
        AnyClientRequest::UpdateToolCallParams(UpdateToolCallParams {
            tool_call_id: ToolCallId(9),
            status: ToolCallStatus::Finished,
            content: None,
        }),
    ];
    for req in requests {
        let method = req.method_name();
        let wire = req.params_to_json();
        let decoded = AnyClientRequest::from_method_and_params(method, &wire).unwrap();
        assert_eq!(decoded, req);
    }
}

#[test]
fn every_agent_method_round_trips() {
    let requests = vec![
        AnyAgentRequest::InitializeParams(agentic_coding_protocol::schema::InitializeParams),
        AnyAgentRequest::AuthenticateParams(agentic_coding_protocol::schema::AuthenticateParams),
        AnyAgentRequest::SendUserMessageParams(
            agentic_coding_protocol::schema::SendUserMessageParams {
                message: UserMessage {
                    chunks: vec![
                        UserMessageChunk::Text { chunk: "hello".to_string() },
                        UserMessageChunk::Path { path: "src/lib.rs".to_string() },
                    ],
                },
            },
        ),
        AnyAgentRequest::CancelSendMessageParams(
            agentic_coding_protocol::schema::CancelSendMessageParams,
        ),
    ];
    for req in requests {
        let method = req.method_name();
        let wire = req.params_to_json();
        let decoded = AnyAgentRequest::from_method_and_params(method, &wire).unwrap();
        assert_eq!(decoded, req);
    }
}

#[test]
fn unknown_method_fails_with_method_not_found() {
    let empty = obj(vec![]);
    for method in ["unknown", "", "pushtoolcall", "session/unknown", "initialize2"] {
        let err = AnyClientRequest::from_method_and_params(method, &empty).unwrap_err();
        assert_eq!(err.code, ErrorCode::MethodNotFound);
        let err = AnyAgentRequest::from_method_and_params(method, &empty).unwrap_err();
        assert_eq!(err.code, ErrorCode::MethodNotFound);
        let err = AnyClientRequest::response_from_method_and_result(method, &empty).unwrap_err();
        assert_eq!(err.code, ErrorCode::MethodNotFound);
        let err = AnyAgentRequest::response_from_method_and_result(method, &empty).unwrap_err();
        assert_eq!(err.code, ErrorCode::MethodNotFound);
    }
}

#[test]
fn invalid_payload_fails_with_parse_error_and_detail() {
    // A push needs at least a label and an icon.
    let err = AnyClientRequest::from_method_and_params("pushToolCall", &obj(vec![])).unwrap_err();
    assert_eq!(err.code, ErrorCode::ParseError);
    assert!(!err.details.unwrap().is_empty());

    // A payload of the wrong shape entirely.
    let err = AnyClientRequest::from_method_and_params("pushToolCall", &Json::Int(3)).unwrap_err();
    assert_eq!(err.code, ErrorCode::ParseError);
    assert!(!err.details.unwrap().is_empty());

    // A label of the wrong type.
    let bad = obj(vec![("label", Json::Int(1)), ("icon", s("folder"))]);
    let err = AnyClientRequest::from_method_and_params("pushToolCall", &bad).unwrap_err();
    assert_eq!(err.code, ErrorCode::ParseError);
    assert!(!err.details.unwrap().is_empty());
}

#[test]
fn payloadless_entries_ignore_the_raw_payload() {
    // Initialize declares no request payload: even a junk payload decodes.
    let junk = Json::Int(42);
    let decoded = AnyAgentRequest::from_method_and_params("initialize", &junk).unwrap();
    assert!(matches!(decoded, AnyAgentRequest::InitializeParams(_)));

    // The empty object that payload-less types serialize as is accepted too.
    let decoded = AnyAgentRequest::from_method_and_params("authenticate", &obj(vec![])).unwrap();
    assert!(matches!(decoded, AnyAgentRequest::AuthenticateParams(_)));
}

#[test]
fn payloadless_request_serializes_as_empty_object() {
    let req = AnyAgentRequest::InitializeParams(agentic_coding_protocol::schema::InitializeParams);
    match req.params_to_json() {
        Json::Obj(fields) => assert!(fields.is_empty()),
        _ => panic!("payload-less request must serialize as an object"),
    }
}

#[test]
fn decoders_ignore_unknown_fields() {
    let wire = obj(vec![
        ("label", s("test")),
        ("icon", s("globe")),
        ("futureField", Json::Bool(true)),
    ]);
    let decoded = AnyClientRequest::from_method_and_params("pushToolCall", &wire).unwrap();
    match decoded {
        AnyClientRequest::PushToolCallParams(p) => assert_eq!(p.icon, Icon::Globe),
        _ => panic!("decoded into the wrong variant"),
    }
}

#[test]
fn response_decoding_follows_the_registry() {
    // The push response carries a payload.
    let wire = obj(vec![("id", Json::Int(7))]);
    let decoded = AnyClientRequest::response_from_method_and_result("pushToolCall", &wire).unwrap();
    assert_eq!(
        decoded,
        AnyClientResult::PushToolCallResponse(
            agentic_coding_protocol::schema::PushToolCallResponse { id: ToolCallId(7) }
        )
    );

    // The update response does not; its raw result is ignored.
    let decoded =
        AnyClientRequest::response_from_method_and_result("updateToolCall", &Json::Null).unwrap();
    assert!(matches!(decoded, AnyClientResult::UpdateToolCallResponse(_)));

    // The initialize response carries a payload.
    let wire = obj(vec![("isAuthenticated", Json::Bool(true))]);
    let decoded = AnyAgentRequest::response_from_method_and_result("initialize", &wire).unwrap();
    match decoded {
        AnyAgentResult::InitializeResponse(r) => assert!(r.is_authenticated),
        _ => panic!("decoded into the wrong variant"),
    }
}

#[test]
fn update_tool_call_content_is_nullable() {
    let params = UpdateToolCallParams {
        tool_call_id: ToolCallId(1),
        status: ToolCallStatus::Running,
        content: None,
    };
    // Absent content is emitted as an explicit null.
    match params.to_json() {
        Json::Obj(fields) => {
            let content = fields.iter().find(|(k, _)| k == "content").expect("content field");
            assert!(matches!(content.1, Json::Null));
        }
        _ => panic!("update params must serialize as an object"),
    }
    // Both null and absence decode back to no content.
    let wire = obj(vec![
        ("toolCallId", Json::Int(1)),
        ("status", s("running")),
        ("content", Json::Null),
    ]);
    let decoded = UpdateToolCallParams::from_json(&wire).unwrap();
    assert!(decoded.content.is_none());
    let wire = obj(vec![("toolCallId", Json::Int(1)), ("status", s("running"))]);
    let decoded = UpdateToolCallParams::from_json(&wire).unwrap();
    assert!(decoded.content.is_none());
}

#[test]
fn diff_old_text_is_nullable() {
    let content = ToolCallContent::Diff {
        diff: agentic_coding_protocol::schema::Diff {
            path: "src/main.rs".to_string(),
            old_text: None,
            new_text: "fn main() {}".to_string(),
        },
    };
    let wire = content.to_json();
    match &wire {
        Json::Obj(fields) => {
            let old = fields.iter().find(|(k, _)| k == "oldText").expect("oldText field");
            assert!(matches!(old.1, Json::Null));
        }
        _ => panic!("diff content must serialize as an object"),
    }
    let decoded = ToolCallContent::from_json(&wire).unwrap();
    assert_eq!(decoded, content);
}

#[test]
fn first_binding_of_a_duplicated_key_wins() {
    let wire = obj(vec![("label", s("first")), ("label", s("second")), ("icon", s("regex"))]);
    let decoded = agentic_coding_protocol::schema::PushToolCallParams::from_json(&wire).unwrap();
    assert_eq!(decoded.label, "first");
}

#[test]
fn method_names_match_the_registry_tables() {
    let client = agentic_coding_protocol::rpc::client_methods();
    assert_eq!(client.len(), 4);
    assert_eq!(client[0].name, "streamAssistantMessageChunk");
    assert_eq!(client[1].name, "requestToolCallConfirmation");
    assert_eq!(client[2].name, "pushToolCall");
    assert_eq!(client[3].name, "updateToolCall");
    assert!(client.iter().all(|m| m.param_payload));
    assert!(!client[0].response_payload);
    assert!(client[1].response_payload);
    assert!(client[2].response_payload);
    assert!(!client[3].response_payload);
    assert_eq!(client[2].request_type, "PushToolCallParams");
    assert_eq!(client[2].response_type, "PushToolCallResponse");

    let agent = agentic_coding_protocol::rpc::agent_methods();
    assert_eq!(agent.len(), 4);
    assert_eq!(agent[0].name, "initialize");
    assert_eq!(agent[1].name, "authenticate");
    assert_eq!(agent[2].name, "sendUserMessage");
    assert_eq!(agent[3].name, "cancelSendMessage");
    assert!(agent[0].response_payload);
    assert!(!agent[1].param_payload);
    assert!(agent[2].param_payload);

    // The decoder recognizes exactly the registered names.
    for m in client {
        let r = AnyClientRequest::from_method_and_params(m.name, &obj(vec![]));
        if let Err(e) = r {
            assert_ne!(e.code, ErrorCode::MethodNotFound);
        }
    }
}

#[test]
fn error_codes_carry_their_numeric_values() {
    assert_eq!(ErrorCode::ParseError.number(), -32700);
    assert_eq!(ErrorCode::InvalidRequest.number(), -32600);
    assert_eq!(ErrorCode::MethodNotFound.number(), -32601);
    assert_eq!(ErrorCode::InternalError.number(), -32603);
}

#[test]
fn fetch_confirmation_round_trips_with_urls() {
    let params = agentic_coding_protocol::schema::RequestToolCallConfirmationParams {
        label: "fetch docs".to_string(),
        icon: Icon::Globe,
        confirmation: ToolCallConfirmation::Fetch {
            urls: vec!["https://example.com".to_string(), "https://example.org".to_string()],
            description: None,
        },
        content: None,
    };
    let wire = params.to_json();
    let decoded =
        agentic_coding_protocol::schema::RequestToolCallConfirmationParams::from_json(&wire)
            .unwrap();
    assert_eq!(decoded, params);
}
