//! Tests of the newer-generation wire forms: tool-call records and updates,
//! session notifications, and the permission request.

use agentic_coding_protocol::client::{
    Plan, PlanEntry, PlanEntryPriority, PlanEntryStatus, RequestPermissionRequest,
    SessionId, SessionNotification, SessionUpdate, ToolCallRef,
};
use agentic_coding_protocol::content::{ContentBlock, TextContent};
use agentic_coding_protocol::json::Json;
use agentic_coding_protocol::tool_call::{
    Diff, ToolCall, ToolCallContent, ToolCallId, ToolCallLocation, ToolCallStatus,
    ToolCallUpdate, ToolCallUpdateFields, ToolKind,
};

fn obj(fields: Vec<(&str, Json)>) -> Json {
    Json::Obj(fields.into_iter().map(|(k, v)| (k.to_string(), v)).collect())
}

fn s(text: &str) -> Json {
    Json::Str(text.to_string())
}

fn sample_tool_call() -> ToolCall {
    ToolCall {
        id: ToolCallId("call-1".to_string()),
        title: "Edit main.rs".to_string(),
        kind: ToolKind::Edit,
        status: ToolCallStatus::InProgress,
        content: vec![
            ToolCallContent::Content {
                content: ContentBlock::Text(TextContent {
                    annotations: None,
                    text: "editing".to_string(),
                }),
            },
            ToolCallContent::Diff {
                diff: Diff {
                    path: "src/main.rs".to_string(),
                    old_text: Some("let x = 1;".to_string()),
                    new_text: "let x = 2;".to_string(),
                },
            },
        ],
        locations: vec![ToolCallLocation { path: "src/main.rs".to_string(), line: Some(3) }],
        raw_input: Some(Json::Int(9)),
        raw_output: None,
    }
}

fn assert_tool_calls_equal(a: &ToolCall, b: &ToolCall) {
    assert_eq!(a.id, b.id);
    assert_eq!(a.title, b.title);
    assert_eq!(a.kind, b.kind);
    assert_eq!(a.status, b.status);
    assert_eq!(a.content, b.content);
    assert_eq!(a.locations, b.locations);
    assert!(matches!(
        (&a.raw_input, &b.raw_input),
        (Some(Json::Int(x)), Some(Json::Int(y))) if x == y
    ) || (a.raw_input.is_none() && b.raw_input.is_none()));
    assert!(a.raw_output.is_none() == b.raw_output.is_none());
}

#[test]
fn tool_call_record_round_trips() {
    let record = sample_tool_call();
    let decoded = ToolCall::from_json(&record.to_json()).unwrap();
    assert_tool_calls_equal(&decoded, &record);
}

#[test]
fn tool_call_defaults_are_omitted_and_restored() {
    let record = ToolCall {
        id: ToolCallId("call-2".to_string()),
        title: "Look around".to_string(),
        kind: ToolKind::Other,
        status: ToolCallStatus::Pending,
        content: vec![],
        locations: vec![],
        raw_input: None,
        raw_output: None,
    };
    match record.to_json() {
        Json::Obj(fields) => {
            for key in ["kind", "status", "content", "locations", "rawInput", "rawOutput"] {
                assert!(fields.iter().all(|(k, _)| k != key), "{key} must be omitted");
            }
        }
        _ => panic!("a record must serialize as an object"),
    }
    // A minimal wire object decodes with every default filled in.
    let wire = obj(vec![("toolCallId", s("call-2")), ("title", s("Look around"))]);
    let decoded = ToolCall::from_json(&wire).unwrap();
    assert_eq!(decoded.kind, ToolKind::Other);
    assert_eq!(decoded.status, ToolCallStatus::Pending);
    assert!(decoded.content.is_empty());
    assert!(decoded.locations.is_empty());
    assert!(decoded.raw_input.is_none());
}

#[test]
fn tool_call_update_round_trips() {
    let update = ToolCallUpdate {
        id: ToolCallId("call-1".to_string()),
        fields: ToolCallUpdateFields {
            status: Some(ToolCallStatus::Completed),
            title: Some("Edited main.rs".to_string()),
            ..Default::default()
        },
    };
    let decoded = ToolCallUpdate::from_json(&update.to_json()).unwrap();
    assert_eq!(decoded.id, update.id);
    assert_eq!(decoded.fields.status, Some(ToolCallStatus::Completed));
    assert_eq!(decoded.fields.title, Some("Edited main.rs".to_string()));
    assert!(decoded.fields.kind.is_none());
    assert!(decoded.fields.content.is_none());
    assert!(decoded.fields.locations.is_none());
    assert!(decoded.fields.raw_input.is_none());
}

#[test]
fn session_notification_round_trips() {
    let notification = SessionNotification {
        session_id: SessionId("sess-1".to_string()),
        update: SessionUpdate::Plan(Plan {
            entries: vec![PlanEntry {
                content: "Fix the bug".to_string(),
                priority: PlanEntryPriority::High,
                status: PlanEntryStatus::InProgress,
            }],
        }),
    };
    let decoded = SessionNotification::from_json(&notification.to_json()).unwrap();
    assert_eq!(decoded.session_id, SessionId("sess-1".to_string()));
    match decoded.update {
        SessionUpdate::Plan(p) => {
            assert_eq!(p.entries.len(), 1);
            assert_eq!(p.entries[0].content, "Fix the bug");
            assert_eq!(p.entries[0].priority, PlanEntryPriority::High);
            assert_eq!(p.entries[0].status, PlanEntryStatus::InProgress);
        }
        _ => panic!("decoded into the wrong variant"),
    }
}

#[test]
fn session_update_flattens_a_tool_call_beside_its_tag() {
    let update = SessionUpdate::ToolCall(sample_tool_call());
    let wire = update.to_json();
    match &wire {
        Json::Obj(fields) => {
            assert!(fields.iter().any(|(k, _)| k == "sessionUpdate"));
            assert!(fields.iter().any(|(k, _)| k == "toolCallId"));
            assert!(fields.iter().any(|(k, _)| k == "title"));
        }
        _ => panic!("an update must serialize as an object"),
    }
    match SessionUpdate::from_json(&wire).unwrap() {
        SessionUpdate::ToolCall(tc) => assert_tool_calls_equal(&tc, &sample_tool_call()),
        _ => panic!("decoded into the wrong variant"),
    }
}

#[test]
fn agent_message_chunk_round_trips() {
    let update = SessionUpdate::AgentMessageChunk {
        content: ContentBlock::Text(TextContent { annotations: None, text: "hi".to_string() }),
    };
    match SessionUpdate::from_json(&update.to_json()).unwrap() {
        SessionUpdate::AgentMessageChunk { content } => {
            assert_eq!(
                content,
                ContentBlock::Text(TextContent { annotations: None, text: "hi".to_string() })
            );
        }
        _ => panic!("decoded into the wrong variant"),
    }
}

#[test]
fn tool_call_reference_is_disambiguated_by_shape() {
    // A bare string is a reference by id.
    let decoded = ToolCallRef::from_json(&s("call-7")).unwrap();
    assert!(matches!(decoded, ToolCallRef::Id(ToolCallId(id)) if id == "call-7"));

    // An object is an inline record.
    let decoded = ToolCallRef::from_json(&sample_tool_call().to_json()).unwrap();
    match decoded {
        ToolCallRef::Inline(tc) => assert_tool_calls_equal(&tc, &sample_tool_call()),
        _ => panic!("an object must decode as an inline record"),
    }

    // Anything else is rejected.
    assert!(ToolCallRef::from_json(&Json::Int(3)).is_none());
}

#[test]
fn permission_request_round_trips() {
    let request = RequestPermissionRequest {
        session_id: SessionId("sess-2".to_string()),
        tool_call: ToolCallRef::Id(ToolCallId("call-9".to_string())),
        options: vec![
            agentic_coding_protocol::client::PermissionOption {
                id: agentic_coding_protocol::client::PermissionOptionId("a1".to_string()),
                name: "Allow once".to_string(),
                kind: agentic_coding_protocol::client::PermissionOptionKind::AllowOnce,
            },
        ],
    };
    let decoded = RequestPermissionRequest::from_json(&request.to_json()).unwrap();
    assert_eq!(decoded.session_id, request.session_id);
    assert_eq!(decoded.options, request.options);
    assert!(matches!(decoded.tool_call, ToolCallRef::Id(ToolCallId(id)) if id == "call-9"));
}
