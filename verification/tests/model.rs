//! Tests of the data model: content-union round trips, tool-call update
//! merges, the permission flow, and cancellation shapes.

use agentic_coding_protocol::cancellation::{CancelRequestNotification, RequestId};
use agentic_coding_protocol::client::{
    client_method_names, outcome_references_offered_option, PermissionOption, PermissionOptionId,
    PermissionOptionKind, ReadTextFileRequest, RequestPermissionOutcome,
    RequestPermissionResponse, SessionId, WriteTextFileRequest,
};
use agentic_coding_protocol::content::{
    Annotations, ContentBlock, EmbeddedResource, EmbeddedResourceResource, ImageContent, Role,
    TextContent,
};
use agentic_coding_protocol::json::Json;
use agentic_coding_protocol::schema::UserMessageChunk;
use agentic_coding_protocol::tool_call::{
    ToolCall, ToolCallId, ToolCallStatus, ToolCallUpdateFields, ToolKind,
};

fn obj(fields: Vec<(&str, Json)>) -> Json {
    Json::Obj(fields.into_iter().map(|(k, v)| (k.to_string(), v)).collect())
}

fn s(text: &str) -> Json {
    Json::Str(text.to_string())
}

#[test]
fn text_content_block_round_trips() {
    let block = ContentBlock::Text(TextContent {
        annotations: None,
        text: "hello".to_string(),
    });
    let wire = block.to_json();
    let decoded = ContentBlock::from_json(&wire).unwrap();
    assert_eq!(decoded, block);
}

#[test]
fn image_content_block_round_trips() {
    let block = ContentBlock::Image(ImageContent {
        annotations: Some(Annotations {
            audience: Some(vec![Role::User, Role::Assistant]),
            last_modified: Some("2025-01-01T00:00:00Z".to_string()),
        }),
        data: "aGVsbG8=".to_string(),
        mime_type: "image/png".to_string(),
        uri: None,
    });
    let wire = block.to_json();
    let decoded = ContentBlock::from_json(&wire).unwrap();
    assert_eq!(decoded, block);
}

#[test]
fn text_shaped_resource_decodes_to_the_text_variant() {
    let wire = obj(vec![("text", s("fn main() {}")), ("uri", s("file:///main.rs"))]);
    let decoded = EmbeddedResourceResource::from_json(&wire).unwrap();
    match decoded {
        EmbeddedResourceResource::TextResourceContents(t) => {
            assert_eq!(t.text, "fn main() {}");
            assert_eq!(t.uri, "file:///main.rs");
            assert!(t.mime_type.is_none());
        }
        _ => panic!("a text-shaped body must decode as a text resource"),
    }
}

#[test]
fn blob_shaped_resource_decodes_to_the_blob_variant() {
    let wire = obj(vec![("blob", s("aGVsbG8=")), ("uri", s("file:///img.png"))]);
    let decoded = EmbeddedResourceResource::from_json(&wire).unwrap();
    assert!(matches!(decoded, EmbeddedResourceResource::BlobResourceContents(_)));
}

#[test]
fn ambiguous_resource_body_is_rejected() {
    let wire = obj(vec![
        ("text", s("x")),
        ("blob", s("eA==")),
        ("uri", s("file:///x")),
    ]);
    assert!(EmbeddedResourceResource::from_json(&wire).is_none());
}

#[test]
fn embedded_resource_block_round_trips() {
    let block = ContentBlock::Resource(EmbeddedResource {
        annotations: None,
        resource: EmbeddedResourceResource::TextResourceContents(
            agentic_coding_protocol::content::TextResourceContents {
                mime_type: Some("text/x-rust".to_string()),
                text: "let x = 1;".to_string(),
                uri: "file:///snippet.rs".to_string(),
            },
        ),
    });
    let wire = block.to_json();
    let decoded = ContentBlock::from_json(&wire).unwrap();
    assert_eq!(decoded, block);
}

#[test]
fn unknown_content_tag_is_rejected() {
    let wire = obj(vec![("type", s("video")), ("data", s("..."))]);
    assert!(ContentBlock::from_json(&wire).is_none());
}

#[test]
fn status_only_update_changes_only_the_status() {
    let prior = ToolCall {
        id: ToolCallId("t1".to_string()),
        title: "Build".to_string(),
        kind: ToolKind::Execute,
        status: ToolCallStatus::Pending,
        content: vec![],
        locations: vec![],
        raw_input: Some(Json::Int(7)),
        raw_output: None,
    };
    let update = ToolCallUpdateFields {
        status: Some(ToolCallStatus::InProgress),
        ..Default::default()
    };
    let merged = prior.apply_update(update);
    assert_eq!(merged.id, ToolCallId("t1".to_string()));
    assert_eq!(merged.title, "Build");
    assert_eq!(merged.kind, ToolKind::Execute);
    assert_eq!(merged.status, ToolCallStatus::InProgress);
    assert!(merged.content.is_empty());
    assert!(merged.locations.is_empty());
    assert!(matches!(merged.raw_input, Some(Json::Int(7))));
    assert!(merged.raw_output.is_none());
}

#[test]
fn present_update_fields_overwrite_wholesale() {
    let prior = ToolCall {
        id: ToolCallId("t2".to_string()),
        title: "Search".to_string(),
        kind: ToolKind::Search,
        status: ToolCallStatus::InProgress,
        content: vec![],
        locations: vec![agentic_coding_protocol::tool_call::ToolCallLocation {
            path: "a.rs".to_string(),
            line: Some(3),
        }],
        raw_input: None,
        raw_output: None,
    };
    let update = ToolCallUpdateFields {
        title: Some("Search the workspace".to_string()),
        status: Some(ToolCallStatus::Completed),
        locations: Some(vec![]),
        raw_output: Some(Json::Bool(true)),
        ..Default::default()
    };
    let merged = prior.apply_update(update);
    assert_eq!(merged.title, "Search the workspace");
    assert_eq!(merged.status, ToolCallStatus::Completed);
    // The location list is replaced, not appended to.
    assert!(merged.locations.is_empty());
    assert!(matches!(merged.raw_output, Some(Json::Bool(true))));
    assert!(merged.raw_input.is_none());
    assert_eq!(merged.kind, ToolKind::Search);
}

#[test]
fn defaults_of_the_tool_call_model() {
    assert_eq!(ToolKind::default(), ToolKind::Other);
    assert!(ToolKind::Other.is_default());
    assert!(!ToolKind::Edit.is_default());
    assert_eq!(ToolCallStatus::default(), ToolCallStatus::Pending);
    assert!(ToolCallStatus::Pending.is_default());
    assert!(!ToolCallStatus::Completed.is_default());
}

fn offered_options() -> Vec<PermissionOption> {
    vec![
        PermissionOption {
            id: PermissionOptionId("a1".to_string()),
            name: "Allow once".to_string(),
            kind: PermissionOptionKind::AllowOnce,
        },
        PermissionOption {
            id: PermissionOptionId("a2".to_string()),
            name: "Reject once".to_string(),
            kind: PermissionOptionKind::RejectOnce,
        },
    ]
}

#[test]
fn selected_offered_option_is_accepted() {
    let outcome = RequestPermissionOutcome::Selected {
        option_id: PermissionOptionId("a1".to_string()),
    };
    assert!(outcome_references_offered_option(&offered_options(), &outcome));
    assert!(outcome_references_offered_option(&offered_options(), &RequestPermissionOutcome::Cancelled));
}

#[test]
fn unknown_selected_option_is_wire_valid_but_application_invalid() {
    // The wire form of `Selected { option_id: "unknown" }` decodes without
    // complaint: the codec cannot check the offered-option invariant.
    let wire = obj(vec![(
        "outcome",
        obj(vec![("outcome", s("selected")), ("optionId", s("unknown"))]),
    )]);
    let decoded = RequestPermissionResponse::from_json(&wire).unwrap();
    assert_eq!(
        decoded.outcome,
        RequestPermissionOutcome::Selected { option_id: PermissionOptionId("unknown".to_string()) }
    );
    // The application-layer check is what rejects it.
    assert!(!outcome_references_offered_option(&offered_options(), &decoded.outcome));
}

#[test]
fn permission_response_round_trips() {
    for outcome in [
        RequestPermissionOutcome::Cancelled,
        RequestPermissionOutcome::Selected { option_id: PermissionOptionId("a2".to_string()) },
    ] {
        let response = RequestPermissionResponse { outcome: outcome.clone() };
        let wire = response.to_json();
        let decoded = RequestPermissionResponse::from_json(&wire).unwrap();
        assert_eq!(decoded.outcome, outcome);
    }
}

#[test]
fn client_method_names_are_fixed_strings() {
    let names = client_method_names();
    assert_eq!(names.session_update, "session/update");
    assert_eq!(names.session_request_permission, "session/request_permission");
    assert_eq!(names.fs_write_text_file, "fs/write_text_file");
    assert_eq!(names.fs_read_text_file, "fs/read_text_file");
}

#[test]
fn cancellation_notification_builder() {
    let n = CancelRequestNotification::new(RequestId::Int(5));
    assert_eq!(n.request_id, RequestId::Int(5));
    assert!(n.meta.is_none());
    let n = n.meta(Json::Bool(true));
    assert_eq!(n.request_id, RequestId::Int(5));
    assert!(matches!(n.meta, Some(Json::Bool(true))));
    assert_eq!(
        agentic_coding_protocol::cancellation::REQUEST_CANCEL_METHOD_NAME,
        "request/cancel"
    );
}

#[test]
fn read_request_bounds_are_omitted_not_null() {
    let req = ReadTextFileRequest {
        session_id: SessionId("sess-1".to_string()),
        path: "src/lib.rs".to_string(),
        line: None,
        limit: Some(40),
    };
    match req.to_json() {
        Json::Obj(fields) => {
            assert!(fields.iter().all(|(k, _)| k != "line"));
            let limit = fields.iter().find(|(k, _)| k == "limit").expect("limit field");
            assert!(matches!(limit.1, Json::Int(40)));
        }
        _ => panic!("read request must serialize as an object"),
    }
    // An absent bound decodes as absent; the wire never carries null here.
    let wire = obj(vec![("sessionId", s("sess-1")), ("path", s("src/lib.rs"))]);
    let decoded = ReadTextFileRequest::from_json(&wire).unwrap();
    assert!(decoded.line.is_none());
    assert!(decoded.limit.is_none());
}

#[test]
fn write_request_round_trips() {
    let req = WriteTextFileRequest {
        session_id: SessionId("sess-2".to_string()),
        path: "notes.txt".to_string(),
        content: "hello".to_string(),
    };
    let decoded = WriteTextFileRequest::from_json(&req.to_json()).unwrap();
    assert_eq!(decoded, req);
}

#[test]
fn plain_text_converts_into_content() {
    let block = ContentBlock::from("hi there".to_string());
    assert_eq!(
        block,
        ContentBlock::Text(TextContent { annotations: None, text: "hi there".to_string() })
    );
    let chunk = UserMessageChunk::from("hi there".to_string());
    assert_eq!(chunk, UserMessageChunk::Text { chunk: "hi there".to_string() });
}

#[test]
fn client_capabilities_default_to_nothing() {
    let caps = agentic_coding_protocol::client::ClientCapabilities::default();
    assert!(!caps.fs.read_text_file);
    assert!(!caps.fs.write_text_file);
}
