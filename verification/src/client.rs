//! Methods and notifications the client handles or receives: session
//! updates, the permission negotiation, and text-file access shapes.
//!
//! The permission exchange has one invariant the wire format cannot carry: a
//! `Selected` outcome must name one of the offered options. The codec
//! accepts any well-shaped outcome; [`outcome_references_offered_option`] is
//! the check responders apply.

use vstd::prelude::*;

use crate::content::ContentBlock;
use crate::json::{
    get_field, json_view, lemma_lookup_concat, lemma_lookup_opt_field, lemma_lookup_singleton,
    lookup_field, obj_views, opt_field_enc, opt_int_field, push_field, req_str_field, str_eq,
    Json, JsonV,
};
use crate::content::{dec_content_block, enc_content_block, ContentBlockV};
use crate::json::{arr_views, lemma_arr_views_index, lemma_arr_views_push};
use crate::tool_call::{
    dec_tool_call, dec_tool_call_update, enc_tool_call, enc_tool_call_fields, enc_update_fields,
    lemma_tool_call_fields_round_trip, lemma_update_fields_round_trip, ToolCall, ToolCallId,
    ToolCallUpdate, ToolCallUpdateV, ToolCallV,
};

verus! {

/// The identity of a conversation session.
#[derive(Clone, Debug, PartialEq, Eq, Hash)]
pub struct SessionId(pub String);

/// One entry of an agent's plan for a turn.
#[derive(Clone, Debug, PartialEq)]
pub struct PlanEntry {
    pub content: String,
    pub priority: PlanEntryPriority,
    pub status: PlanEntryStatus,
}

/// How urgent a plan entry is.
#[derive(Clone, Copy, Debug, PartialEq, Eq, Structural)]
pub enum PlanEntryPriority {
    High,
    Medium,
    Low,
}

/// Where a plan entry stands.
#[derive(Clone, Copy, Debug, PartialEq, Eq, Structural)]
pub enum PlanEntryStatus {
    Pending,
    InProgress,
    Completed,
}

/// An agent's current plan for the turn, replaced wholesale on update.
#[derive(Clone, Debug, PartialEq)]
pub struct Plan {
    pub entries: Vec<PlanEntry>,
}

/// A one-way notification carrying one session event. Updates to a given
/// tool call must be observed in emission order; this core assumes the
/// transport delivers them in order per connection.
#[derive(Debug)]
pub struct SessionNotification {
    pub session_id: SessionId,
    pub update: SessionUpdate,
}

/// The kinds of session event a notification can carry.
#[derive(Debug)]
pub enum SessionUpdate {
    UserMessageChunk { content: ContentBlock },
    AgentMessageChunk { content: ContentBlock },
    AgentThoughtChunk { content: ContentBlock },
    ToolCall(ToolCall),
    ToolCallUpdate(ToolCallUpdate),
    Plan(Plan),
}

// Permission negotiation.

/// Asks the client to approve or reject a tool call: the session, the tool
/// call in question (inline or by id), and the ordered options offered.
#[derive(Debug)]
pub struct RequestPermissionRequest {
    pub session_id: SessionId,
    pub tool_call: ToolCallRef,
    pub options: Vec<PermissionOption>,
}

/// A reference to the tool call needing approval: inline full record, or by
/// id. The wire form carries no tag; a decoder tells them apart by shape.
#[derive(Debug)]
pub enum ToolCallRef {
    Id(ToolCallId),
    Inline(ToolCall),
}

/// One choice offered in a permission request.
#[derive(Clone, Debug, PartialEq)]
pub struct PermissionOption {
    pub id: PermissionOptionId,
    pub name: String,
    pub kind: PermissionOptionKind,
}

/// The model of [`PermissionOption`].
pub struct PermissionOptionV {
    pub id: Seq<char>,
    pub name: Seq<char>,
    pub kind: PermissionOptionKind,
}

impl DeepView for PermissionOption {
    type V = PermissionOptionV;

    open spec fn deep_view(&self) -> PermissionOptionV {
        PermissionOptionV { id: self.id.0@, name: self.name@, kind: self.kind }
    }
}

/// The opaque identity of a permission option.
#[derive(Clone, Debug, PartialEq, Eq, Hash)]
pub struct PermissionOptionId(pub String);

/// What selecting an option means.
#[derive(Clone, Copy, Debug, PartialEq, Eq, Structural)]
pub enum PermissionOptionKind {
    AllowOnce,
    AllowAlways,
    RejectOnce,
    RejectAlways,
}

/// The client's answer to a permission request. The extra level exists
/// because the wire form must be an object.
#[derive(Clone, Debug, PartialEq)]
pub struct RequestPermissionResponse {
    pub outcome: RequestPermissionOutcome,
}

/// The outcome of a permission request: cancelled, or one option selected.
#[derive(Clone, Debug, PartialEq)]
pub enum RequestPermissionOutcome {
    Cancelled,
    Selected { option_id: PermissionOptionId },
}

/// The model of [`RequestPermissionOutcome`].
pub enum RequestPermissionOutcomeV {
    Cancelled,
    Selected { option_id: Seq<char> },
}

impl DeepView for RequestPermissionOutcome {
    type V = RequestPermissionOutcomeV;

    open spec fn deep_view(&self) -> RequestPermissionOutcomeV {
        match self {
            RequestPermissionOutcome::Cancelled => RequestPermissionOutcomeV::Cancelled,
            RequestPermissionOutcome::Selected { option_id } => RequestPermissionOutcomeV::Selected {
                option_id: option_id.0@,
            },
        }
    }
}

/// Whether an outcome honors the application-level contract of a permission
/// request: a selected option must be among those offered. Cancellation is
/// always valid.
pub open spec fn spec_outcome_references_offered_option(
    options: Seq<PermissionOptionV>,
    outcome: RequestPermissionOutcomeV,
) -> bool {
    match outcome {
        RequestPermissionOutcomeV::Cancelled => true,
        RequestPermissionOutcomeV::Selected { option_id } => exists|i: int|
            0 <= i < options.len() && options[i].id == option_id,
    }
}

/// The responder-side check of the permission contract: the wire format
/// cannot carry it, so the codec accepts outcomes this function rejects.
pub fn outcome_references_offered_option(
    options: &Vec<PermissionOption>,
    outcome: &RequestPermissionOutcome,
) -> (r: bool)
    ensures
        r == spec_outcome_references_offered_option(options.deep_view(), outcome.deep_view()),
{
    match outcome {
        RequestPermissionOutcome::Cancelled => true,
        RequestPermissionOutcome::Selected { option_id } => {
            let ghost dv = options.deep_view();
            let mut i: usize = 0;
            while i < options.len()
                invariant
                    i <= options.len(),
                    outcome.deep_view() == (RequestPermissionOutcomeV::Selected {
                        option_id: option_id.0@,
                    }),
                    dv == options.deep_view(),
                    dv.len() == options@.len(),
                    forall|k: int|
                        0 <= k < dv.len() ==> #[trigger] dv[k] == options@[k].deep_view(),
                    forall|k: int| 0 <= k < i ==> #[trigger] dv[k].id != option_id.0@,
                decreases options@.len() - i,
            {
                if str_eq(options[i].id.0.as_str(), option_id.0.as_str()) {
                    proof {
                        assert(dv[i as int].id == option_id.0@);
                    }
                    return true;
                }
                i += 1;
            }
            false
        },
    }
}

/// What a client implementation answers when the agent calls it: the
/// permission prompt, file access, and session-update sink. Implementations
/// are the host application's; the library states nothing of their behavior.
/// A failure travels back as a protocol [`Error`].
pub trait Client {
    fn request_permission(&self, args: RequestPermissionRequest) -> Result<
        RequestPermissionResponse,
        crate::error::Error,
    >;

    fn write_text_file(&self, args: WriteTextFileRequest) -> Result<(), crate::error::Error>;

    fn read_text_file(&self, args: ReadTextFileRequest) -> Result<
        ReadTextFileResponse,
        crate::error::Error,
    >;

    fn session_notification(&self, args: SessionNotification) -> Result<(), crate::error::Error>;
}

// Text-file access.

/// Asks the client to write a text file.
#[derive(Clone, Debug, PartialEq)]
pub struct WriteTextFileRequest {
    pub session_id: SessionId,
    pub path: String,
    pub content: String,
}

/// Asks the client to read a text file, optionally from a line and up to a
/// limit; both bounds are omitted on the wire when absent.
#[derive(Clone, Debug, PartialEq)]
pub struct ReadTextFileRequest {
    pub session_id: SessionId,
    pub path: String,
    pub line: Option<u32>,
    pub limit: Option<u32>,
}

/// The text a read request produced.
#[derive(Clone, Debug, PartialEq)]
pub struct ReadTextFileResponse {
    pub content: String,
}

// Capabilities.

/// Capabilities supported by the client.
#[derive(Clone, Debug, PartialEq)]
pub struct ClientCapabilities {
    /// File-system capabilities supported by the client.
    pub fs: FileSystemCapability,
}

impl Default for ClientCapabilities {
    /// By default no file-system capability is claimed.
    fn default() -> (r: ClientCapabilities)
        ensures
            !r.fs.read_text_file,
            !r.fs.write_text_file,
    {
        ClientCapabilities { fs: FileSystemCapability { read_text_file: false, write_text_file: false } }
    }
}

/// Which file-system methods the client supports.
#[derive(Clone, Copy, Debug, PartialEq, Eq, Structural)]
pub struct FileSystemCapability {
    /// Client supports `fs/read_text_file`.
    pub read_text_file: bool,
    /// Client supports `fs/write_text_file`.
    pub write_text_file: bool,
}

impl Default for FileSystemCapability {
    /// By default neither method is supported.
    fn default() -> (r: FileSystemCapability)
        ensures
            !r.read_text_file,
            !r.write_text_file,
    {
        FileSystemCapability { read_text_file: false, write_text_file: false }
    }
}

// Method names.

/// The wire method strings of the client-side methods, for transports.
#[derive(Clone, Copy, Debug)]
pub struct ClientMethodNames {
    pub session_request_permission: &'static str,
    pub session_update: &'static str,
    pub fs_write_text_file: &'static str,
    pub fs_read_text_file: &'static str,
}

/// The wire method strings of the client-side methods.
pub fn client_method_names() -> (r: ClientMethodNames)
    ensures
        r.session_update@ == "session/update"@,
        r.session_request_permission@ == "session/request_permission"@,
        r.fs_write_text_file@ == "fs/write_text_file"@,
        r.fs_read_text_file@ == "fs/read_text_file"@,
{
    ClientMethodNames {
        session_update: "session/update",
        session_request_permission: "session/request_permission",
        fs_write_text_file: "fs/write_text_file",
        fs_read_text_file: "fs/read_text_file",
    }
}

// Envelope shapes for the agent-to-client direction.

/// Requests the agent sends to the client.
#[derive(Debug)]
pub enum AgentRequest {
    WriteTextFileRequest(WriteTextFileRequest),
    ReadTextFileRequest(ReadTextFileRequest),
    RequestPermissionRequest(RequestPermissionRequest),
}

/// Responses the client sends to the agent.
#[derive(Clone, Debug, PartialEq)]
pub enum ClientResponse {
    WriteTextFileResponse,
    ReadTextFileResponse(ReadTextFileResponse),
    RequestPermissionResponse(RequestPermissionResponse),
}

/// Notifications the agent sends to the client.
#[derive(Debug)]
pub enum AgentNotification {
    SessionNotification(SessionNotification),
}

// ---------------------------------------------------------------------------
// The permission-outcome codec.
// ---------------------------------------------------------------------------

/// The tagged encoding of a permission outcome: an object whose `outcome`
/// field names the variant, with the selected option id beside it.
pub open spec fn enc_permission_outcome(o: RequestPermissionOutcomeV) -> JsonV {
    match o {
        RequestPermissionOutcomeV::Cancelled => JsonV::Obj(
            seq![("outcome"@, JsonV::Str("cancelled"@))],
        ),
        RequestPermissionOutcomeV::Selected { option_id } => JsonV::Obj(
            seq![("outcome"@, JsonV::Str("selected"@))] + seq![
                ("optionId"@, JsonV::Str(option_id)),
            ],
        ),
    }
}

pub open spec fn dec_permission_outcome(j: JsonV) -> Option<RequestPermissionOutcomeV> {
    match req_str_field(j, "outcome"@) {
        Some(tag) => if tag == "cancelled"@ {
            Some(RequestPermissionOutcomeV::Cancelled)
        } else if tag == "selected"@ {
            match req_str_field(j, "optionId"@) {
                Some(id) => Some(RequestPermissionOutcomeV::Selected { option_id: id }),
                None => None,
            }
        } else {
            None
        },
        None => None,
    }
}

/// The encoding of a permission response: the outcome under an extra level,
/// because the wire form must be an object.
pub open spec fn enc_permission_response(o: RequestPermissionOutcomeV) -> JsonV {
    JsonV::Obj(seq![("outcome"@, enc_permission_outcome(o))])
}

pub open spec fn dec_permission_response(j: JsonV) -> Option<RequestPermissionOutcomeV> {
    match get_field(j, "outcome"@) {
        Some(oj) => dec_permission_outcome(oj),
        None => None,
    }
}

impl RequestPermissionOutcome {
    /// Encodes this outcome as its tagged object.
    pub fn to_json(&self) -> (r: Json)
        ensures
            json_view(r) == enc_permission_outcome(self.deep_view()),
    {
        let mut fields: Vec<(String, Json)> = Vec::new();
        match self {
            RequestPermissionOutcome::Cancelled => {
                push_field(&mut fields, "outcome", Json::Str("cancelled".to_owned()));
                proof {
                    assert(obj_views(fields@) =~= seq![("outcome"@, JsonV::Str("cancelled"@))]);
                }
            },
            RequestPermissionOutcome::Selected { option_id } => {
                push_field(&mut fields, "outcome", Json::Str("selected".to_owned()));
                push_field(&mut fields, "optionId", Json::Str(option_id.0.clone()));
                proof {
                    assert(obj_views(fields@) =~= seq![("outcome"@, JsonV::Str("selected"@))]
                        + seq![("optionId"@, JsonV::Str(option_id.0@))]);
                }
            },
        }
        Json::Obj(fields)
    }

    /// Decodes an outcome from its tagged object. The codec checks shape
    /// only: whether a selected option was actually offered is the
    /// responder's check, not the decoder's.
    pub fn from_json(j: &Json) -> (r: Option<RequestPermissionOutcome>)
        ensures
            match r {
                Some(v) => dec_permission_outcome(j.deep_view()) == Some(v.deep_view()),
                None => dec_permission_outcome(j.deep_view()) is None,
            },
    {
        let tag = match j.get_string("outcome") {
            Some(t) => t,
            None => {
                return None;
            },
        };
        if str_eq(tag.as_str(), "cancelled") {
            Some(RequestPermissionOutcome::Cancelled)
        } else if str_eq(tag.as_str(), "selected") {
            match j.get_string("optionId") {
                Some(id) => Some(
                    RequestPermissionOutcome::Selected { option_id: PermissionOptionId(id) },
                ),
                None => None,
            }
        } else {
            None
        }
    }
}

impl RequestPermissionResponse {
    /// Encodes this response.
    pub fn to_json(&self) -> (r: Json)
        ensures
            json_view(r) == enc_permission_response(self.outcome.deep_view()),
    {
        let mut fields: Vec<(String, Json)> = Vec::new();
        let oj = self.outcome.to_json();
        push_field(&mut fields, "outcome", oj);
        proof {
            assert(obj_views(fields@) =~= seq![
                ("outcome"@, enc_permission_outcome(self.outcome.deep_view())),
            ]);
        }
        Json::Obj(fields)
    }

    /// Decodes a response, checking shape only.
    pub fn from_json(j: &Json) -> (r: Option<RequestPermissionResponse>)
        ensures
            match r {
                Some(v) => dec_permission_response(j.deep_view()) == Some(v.outcome.deep_view()),
                None => dec_permission_response(j.deep_view()) is None,
            },
    {
        match j.get("outcome") {
            Some(oj) => match RequestPermissionOutcome::from_json(oj) {
                Some(o) => Some(RequestPermissionResponse { outcome: o }),
                None => None,
            },
            None => None,
        }
    }
}

/// The lengths and distinguishing characters of this module's wire strings.
proof fn lemma_key_facts()
    ensures
        "outcome"@.len() == 7 && "outcome"@[0] == 'o',
        "cancelled"@.len() == 9 && "cancelled"@[0] == 'c',
        "selected"@.len() == 8 && "selected"@[0] == 's',
        "optionId"@.len() == 8 && "optionId"@[0] == 'o',
        "sessionId"@.len() == 9 && "sessionId"@[0] == 's',
        "path"@.len() == 4 && "path"@[0] == 'p',
        "line"@.len() == 4 && "line"@[0] == 'l',
        "limit"@.len() == 5,
        "content"@.len() == 7 && "content"@[0] == 'c',
{
    reveal_strlit("outcome");
    reveal_strlit("cancelled");
    reveal_strlit("selected");
    reveal_strlit("optionId");
    reveal_strlit("sessionId");
    reveal_strlit("path");
    reveal_strlit("line");
    reveal_strlit("limit");
    reveal_strlit("content");
}

/// Permission outcomes survive a round trip, for both variants — the codec
/// carries a `Selected` outcome faithfully whether or not its option was
/// offered.
pub proof fn lemma_permission_outcome_round_trip(o: RequestPermissionOutcomeV)
    ensures
        dec_permission_outcome(enc_permission_outcome(o)) == Some(o),
        dec_permission_response(enc_permission_response(o)) == Some(o),
{
    broadcast use lemma_lookup_concat, lemma_lookup_opt_field, lemma_lookup_singleton;

    lemma_key_facts();
}

// ---------------------------------------------------------------------------
// The text-file access codec.
// ---------------------------------------------------------------------------

/// The model of [`WriteTextFileRequest`].
pub struct WriteTextFileRequestV {
    pub session_id: Seq<char>,
    pub path: Seq<char>,
    pub content: Seq<char>,
}

impl DeepView for WriteTextFileRequest {
    type V = WriteTextFileRequestV;

    open spec fn deep_view(&self) -> WriteTextFileRequestV {
        WriteTextFileRequestV {
            session_id: self.session_id.0@,
            path: self.path@,
            content: self.content@,
        }
    }
}

/// The model of [`ReadTextFileRequest`].
pub struct ReadTextFileRequestV {
    pub session_id: Seq<char>,
    pub path: Seq<char>,
    pub line: Option<u32>,
    pub limit: Option<u32>,
}

impl DeepView for ReadTextFileRequest {
    type V = ReadTextFileRequestV;

    open spec fn deep_view(&self) -> ReadTextFileRequestV {
        ReadTextFileRequestV {
            session_id: self.session_id.0@,
            path: self.path@,
            line: self.line,
            limit: self.limit,
        }
    }
}

pub open spec fn enc_write_text_file_request(v: WriteTextFileRequestV) -> JsonV {
    JsonV::Obj(
        seq![("sessionId"@, JsonV::Str(v.session_id))] + seq![("path"@, JsonV::Str(v.path))]
            + seq![("content"@, JsonV::Str(v.content))],
    )
}

pub open spec fn dec_write_text_file_request(j: JsonV) -> Option<WriteTextFileRequestV> {
    match (req_str_field(j, "sessionId"@), req_str_field(j, "path"@), req_str_field(
        j,
        "content"@,
    )) {
        (Some(s), Some(p), Some(c)) => Some(
            WriteTextFileRequestV { session_id: s, path: p, content: c },
        ),
        _ => None,
    }
}

/// The encoding of an optional line or limit bound: a number when present,
/// omission — never null — when absent.
pub open spec fn enc_opt_u32(o: Option<u32>) -> Option<JsonV> {
    match o {
        Some(n) => Some(JsonV::Int(n as int)),
        None => None,
    }
}

/// An optional bound decodes from an absent field or a number in the
/// unsigned 32-bit range.
pub open spec fn dec_opt_u32(j: JsonV, key: Seq<char>) -> Option<Option<u32>> {
    match opt_int_field(j, key) {
        Some(None) => Some(None),
        Some(Some(i)) => if 0 <= i <= u32::MAX {
            Some(Some(i as u32))
        } else {
            None
        },
        None => None,
    }
}

pub open spec fn enc_read_text_file_request(v: ReadTextFileRequestV) -> JsonV {
    JsonV::Obj(
        seq![("sessionId"@, JsonV::Str(v.session_id))] + seq![("path"@, JsonV::Str(v.path))]
            + opt_field_enc("line"@, enc_opt_u32(v.line)) + opt_field_enc(
            "limit"@,
            enc_opt_u32(v.limit),
        ),
    )
}

pub open spec fn dec_read_text_file_request(j: JsonV) -> Option<ReadTextFileRequestV> {
    match (req_str_field(j, "sessionId"@), req_str_field(j, "path"@), dec_opt_u32(j, "line"@),
    dec_opt_u32(j, "limit"@)) {
        (Some(s), Some(p), Some(line), Some(limit)) => Some(
            ReadTextFileRequestV { session_id: s, path: p, line, limit },
        ),
        _ => None,
    }
}

pub open spec fn enc_read_text_file_response(content: Seq<char>) -> JsonV {
    JsonV::Obj(seq![("content"@, JsonV::Str(content))])
}

pub open spec fn dec_read_text_file_response(j: JsonV) -> Option<Seq<char>> {
    req_str_field(j, "content"@)
}

impl WriteTextFileRequest {
    /// Encodes this request.
    pub fn to_json(&self) -> (r: Json)
        ensures
            json_view(r) == enc_write_text_file_request(self.deep_view()),
    {
        let mut fields: Vec<(String, Json)> = Vec::new();
        push_field(&mut fields, "sessionId", Json::Str(self.session_id.0.clone()));
        push_field(&mut fields, "path", Json::Str(self.path.clone()));
        push_field(&mut fields, "content", Json::Str(self.content.clone()));
        proof {
            assert(obj_views(fields@) =~= seq![("sessionId"@, JsonV::Str(self.session_id.0@))]
                + seq![("path"@, JsonV::Str(self.path@))] + seq![
                ("content"@, JsonV::Str(self.content@)),
            ]);
        }
        Json::Obj(fields)
    }

    /// Decodes this request, ignoring unknown fields.
    pub fn from_json(j: &Json) -> (r: Option<WriteTextFileRequest>)
        ensures
            match r {
                Some(v) => dec_write_text_file_request(j.deep_view()) == Some(v.deep_view()),
                None => dec_write_text_file_request(j.deep_view()) is None,
            },
    {
        let session_id = match j.get_string("sessionId") {
            Some(s) => SessionId(s),
            None => {
                return None;
            },
        };
        let path = match j.get_string("path") {
            Some(p) => p,
            None => {
                return None;
            },
        };
        let content = match j.get_string("content") {
            Some(c) => c,
            None => {
                return None;
            },
        };
        Some(WriteTextFileRequest { session_id, path, content })
    }
}

impl ReadTextFileRequest {
    /// Encodes this request; the optional bounds are omitted when absent,
    /// never emitted as null.
    pub fn to_json(&self) -> (r: Json)
        ensures
            json_view(r) == enc_read_text_file_request(self.deep_view()),
    {
        let mut fields: Vec<(String, Json)> = Vec::new();
        push_field(&mut fields, "sessionId", Json::Str(self.session_id.0.clone()));
        push_field(&mut fields, "path", Json::Str(self.path.clone()));
        match &self.line {
            Some(n) => push_field(&mut fields, "line", Json::Int(*n as i128)),
            None => {},
        }
        match &self.limit {
            Some(n) => push_field(&mut fields, "limit", Json::Int(*n as i128)),
            None => {},
        }
        proof {
            assert(obj_views(fields@) =~= seq![("sessionId"@, JsonV::Str(self.session_id.0@))]
                + seq![("path"@, JsonV::Str(self.path@))] + opt_field_enc(
                "line"@,
                enc_opt_u32(self.line),
            ) + opt_field_enc("limit"@, enc_opt_u32(self.limit)));
        }
        Json::Obj(fields)
    }

    /// Decodes this request, accepting an absent bound and rejecting an
    /// out-of-range one.
    pub fn from_json(j: &Json) -> (r: Option<ReadTextFileRequest>)
        ensures
            match r {
                Some(v) => dec_read_text_file_request(j.deep_view()) == Some(v.deep_view()),
                None => dec_read_text_file_request(j.deep_view()) is None,
            },
    {
        let session_id = match j.get_string("sessionId") {
            Some(s) => SessionId(s),
            None => {
                return None;
            },
        };
        let path = match j.get_string("path") {
            Some(p) => p,
            None => {
                return None;
            },
        };
        let line = match j.get_opt_int("line") {
            Ok(None) => None,
            Ok(Some(i)) => {
                if i < 0 || i > u32::MAX as i128 {
                    return None;
                }
                Some(i as u32)
            },
            Err(_) => {
                return None;
            },
        };
        let limit = match j.get_opt_int("limit") {
            Ok(None) => None,
            Ok(Some(i)) => {
                if i < 0 || i > u32::MAX as i128 {
                    return None;
                }
                Some(i as u32)
            },
            Err(_) => {
                return None;
            },
        };
        Some(ReadTextFileRequest { session_id, path, line, limit })
    }
}

impl ReadTextFileResponse {
    /// Encodes this response.
    pub fn to_json(&self) -> (r: Json)
        ensures
            json_view(r) == enc_read_text_file_response(self.content@),
    {
        let mut fields: Vec<(String, Json)> = Vec::new();
        push_field(&mut fields, "content", Json::Str(self.content.clone()));
        proof {
            assert(obj_views(fields@) =~= seq![("content"@, JsonV::Str(self.content@))]);
        }
        Json::Obj(fields)
    }

    /// Decodes this response.
    pub fn from_json(j: &Json) -> (r: Option<ReadTextFileResponse>)
        ensures
            match r {
                Some(v) => dec_read_text_file_response(j.deep_view()) == Some(v.content@),
                None => dec_read_text_file_response(j.deep_view()) is None,
            },
    {
        match j.get_string("content") {
            Some(c) => Some(ReadTextFileResponse { content: c }),
            None => None,
        }
    }
}

/// Write requests survive a round trip.
pub proof fn lemma_write_text_file_round_trip(v: WriteTextFileRequestV)
    ensures
        dec_write_text_file_request(enc_write_text_file_request(v)) == Some(v),
{
    broadcast use lemma_lookup_concat, lemma_lookup_opt_field, lemma_lookup_singleton;

    lemma_key_facts();
}

/// Read requests survive a round trip, with absent bounds staying absent.
pub proof fn lemma_read_text_file_round_trip(v: ReadTextFileRequestV)
    ensures
        dec_read_text_file_request(enc_read_text_file_request(v)) == Some(v),
{
    broadcast use lemma_lookup_concat, lemma_lookup_opt_field, lemma_lookup_singleton;

    lemma_key_facts();
}

/// Read responses survive a round trip.
pub proof fn lemma_read_text_file_response_round_trip(content: Seq<char>)
    ensures
        dec_read_text_file_response(enc_read_text_file_response(content)) == Some(content),
{
    broadcast use lemma_lookup_concat, lemma_lookup_opt_field, lemma_lookup_singleton;

    lemma_key_facts();
}

// ---------------------------------------------------------------------------
// The permission-request codec.
// ---------------------------------------------------------------------------

/// The model of [`ToolCallRef`].
pub enum ToolCallRefV {
    Id(Seq<char>),
    Inline(ToolCallV),
}

impl DeepView for ToolCallRef {
    type V = ToolCallRefV;

    open spec fn deep_view(&self) -> ToolCallRefV {
        match self {
            ToolCallRef::Id(id) => ToolCallRefV::Id(id.0@),
            ToolCallRef::Inline(tc) => ToolCallRefV::Inline(tc.deep_view()),
        }
    }
}

/// The model of [`RequestPermissionRequest`].
pub struct RequestPermissionRequestV {
    pub session_id: Seq<char>,
    pub tool_call: ToolCallRefV,
    pub options: Seq<PermissionOptionV>,
}

impl DeepView for RequestPermissionRequest {
    type V = RequestPermissionRequestV;

    open spec fn deep_view(&self) -> RequestPermissionRequestV {
        RequestPermissionRequestV {
            session_id: self.session_id.0@,
            tool_call: self.tool_call.deep_view(),
            options: self.options.deep_view(),
        }
    }
}

pub open spec fn enc_permission_kind(k: PermissionOptionKind) -> JsonV {
    match k {
        PermissionOptionKind::AllowOnce => JsonV::Str("allow_once"@),
        PermissionOptionKind::AllowAlways => JsonV::Str("allow_always"@),
        PermissionOptionKind::RejectOnce => JsonV::Str("reject_once"@),
        PermissionOptionKind::RejectAlways => JsonV::Str("reject_always"@),
    }
}

pub open spec fn dec_permission_kind(j: JsonV) -> Option<PermissionOptionKind> {
    match j {
        JsonV::Str(s) => if s == "allow_once"@ {
            Some(PermissionOptionKind::AllowOnce)
        } else if s == "allow_always"@ {
            Some(PermissionOptionKind::AllowAlways)
        } else if s == "reject_once"@ {
            Some(PermissionOptionKind::RejectOnce)
        } else if s == "reject_always"@ {
            Some(PermissionOptionKind::RejectAlways)
        } else {
            None
        },
        _ => None,
    }
}

pub open spec fn enc_permission_option(v: PermissionOptionV) -> JsonV {
    JsonV::Obj(
        seq![("optionId"@, JsonV::Str(v.id))] + seq![("name"@, JsonV::Str(v.name))] + seq![
            ("kind"@, enc_permission_kind(v.kind)),
        ],
    )
}

pub open spec fn dec_permission_option(j: JsonV) -> Option<PermissionOptionV> {
    match (req_str_field(j, "optionId"@), req_str_field(j, "name"@), get_field(j, "kind"@)) {
        (Some(id), Some(name), Some(kj)) => match dec_permission_kind(kj) {
            Some(kind) => Some(PermissionOptionV { id, name, kind }),
            None => None,
        },
        _ => None,
    }
}

pub open spec fn enc_permission_options(s: Seq<PermissionOptionV>) -> Seq<JsonV> {
    s.map_values(|v: PermissionOptionV| enc_permission_option(v))
}

pub open spec fn dec_permission_options(items: Seq<JsonV>) -> Option<Seq<PermissionOptionV>>
    decreases items.len(),
{
    if items.len() == 0 {
        Some(Seq::empty())
    } else {
        match (dec_permission_options(items.drop_last()), dec_permission_option(items.last())) {
            (Some(s), Some(v)) => Some(s.push(v)),
            _ => None,
        }
    }
}

/// A tool-call reference travels untagged: a string is a reference by id,
/// an object an inline full record. A decoder tells them apart by that
/// shape alone.
pub open spec fn enc_tool_call_ref(v: ToolCallRefV) -> JsonV {
    match v {
        ToolCallRefV::Id(id) => JsonV::Str(id),
        ToolCallRefV::Inline(tc) => enc_tool_call(tc),
    }
}

pub open spec fn dec_tool_call_ref(j: JsonV) -> Option<ToolCallRefV> {
    match j {
        JsonV::Str(id) => Some(ToolCallRefV::Id(id)),
        JsonV::Obj(_) => match dec_tool_call(j) {
            Some(tc) => Some(ToolCallRefV::Inline(tc)),
            None => None,
        },
        _ => None,
    }
}

pub open spec fn enc_permission_request(v: RequestPermissionRequestV) -> JsonV {
    JsonV::Obj(
        seq![("sessionId"@, JsonV::Str(v.session_id))] + seq![
            ("toolCall"@, enc_tool_call_ref(v.tool_call)),
        ] + seq![("options"@, JsonV::Arr(enc_permission_options(v.options)))],
    )
}

pub open spec fn dec_permission_request(j: JsonV) -> Option<RequestPermissionRequestV> {
    match (req_str_field(j, "sessionId"@), get_field(j, "toolCall"@), get_field(j, "options"@)) {
        (Some(sid), Some(tj), Some(JsonV::Arr(items))) => match (dec_tool_call_ref(tj),
        dec_permission_options(items)) {
            (Some(tc), Some(opts)) => Some(
                RequestPermissionRequestV { session_id: sid, tool_call: tc, options: opts },
            ),
            _ => None,
        },
        _ => None,
    }
}

impl PermissionOption {
    /// Encodes this option.
    pub fn to_json(&self) -> (r: Json)
        ensures
            json_view(r) == enc_permission_option(self.deep_view()),
    {
        let mut fields: Vec<(String, Json)> = Vec::new();
        push_field(&mut fields, "optionId", Json::Str(self.id.0.clone()));
        push_field(&mut fields, "name", Json::Str(self.name.clone()));
        let kj = match self.kind {
            PermissionOptionKind::AllowOnce => Json::Str("allow_once".to_owned()),
            PermissionOptionKind::AllowAlways => Json::Str("allow_always".to_owned()),
            PermissionOptionKind::RejectOnce => Json::Str("reject_once".to_owned()),
            PermissionOptionKind::RejectAlways => Json::Str("reject_always".to_owned()),
        };
        push_field(&mut fields, "kind", kj);
        proof {
            assert(obj_views(fields@) =~= seq![("optionId"@, JsonV::Str(self.id.0@))] + seq![
                ("name"@, JsonV::Str(self.name@)),
            ] + seq![("kind"@, enc_permission_kind(self.kind))]);
        }
        Json::Obj(fields)
    }

    /// Decodes an option, ignoring unknown fields.
    pub fn from_json(j: &Json) -> (r: Option<PermissionOption>)
        ensures
            match r {
                Some(v) => dec_permission_option(j.deep_view()) == Some(v.deep_view()),
                None => dec_permission_option(j.deep_view()) is None,
            },
    {
        let id = match j.get_string("optionId") {
            Some(s) => PermissionOptionId(s),
            None => {
                return None;
            },
        };
        let name = match j.get_string("name") {
            Some(n) => n,
            None => {
                return None;
            },
        };
        let kind = match j.get("kind") {
            Some(Json::Str(s)) => if str_eq(s.as_str(), "allow_once") {
                PermissionOptionKind::AllowOnce
            } else if str_eq(s.as_str(), "allow_always") {
                PermissionOptionKind::AllowAlways
            } else if str_eq(s.as_str(), "reject_once") {
                PermissionOptionKind::RejectOnce
            } else if str_eq(s.as_str(), "reject_always") {
                PermissionOptionKind::RejectAlways
            } else {
                return None;
            },
            _ => {
                return None;
            },
        };
        Some(PermissionOption { id, name, kind })
    }
}

/// If any element fails to decode as an option, the list fails.
proof fn lemma_dec_options_fail(items: Seq<JsonV>, i: int)
    requires
        0 <= i < items.len(),
        dec_permission_option(items[i]) is None,
    ensures
        dec_permission_options(items) is None,
    decreases items.len(),
{
    if items.len() > 0 && i < items.len() - 1 {
        assert(items.drop_last()[i] == items[i]);
        lemma_dec_options_fail(items.drop_last(), i);
    }
}

fn options_to_json(options: &Vec<PermissionOption>) -> (r: Vec<Json>)
    ensures
        arr_views(r@) == enc_permission_options(options.deep_view()),
{
    let ghost dv = options.deep_view();
    let mut out: Vec<Json> = Vec::new();
    proof {
        assert(arr_views(out@) =~= enc_permission_options(dv.take(0)));
    }
    let mut i: usize = 0;
    while i < options.len()
        invariant
            i <= options.len(),
            dv == options.deep_view(),
            dv.len() == options@.len(),
            forall|k: int| 0 <= k < dv.len() ==> #[trigger] dv[k] == options@[k].deep_view(),
            arr_views(out@) == enc_permission_options(dv.take(i as int)),
        decreases options@.len() - i,
    {
        let oj = options[i].to_json();
        proof {
            lemma_arr_views_push(out@, oj);
            assert(enc_permission_options(dv.take(i as int)).push(enc_permission_option(
                dv[i as int],
            )) =~= enc_permission_options(dv.take(i as int + 1)));
        }
        out.push(oj);
        i += 1;
    }
    proof {
        assert(dv.take(dv.len() as int) =~= dv);
    }
    out
}

fn options_from_json(items: &Vec<Json>) -> (r: Option<Vec<PermissionOption>>)
    ensures
        match r {
            Some(v) => dec_permission_options(arr_views(items@)) == Some(v.deep_view()),
            None => dec_permission_options(arr_views(items@)) is None,
        },
{
    let ghost views = arr_views(items@);
    proof {
        lemma_arr_views_index(items@);
    }
    let mut out: Vec<PermissionOption> = Vec::new();
    proof {
        assert(views.take(0) =~= Seq::<JsonV>::empty());
        assert(out.deep_view() =~= Seq::<PermissionOptionV>::empty());
    }
    let mut i: usize = 0;
    while i < items.len()
        invariant
            i <= items.len(),
            views == arr_views(items@),
            views.len() == items@.len(),
            forall|k: int| 0 <= k < views.len() ==> #[trigger] views[k] == json_view(items@[k]),
            dec_permission_options(views.take(i as int)) == Some(out.deep_view()),
        decreases items@.len() - i,
    {
        match PermissionOption::from_json(&items[i]) {
            Some(v) => {
                let ghost prev = out.deep_view();
                proof {
                    assert(views.take(i as int + 1).drop_last() =~= views.take(i as int));
                    assert(views.take(i as int + 1).last() == views[i as int]);
                }
                out.push(v);
                proof {
                    assert(out.deep_view() =~= prev.push(v.deep_view()));
                }
            },
            None => {
                proof {
                    lemma_dec_options_fail(views, i as int);
                }
                return None;
            },
        }
        i += 1;
    }
    proof {
        assert(views.take(views.len() as int) =~= views);
    }
    Some(out)
}

impl ToolCallRef {
    /// Encodes this reference untagged: a bare string for a reference by
    /// id, the full record object for an inline one.
    pub fn to_json(&self) -> (r: Json)
        ensures
            json_view(r) == enc_tool_call_ref(self.deep_view()),
    {
        match self {
            ToolCallRef::Id(id) => Json::Str(id.0.clone()),
            ToolCallRef::Inline(tc) => tc.to_json(),
        }
    }

    /// Decodes a reference by shape: a string is an id, an object an inline
    /// record, anything else is rejected.
    pub fn from_json(j: &Json) -> (r: Option<ToolCallRef>)
        ensures
            match r {
                Some(v) => dec_tool_call_ref(j.deep_view()) == Some(v.deep_view()),
                None => dec_tool_call_ref(j.deep_view()) is None,
            },
    {
        match j {
            Json::Str(s) => Some(ToolCallRef::Id(ToolCallId(s.clone()))),
            Json::Obj(_) => match ToolCall::from_json(j) {
                Some(tc) => Some(ToolCallRef::Inline(tc)),
                None => None,
            },
            _ => None,
        }
    }
}

impl RequestPermissionRequest {
    /// Encodes this request.
    pub fn to_json(&self) -> (r: Json)
        ensures
            json_view(r) == enc_permission_request(self.deep_view()),
    {
        let mut fields: Vec<(String, Json)> = Vec::new();
        push_field(&mut fields, "sessionId", Json::Str(self.session_id.0.clone()));
        let tj = self.tool_call.to_json();
        push_field(&mut fields, "toolCall", tj);
        let oj = options_to_json(&self.options);
        push_field(&mut fields, "options", Json::Arr(oj));
        proof {
            assert(obj_views(fields@) =~= seq![("sessionId"@, JsonV::Str(self.session_id.0@))]
                + seq![("toolCall"@, enc_tool_call_ref(self.tool_call.deep_view()))] + seq![
                ("options"@, JsonV::Arr(enc_permission_options(self.options.deep_view()))),
            ]);
        }
        Json::Obj(fields)
    }

    /// Decodes this request, ignoring unknown fields.
    pub fn from_json(j: &Json) -> (r: Option<RequestPermissionRequest>)
        ensures
            match r {
                Some(v) => dec_permission_request(j.deep_view()) == Some(v.deep_view()),
                None => dec_permission_request(j.deep_view()) is None,
            },
    {
        let session_id = match j.get_string("sessionId") {
            Some(s) => SessionId(s),
            None => {
                return None;
            },
        };
        let tool_call = match j.get("toolCall") {
            Some(tj) => match ToolCallRef::from_json(tj) {
                Some(tc) => tc,
                None => {
                    return None;
                },
            },
            None => {
                return None;
            },
        };
        let options = match j.get("options") {
            Some(Json::Arr(items)) => match options_from_json(items) {
                Some(o) => o,
                None => {
                    return None;
                },
            },
            _ => {
                return None;
            },
        };
        Some(RequestPermissionRequest { session_id, tool_call, options })
    }
}

/// The lengths and distinguishing characters of the permission-request
/// keys and kind strings.
proof fn lemma_permission_key_facts()
    ensures
        "optionId"@.len() == 8 && "optionId"@[0] == 'o',
        "name"@.len() == 4 && "name"@[0] == 'n',
        "kind"@.len() == 4 && "kind"@[0] == 'k',
        "toolCall"@.len() == 8 && "toolCall"@[0] == 't',
        "options"@.len() == 7 && "options"@[1] == 'p',
        "outcome"@.len() == 7 && "outcome"@[1] == 'u',
        "sessionId"@.len() == 9 && "sessionId"@[0] == 's',
        "allow_once"@.len() == 10,
        "allow_always"@.len() == 12,
        "reject_once"@.len() == 11,
        "reject_always"@.len() == 13,
{
    reveal_strlit("optionId");
    reveal_strlit("name");
    reveal_strlit("kind");
    reveal_strlit("toolCall");
    reveal_strlit("options");
    reveal_strlit("outcome");
    reveal_strlit("sessionId");
    reveal_strlit("allow_once");
    reveal_strlit("allow_always");
    reveal_strlit("reject_once");
    reveal_strlit("reject_always");
}

/// Permission options survive a round trip.
pub proof fn lemma_permission_option_round_trip(v: PermissionOptionV)
    ensures
        dec_permission_option(enc_permission_option(v)) == Some(v),
{
    broadcast use lemma_lookup_concat, lemma_lookup_opt_field, lemma_lookup_singleton;

    lemma_permission_key_facts();
}

/// Lists of permission options survive a round trip.
pub proof fn lemma_permission_options_round_trip(s: Seq<PermissionOptionV>)
    ensures
        dec_permission_options(enc_permission_options(s)) == Some(s),
    decreases s.len(),
{
    if s.len() == 0 {
        assert(enc_permission_options(s).len() == 0);
        assert(s =~= Seq::<PermissionOptionV>::empty());
    } else {
        lemma_permission_options_round_trip(s.drop_last());
        assert(enc_permission_options(s).drop_last() =~= enc_permission_options(s.drop_last()));
        assert(enc_permission_options(s).last() == enc_permission_option(s.last()));
        lemma_permission_option_round_trip(s.last());
        assert(s.drop_last().push(s.last()) =~= s);
    }
}

/// Tool-call references survive a round trip: an id comes back as an id and
/// an inline record as the same record. An inline record's raw values must
/// not be an explicit JSON null, as in
/// [`crate::tool_call::lemma_tool_call_round_trip`].
pub proof fn lemma_tool_call_ref_round_trip(v: ToolCallRefV)
    requires
        v matches ToolCallRefV::Inline(tc) ==> tc.raw_input != Some(JsonV::Null)
            && tc.raw_output != Some(JsonV::Null),
    ensures
        dec_tool_call_ref(enc_tool_call_ref(v)) == Some(v),
{
    match v {
        ToolCallRefV::Id(_) => {},
        ToolCallRefV::Inline(tc) => {
            crate::tool_call::lemma_tool_call_round_trip(tc);
        },
    }
}

/// Permission requests survive a round trip, under the same proviso on an
/// inline record's raw values.
pub proof fn lemma_permission_request_round_trip(v: RequestPermissionRequestV)
    requires
        v.tool_call matches ToolCallRefV::Inline(tc) ==> tc.raw_input != Some(JsonV::Null)
            && tc.raw_output != Some(JsonV::Null),
    ensures
        dec_permission_request(enc_permission_request(v)) == Some(v),
{
    broadcast use lemma_lookup_concat, lemma_lookup_opt_field, lemma_lookup_singleton;

    lemma_key_facts();
    lemma_permission_key_facts();
    lemma_tool_call_ref_round_trip(v.tool_call);
    lemma_permission_options_round_trip(v.options);
}

// ---------------------------------------------------------------------------
// The session-notification codec.
// ---------------------------------------------------------------------------

/// The model of [`PlanEntry`].
pub struct PlanEntryV {
    pub content: Seq<char>,
    pub priority: PlanEntryPriority,
    pub status: PlanEntryStatus,
}

impl DeepView for PlanEntry {
    type V = PlanEntryV;

    open spec fn deep_view(&self) -> PlanEntryV {
        PlanEntryV { content: self.content@, priority: self.priority, status: self.status }
    }
}

/// The model of [`Plan`].
pub struct PlanV {
    pub entries: Seq<PlanEntryV>,
}

impl DeepView for Plan {
    type V = PlanV;

    open spec fn deep_view(&self) -> PlanV {
        PlanV { entries: self.entries.deep_view() }
    }
}

/// The model of [`SessionUpdate`].
pub enum SessionUpdateV {
    UserMessageChunk { content: ContentBlockV },
    AgentMessageChunk { content: ContentBlockV },
    AgentThoughtChunk { content: ContentBlockV },
    ToolCall(ToolCallV),
    ToolCallUpdate(ToolCallUpdateV),
    Plan(PlanV),
}

impl DeepView for SessionUpdate {
    type V = SessionUpdateV;

    open spec fn deep_view(&self) -> SessionUpdateV {
        match self {
            SessionUpdate::UserMessageChunk { content } => SessionUpdateV::UserMessageChunk {
                content: content.deep_view(),
            },
            SessionUpdate::AgentMessageChunk { content } => SessionUpdateV::AgentMessageChunk {
                content: content.deep_view(),
            },
            SessionUpdate::AgentThoughtChunk { content } => SessionUpdateV::AgentThoughtChunk {
                content: content.deep_view(),
            },
            SessionUpdate::ToolCall(tc) => SessionUpdateV::ToolCall(tc.deep_view()),
            SessionUpdate::ToolCallUpdate(u) => SessionUpdateV::ToolCallUpdate(u.deep_view()),
            SessionUpdate::Plan(p) => SessionUpdateV::Plan(p.deep_view()),
        }
    }
}

/// The model of [`SessionNotification`].
pub struct SessionNotificationV {
    pub session_id: Seq<char>,
    pub update: SessionUpdateV,
}

impl DeepView for SessionNotification {
    type V = SessionNotificationV;

    open spec fn deep_view(&self) -> SessionNotificationV {
        SessionNotificationV {
            session_id: self.session_id.0@,
            update: self.update.deep_view(),
        }
    }
}

pub open spec fn enc_plan_priority(p: PlanEntryPriority) -> JsonV {
    match p {
        PlanEntryPriority::High => JsonV::Str("high"@),
        PlanEntryPriority::Medium => JsonV::Str("medium"@),
        PlanEntryPriority::Low => JsonV::Str("low"@),
    }
}

pub open spec fn dec_plan_priority(j: JsonV) -> Option<PlanEntryPriority> {
    match j {
        JsonV::Str(s) => if s == "high"@ {
            Some(PlanEntryPriority::High)
        } else if s == "medium"@ {
            Some(PlanEntryPriority::Medium)
        } else if s == "low"@ {
            Some(PlanEntryPriority::Low)
        } else {
            None
        },
        _ => None,
    }
}

pub open spec fn enc_plan_status(s: PlanEntryStatus) -> JsonV {
    match s {
        PlanEntryStatus::Pending => JsonV::Str("pending"@),
        PlanEntryStatus::InProgress => JsonV::Str("in_progress"@),
        PlanEntryStatus::Completed => JsonV::Str("completed"@),
    }
}

pub open spec fn dec_plan_status(j: JsonV) -> Option<PlanEntryStatus> {
    match j {
        JsonV::Str(s) => if s == "pending"@ {
            Some(PlanEntryStatus::Pending)
        } else if s == "in_progress"@ {
            Some(PlanEntryStatus::InProgress)
        } else if s == "completed"@ {
            Some(PlanEntryStatus::Completed)
        } else {
            None
        },
        _ => None,
    }
}

pub open spec fn enc_plan_entry(v: PlanEntryV) -> JsonV {
    JsonV::Obj(
        seq![("content"@, JsonV::Str(v.content))] + seq![
            ("priority"@, enc_plan_priority(v.priority)),
        ] + seq![("status"@, enc_plan_status(v.status))],
    )
}

pub open spec fn dec_plan_entry(j: JsonV) -> Option<PlanEntryV> {
    match (req_str_field(j, "content"@), get_field(j, "priority"@), get_field(j, "status"@)) {
        (Some(c), Some(pj), Some(sj)) => match (dec_plan_priority(pj), dec_plan_status(sj)) {
            (Some(p), Some(s)) => Some(PlanEntryV { content: c, priority: p, status: s }),
            _ => None,
        },
        _ => None,
    }
}

pub open spec fn enc_plan_entries(s: Seq<PlanEntryV>) -> Seq<JsonV> {
    s.map_values(|v: PlanEntryV| enc_plan_entry(v))
}

pub open spec fn dec_plan_entries(items: Seq<JsonV>) -> Option<Seq<PlanEntryV>>
    decreases items.len(),
{
    if items.len() == 0 {
        Some(Seq::empty())
    } else {
        match (dec_plan_entries(items.drop_last()), dec_plan_entry(items.last())) {
            (Some(s), Some(v)) => Some(s.push(v)),
            _ => None,
        }
    }
}

pub open spec fn enc_plan_fields(v: PlanV) -> Seq<(Seq<char>, JsonV)> {
    seq![("entries"@, JsonV::Arr(enc_plan_entries(v.entries)))]
}

pub open spec fn dec_plan_fields(j: JsonV) -> Option<PlanV> {
    match get_field(j, "entries"@) {
        Some(JsonV::Arr(items)) => match dec_plan_entries(items) {
            Some(s) => Some(PlanV { entries: s }),
            None => None,
        },
        _ => None,
    }
}

/// A session update is an object tagged by its `sessionUpdate` field, with
/// the variant's fields flattened beside the tag.
pub open spec fn enc_session_update(v: SessionUpdateV) -> JsonV {
    match v {
        SessionUpdateV::UserMessageChunk { content } => JsonV::Obj(
            seq![("sessionUpdate"@, JsonV::Str("user_message_chunk"@))] + seq![
                ("content"@, enc_content_block(content)),
            ],
        ),
        SessionUpdateV::AgentMessageChunk { content } => JsonV::Obj(
            seq![("sessionUpdate"@, JsonV::Str("agent_message_chunk"@))] + seq![
                ("content"@, enc_content_block(content)),
            ],
        ),
        SessionUpdateV::AgentThoughtChunk { content } => JsonV::Obj(
            seq![("sessionUpdate"@, JsonV::Str("agent_thought_chunk"@))] + seq![
                ("content"@, enc_content_block(content)),
            ],
        ),
        SessionUpdateV::ToolCall(tc) => JsonV::Obj(
            seq![("sessionUpdate"@, JsonV::Str("tool_call"@))] + enc_tool_call_fields(tc),
        ),
        SessionUpdateV::ToolCallUpdate(u) => JsonV::Obj(
            seq![("sessionUpdate"@, JsonV::Str("tool_call_update"@))] + seq![
                ("toolCallId"@, JsonV::Str(u.id)),
            ] + enc_update_fields(u.fields),
        ),
        SessionUpdateV::Plan(p) => JsonV::Obj(
            seq![("sessionUpdate"@, JsonV::Str("plan"@))] + enc_plan_fields(p),
        ),
    }
}

pub open spec fn dec_session_update(j: JsonV) -> Option<SessionUpdateV> {
    match req_str_field(j, "sessionUpdate"@) {
        Some(tag) => if tag == "user_message_chunk"@ {
            match get_field(j, "content"@) {
                Some(cj) => match dec_content_block(cj) {
                    Some(c) => Some(SessionUpdateV::UserMessageChunk { content: c }),
                    None => None,
                },
                None => None,
            }
        } else if tag == "agent_message_chunk"@ {
            match get_field(j, "content"@) {
                Some(cj) => match dec_content_block(cj) {
                    Some(c) => Some(SessionUpdateV::AgentMessageChunk { content: c }),
                    None => None,
                },
                None => None,
            }
        } else if tag == "agent_thought_chunk"@ {
            match get_field(j, "content"@) {
                Some(cj) => match dec_content_block(cj) {
                    Some(c) => Some(SessionUpdateV::AgentThoughtChunk { content: c }),
                    None => None,
                },
                None => None,
            }
        } else if tag == "tool_call"@ {
            match dec_tool_call(j) {
                Some(tc) => Some(SessionUpdateV::ToolCall(tc)),
                None => None,
            }
        } else if tag == "tool_call_update"@ {
            match dec_tool_call_update(j) {
                Some(u) => Some(SessionUpdateV::ToolCallUpdate(u)),
                None => None,
            }
        } else if tag == "plan"@ {
            match dec_plan_fields(j) {
                Some(p) => Some(SessionUpdateV::Plan(p)),
                None => None,
            }
        } else {
            None
        },
        None => None,
    }
}

pub open spec fn enc_session_notification(v: SessionNotificationV) -> JsonV {
    JsonV::Obj(
        seq![("sessionId"@, JsonV::Str(v.session_id))] + seq![
            ("update"@, enc_session_update(v.update)),
        ],
    )
}

pub open spec fn dec_session_notification(j: JsonV) -> Option<SessionNotificationV> {
    match (req_str_field(j, "sessionId"@), get_field(j, "update"@)) {
        (Some(sid), Some(uj)) => match dec_session_update(uj) {
            Some(u) => Some(SessionNotificationV { session_id: sid, update: u }),
            None => None,
        },
        _ => None,
    }
}

impl PlanEntry {
    /// Encodes this entry.
    pub fn to_json(&self) -> (r: Json)
        ensures
            json_view(r) == enc_plan_entry(self.deep_view()),
    {
        let mut fields: Vec<(String, Json)> = Vec::new();
        push_field(&mut fields, "content", Json::Str(self.content.clone()));
        let pj = match self.priority {
            PlanEntryPriority::High => Json::Str("high".to_owned()),
            PlanEntryPriority::Medium => Json::Str("medium".to_owned()),
            PlanEntryPriority::Low => Json::Str("low".to_owned()),
        };
        push_field(&mut fields, "priority", pj);
        let sj = match self.status {
            PlanEntryStatus::Pending => Json::Str("pending".to_owned()),
            PlanEntryStatus::InProgress => Json::Str("in_progress".to_owned()),
            PlanEntryStatus::Completed => Json::Str("completed".to_owned()),
        };
        push_field(&mut fields, "status", sj);
        proof {
            assert(obj_views(fields@) =~= seq![("content"@, JsonV::Str(self.content@))] + seq![
                ("priority"@, enc_plan_priority(self.priority)),
            ] + seq![("status"@, enc_plan_status(self.status))]);
        }
        Json::Obj(fields)
    }

    /// Decodes an entry, ignoring unknown fields.
    pub fn from_json(j: &Json) -> (r: Option<PlanEntry>)
        ensures
            match r {
                Some(v) => dec_plan_entry(j.deep_view()) == Some(v.deep_view()),
                None => dec_plan_entry(j.deep_view()) is None,
            },
    {
        let content = match j.get_string("content") {
            Some(c) => c,
            None => {
                return None;
            },
        };
        let priority = match j.get("priority") {
            Some(Json::Str(s)) => if str_eq(s.as_str(), "high") {
                PlanEntryPriority::High
            } else if str_eq(s.as_str(), "medium") {
                PlanEntryPriority::Medium
            } else if str_eq(s.as_str(), "low") {
                PlanEntryPriority::Low
            } else {
                return None;
            },
            _ => {
                return None;
            },
        };
        let status = match j.get("status") {
            Some(Json::Str(s)) => if str_eq(s.as_str(), "pending") {
                PlanEntryStatus::Pending
            } else if str_eq(s.as_str(), "in_progress") {
                PlanEntryStatus::InProgress
            } else if str_eq(s.as_str(), "completed") {
                PlanEntryStatus::Completed
            } else {
                return None;
            },
            _ => {
                return None;
            },
        };
        Some(PlanEntry { content, priority, status })
    }
}

/// If any element fails to decode as a plan entry, the list fails.
proof fn lemma_dec_plan_entries_fail(items: Seq<JsonV>, i: int)
    requires
        0 <= i < items.len(),
        dec_plan_entry(items[i]) is None,
    ensures
        dec_plan_entries(items) is None,
    decreases items.len(),
{
    if items.len() > 0 && i < items.len() - 1 {
        assert(items.drop_last()[i] == items[i]);
        lemma_dec_plan_entries_fail(items.drop_last(), i);
    }
}

fn plan_entries_to_json(entries: &Vec<PlanEntry>) -> (r: Vec<Json>)
    ensures
        arr_views(r@) == enc_plan_entries(entries.deep_view()),
{
    let ghost dv = entries.deep_view();
    let mut out: Vec<Json> = Vec::new();
    proof {
        assert(arr_views(out@) =~= enc_plan_entries(dv.take(0)));
    }
    let mut i: usize = 0;
    while i < entries.len()
        invariant
            i <= entries.len(),
            dv == entries.deep_view(),
            dv.len() == entries@.len(),
            forall|k: int| 0 <= k < dv.len() ==> #[trigger] dv[k] == entries@[k].deep_view(),
            arr_views(out@) == enc_plan_entries(dv.take(i as int)),
        decreases entries@.len() - i,
    {
        let ej = entries[i].to_json();
        proof {
            lemma_arr_views_push(out@, ej);
            assert(enc_plan_entries(dv.take(i as int)).push(enc_plan_entry(dv[i as int]))
                =~= enc_plan_entries(dv.take(i as int + 1)));
        }
        out.push(ej);
        i += 1;
    }
    proof {
        assert(dv.take(dv.len() as int) =~= dv);
    }
    out
}

fn plan_entries_from_json(items: &Vec<Json>) -> (r: Option<Vec<PlanEntry>>)
    ensures
        match r {
            Some(v) => dec_plan_entries(arr_views(items@)) == Some(v.deep_view()),
            None => dec_plan_entries(arr_views(items@)) is None,
        },
{
    let ghost views = arr_views(items@);
    proof {
        lemma_arr_views_index(items@);
    }
    let mut out: Vec<PlanEntry> = Vec::new();
    proof {
        assert(views.take(0) =~= Seq::<JsonV>::empty());
        assert(out.deep_view() =~= Seq::<PlanEntryV>::empty());
    }
    let mut i: usize = 0;
    while i < items.len()
        invariant
            i <= items.len(),
            views == arr_views(items@),
            views.len() == items@.len(),
            forall|k: int| 0 <= k < views.len() ==> #[trigger] views[k] == json_view(items@[k]),
            dec_plan_entries(views.take(i as int)) == Some(out.deep_view()),
        decreases items@.len() - i,
    {
        match PlanEntry::from_json(&items[i]) {
            Some(v) => {
                let ghost prev = out.deep_view();
                proof {
                    assert(views.take(i as int + 1).drop_last() =~= views.take(i as int));
                    assert(views.take(i as int + 1).last() == views[i as int]);
                }
                out.push(v);
                proof {
                    assert(out.deep_view() =~= prev.push(v.deep_view()));
                }
            },
            None => {
                proof {
                    lemma_dec_plan_entries_fail(views, i as int);
                }
                return None;
            },
        }
        i += 1;
    }
    proof {
        assert(views.take(views.len() as int) =~= views);
    }
    Some(out)
}

impl SessionUpdate {
    /// Encodes this update as a `sessionUpdate`-tagged object with the
    /// variant's fields flattened beside the tag.
    pub fn to_json(&self) -> (r: Json)
        ensures
            json_view(r) == enc_session_update(self.deep_view()),
    {
        let mut fields: Vec<(String, Json)> = Vec::new();
        match self {
            SessionUpdate::UserMessageChunk { content } => {
                push_field(&mut fields, "sessionUpdate", Json::Str("user_message_chunk".to_owned()));
                let cj = content.to_json();
                push_field(&mut fields, "content", cj);
                proof {
                    assert(obj_views(fields@) =~= seq![
                        ("sessionUpdate"@, JsonV::Str("user_message_chunk"@)),
                    ] + seq![("content"@, enc_content_block(content.deep_view()))]);
                }
            },
            SessionUpdate::AgentMessageChunk { content } => {
                push_field(
                    &mut fields,
                    "sessionUpdate",
                    Json::Str("agent_message_chunk".to_owned()),
                );
                let cj = content.to_json();
                push_field(&mut fields, "content", cj);
                proof {
                    assert(obj_views(fields@) =~= seq![
                        ("sessionUpdate"@, JsonV::Str("agent_message_chunk"@)),
                    ] + seq![("content"@, enc_content_block(content.deep_view()))]);
                }
            },
            SessionUpdate::AgentThoughtChunk { content } => {
                push_field(
                    &mut fields,
                    "sessionUpdate",
                    Json::Str("agent_thought_chunk".to_owned()),
                );
                let cj = content.to_json();
                push_field(&mut fields, "content", cj);
                proof {
                    assert(obj_views(fields@) =~= seq![
                        ("sessionUpdate"@, JsonV::Str("agent_thought_chunk"@)),
                    ] + seq![("content"@, enc_content_block(content.deep_view()))]);
                }
            },
            SessionUpdate::ToolCall(tc) => {
                push_field(&mut fields, "sessionUpdate", Json::Str("tool_call".to_owned()));
                let tj = tc.to_json();
                match tj {
                    Json::Obj(tf) => {
                        let mut k: usize = 0;
                        proof {
                            crate::json::lemma_obj_views_index(tf@);
                        }
                        while k < tf.len()
                            invariant
                                k <= tf.len(),
                                obj_views(tf@) == enc_tool_call_fields(tc.deep_view()),
                                obj_views(tf@).len() == tf@.len(),
                                forall|m: int|
                                    0 <= m < tf@.len() ==> #[trigger] obj_views(tf@)[m] == (
                                        tf@[m].0@,
                                        json_view(tf@[m].1),
                                    ),
                                obj_views(fields@) =~= seq![
                                    ("sessionUpdate"@, JsonV::Str("tool_call"@)),
                                ] + enc_tool_call_fields(tc.deep_view()).take(k as int),
                            decreases tf@.len() - k,
                        {
                            let ghost prev = obj_views(fields@);
                            let pair = &tf[k];
                            push_field(&mut fields, pair.0.as_str(), pair.1.deep_clone());
                            proof {
                                assert(obj_views(fields@) =~= prev.push(
                                    enc_tool_call_fields(tc.deep_view())[k as int],
                                ));
                                assert(obj_views(fields@) =~= seq![
                                    ("sessionUpdate"@, JsonV::Str("tool_call"@)),
                                ] + enc_tool_call_fields(tc.deep_view()).take(k as int + 1));
                            }
                            k += 1;
                        }
                        proof {
                            assert(enc_tool_call_fields(tc.deep_view()).take(tf@.len() as int)
                                =~= enc_tool_call_fields(tc.deep_view()));
                        }
                    },
                    _ => {
                        proof {
                            assert(false);
                        }
                    },
                }
            },
            SessionUpdate::ToolCallUpdate(u) => {
                push_field(&mut fields, "sessionUpdate", Json::Str("tool_call_update".to_owned()));
                push_field(&mut fields, "toolCallId", Json::Str(u.id.0.clone()));
                u.fields.push_fields(&mut fields);
                proof {
                    assert(obj_views(fields@) =~= seq![
                        ("sessionUpdate"@, JsonV::Str("tool_call_update"@)),
                    ] + seq![("toolCallId"@, JsonV::Str(u.id.0@))] + enc_update_fields(
                        u.fields.deep_view(),
                    ));
                }
            },
            SessionUpdate::Plan(p) => {
                push_field(&mut fields, "sessionUpdate", Json::Str("plan".to_owned()));
                let ej = plan_entries_to_json(&p.entries);
                push_field(&mut fields, "entries", Json::Arr(ej));
                proof {
                    assert(obj_views(fields@) =~= seq![("sessionUpdate"@, JsonV::Str("plan"@))]
                        + seq![
                        ("entries"@, JsonV::Arr(enc_plan_entries(p.entries.deep_view()))),
                    ]);
                }
            },
        }
        Json::Obj(fields)
    }

    /// Decodes an update from its `sessionUpdate`-tagged object.
    pub fn from_json(j: &Json) -> (r: Option<SessionUpdate>)
        ensures
            match r {
                Some(v) => dec_session_update(j.deep_view()) == Some(v.deep_view()),
                None => dec_session_update(j.deep_view()) is None,
            },
    {
        let tag = match j.get_string("sessionUpdate") {
            Some(t) => t,
            None => {
                return None;
            },
        };
        if str_eq(tag.as_str(), "user_message_chunk") {
            match j.get("content") {
                Some(cj) => match ContentBlock::from_json(cj) {
                    Some(c) => Some(SessionUpdate::UserMessageChunk { content: c }),
                    None => None,
                },
                None => None,
            }
        } else if str_eq(tag.as_str(), "agent_message_chunk") {
            match j.get("content") {
                Some(cj) => match ContentBlock::from_json(cj) {
                    Some(c) => Some(SessionUpdate::AgentMessageChunk { content: c }),
                    None => None,
                },
                None => None,
            }
        } else if str_eq(tag.as_str(), "agent_thought_chunk") {
            match j.get("content") {
                Some(cj) => match ContentBlock::from_json(cj) {
                    Some(c) => Some(SessionUpdate::AgentThoughtChunk { content: c }),
                    None => None,
                },
                None => None,
            }
        } else if str_eq(tag.as_str(), "tool_call") {
            match ToolCall::from_json(j) {
                Some(tc) => Some(SessionUpdate::ToolCall(tc)),
                None => None,
            }
        } else if str_eq(tag.as_str(), "tool_call_update") {
            match ToolCallUpdate::from_json(j) {
                Some(u) => Some(SessionUpdate::ToolCallUpdate(u)),
                None => None,
            }
        } else if str_eq(tag.as_str(), "plan") {
            match j.get("entries") {
                Some(Json::Arr(items)) => match plan_entries_from_json(items) {
                    Some(entries) => Some(SessionUpdate::Plan(Plan { entries })),
                    None => None,
                },
                _ => None,
            }
        } else {
            None
        }
    }
}

impl SessionNotification {
    /// Encodes this notification.
    pub fn to_json(&self) -> (r: Json)
        ensures
            json_view(r) == enc_session_notification(self.deep_view()),
    {
        let mut fields: Vec<(String, Json)> = Vec::new();
        push_field(&mut fields, "sessionId", Json::Str(self.session_id.0.clone()));
        let uj = self.update.to_json();
        push_field(&mut fields, "update", uj);
        proof {
            assert(obj_views(fields@) =~= seq![("sessionId"@, JsonV::Str(self.session_id.0@))]
                + seq![("update"@, enc_session_update(self.update.deep_view()))]);
        }
        Json::Obj(fields)
    }

    /// Decodes a notification.
    pub fn from_json(j: &Json) -> (r: Option<SessionNotification>)
        ensures
            match r {
                Some(v) => dec_session_notification(j.deep_view()) == Some(v.deep_view()),
                None => dec_session_notification(j.deep_view()) is None,
            },
    {
        let session_id = match j.get_string("sessionId") {
            Some(s) => SessionId(s),
            None => {
                return None;
            },
        };
        let update = match j.get("update") {
            Some(uj) => match SessionUpdate::from_json(uj) {
                Some(u) => u,
                None => {
                    return None;
                },
            },
            None => {
                return None;
            },
        };
        Some(SessionNotification { session_id, update })
    }
}

/// The lengths and distinguishing characters of the session-notification
/// wire strings, together with the record keys its flattened forms skip.
proof fn lemma_session_key_facts()
    ensures
        "sessionUpdate"@.len() == 13,
        "update"@.len() == 6 && "update"@[0] == 'u',
        "entries"@.len() == 7 && "entries"@[0] == 'e',
        "priority"@.len() == 8 && "priority"@[0] == 'p',
        "high"@.len() == 4 && "high"@[0] == 'h',
        "medium"@.len() == 6 && "medium"@[0] == 'm',
        "low"@.len() == 3,
        "user_message_chunk"@.len() == 18,
        "agent_message_chunk"@.len() == 19 && "agent_message_chunk"@[6] == 'm',
        "agent_thought_chunk"@.len() == 19 && "agent_thought_chunk"@[6] == 't',
        "tool_call"@.len() == 9 && "tool_call"@[0] == 't',
        "tool_call_update"@.len() == 16,
        "plan"@.len() == 4 && "plan"@[0] == 'p',
        "pending"@.len() == 7 && "pending"@[0] == 'p',
        "in_progress"@.len() == 11,
        "completed"@.len() == 9 && "completed"@[1] == 'o',
        "cancelled"@.len() == 9 && "cancelled"@[1] == 'a',
        "status"@.len() == 6 && "status"@[0] == 's',
        "toolCallId"@.len() == 10 && "toolCallId"@[0] == 't',
        "title"@.len() == 5 && "title"@[0] == 't',
        "locations"@.len() == 9 && "locations"@[0] == 'l',
        "rawInput"@.len() == 8 && "rawInput"@[0] == 'r',
        "rawOutput"@.len() == 9 && "rawOutput"@[0] == 'r',
{
    reveal_strlit("sessionUpdate");
    reveal_strlit("update");
    reveal_strlit("entries");
    reveal_strlit("priority");
    reveal_strlit("high");
    reveal_strlit("medium");
    reveal_strlit("low");
    reveal_strlit("user_message_chunk");
    reveal_strlit("agent_message_chunk");
    reveal_strlit("agent_thought_chunk");
    reveal_strlit("tool_call");
    reveal_strlit("tool_call_update");
    reveal_strlit("plan");
    reveal_strlit("pending");
    reveal_strlit("in_progress");
    reveal_strlit("completed");
    reveal_strlit("cancelled");
    reveal_strlit("status");
    reveal_strlit("toolCallId");
    reveal_strlit("title");
    reveal_strlit("locations");
    reveal_strlit("rawInput");
    reveal_strlit("rawOutput");
}

/// Plan entries survive a round trip.
pub proof fn lemma_plan_entry_round_trip(v: PlanEntryV)
    ensures
        dec_plan_entry(enc_plan_entry(v)) == Some(v),
{
    broadcast use lemma_lookup_concat, lemma_lookup_opt_field, lemma_lookup_singleton;

    lemma_key_facts();
    lemma_session_key_facts();
}

/// Lists of plan entries survive a round trip.
pub proof fn lemma_plan_entries_round_trip(s: Seq<PlanEntryV>)
    ensures
        dec_plan_entries(enc_plan_entries(s)) == Some(s),
    decreases s.len(),
{
    if s.len() == 0 {
        assert(enc_plan_entries(s).len() == 0);
        assert(s =~= Seq::<PlanEntryV>::empty());
    } else {
        lemma_plan_entries_round_trip(s.drop_last());
        assert(enc_plan_entries(s).drop_last() =~= enc_plan_entries(s.drop_last()));
        assert(enc_plan_entries(s).last() == enc_plan_entry(s.last()));
        lemma_plan_entry_round_trip(s.last());
        assert(s.drop_last().push(s.last()) =~= s);
    }
}

/// Whether an update's raw passthrough values avoid the explicit-null corner
/// of the wire form; chunk and plan updates always do.
pub open spec fn session_update_raws_encodable(v: SessionUpdateV) -> bool {
    match v {
        SessionUpdateV::ToolCall(tc) => tc.raw_input != Some(JsonV::Null) && tc.raw_output != Some(
            JsonV::Null,
        ),
        SessionUpdateV::ToolCallUpdate(u) => u.fields.raw_input != Some(JsonV::Null)
            && u.fields.raw_output != Some(JsonV::Null),
        _ => true,
    }
}

/// Session updates survive a round trip, for every variant, under the raw
/// passthrough proviso of [`crate::tool_call::lemma_tool_call_fields_round_trip`].
pub proof fn lemma_session_update_round_trip(v: SessionUpdateV)
    requires
        session_update_raws_encodable(v),
    ensures
        dec_session_update(enc_session_update(v)) == Some(v),
{
    broadcast use lemma_lookup_concat, lemma_lookup_opt_field, lemma_lookup_singleton;

    lemma_key_facts();
    lemma_permission_key_facts();
    lemma_session_key_facts();
    match v {
        SessionUpdateV::UserMessageChunk { content } => {
            crate::content::lemma_content_block_round_trip(content);
        },
        SessionUpdateV::AgentMessageChunk { content } => {
            crate::content::lemma_content_block_round_trip(content);
        },
        SessionUpdateV::AgentThoughtChunk { content } => {
            crate::content::lemma_content_block_round_trip(content);
        },
        SessionUpdateV::ToolCall(tc) => {
            lemma_tool_call_fields_round_trip(
                seq![("sessionUpdate"@, JsonV::Str("tool_call"@))],
                tc,
            );
        },
        SessionUpdateV::ToolCallUpdate(u) => {
            lemma_update_fields_round_trip(
                seq![("sessionUpdate"@, JsonV::Str("tool_call_update"@))] + seq![
                    ("toolCallId"@, JsonV::Str(u.id)),
                ],
                u.fields,
            );
        },
        SessionUpdateV::Plan(p) => {
            lemma_plan_entries_round_trip(p.entries);
        },
    }
}

/// Session notifications survive a round trip, under the same proviso.
pub proof fn lemma_session_notification_round_trip(v: SessionNotificationV)
    requires
        session_update_raws_encodable(v.update),
    ensures
        dec_session_notification(enc_session_notification(v)) == Some(v),
{
    broadcast use lemma_lookup_concat, lemma_lookup_opt_field, lemma_lookup_singleton;

    lemma_key_facts();
    lemma_session_key_facts();
    lemma_session_update_round_trip(v.update);
}

} // verus!
