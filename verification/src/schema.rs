//! The message catalog: every concrete request/response payload type of the
//! two roles, with its wire codec.
//!
//! Each payload serializes as a JSON object with lowerCamelCase field names.
//! Optional fields marked as omitted are left out when absent; the two
//! nullable fields (`oldText` of a diff and `content` of a tool-call update)
//! are emitted as `null` instead. Decoders ignore unknown fields.

use vstd::prelude::*;

use crate::json::{
    arr_views, get_field, json_view, lemma_arr_views_index, lemma_arr_views_push,
    lemma_lookup_concat, lemma_lookup_opt_field, lemma_lookup_singleton, lookup_field, obj_views,
    opt_field_enc, opt_int_field, opt_str_enc, opt_str_field, push_field, req_str_field, str_eq,
    Json, JsonV,
};

verus! {

/// A user's message to the agent: an ordered list of chunks.
#[derive(Clone, Debug, PartialEq)]
pub struct UserMessage {
    pub chunks: Vec<UserMessageChunk>,
}

/// One chunk of a user message: text, or a path reference.
#[derive(Clone, Debug, PartialEq)]
pub enum UserMessageChunk {
    Text { chunk: String },
    Path { path: String },
}

/// The model of [`UserMessageChunk`].
pub enum UserMessageChunkV {
    Text { chunk: Seq<char> },
    Path { path: Seq<char> },
}

impl DeepView for UserMessageChunk {
    type V = UserMessageChunkV;

    open spec fn deep_view(&self) -> UserMessageChunkV {
        match self {
            UserMessageChunk::Text { chunk } => UserMessageChunkV::Text { chunk: chunk@ },
            UserMessageChunk::Path { path } => UserMessageChunkV::Path { path: path@ },
        }
    }
}

impl From<String> for UserMessageChunk {
    /// Plain text becomes a text chunk.
    fn from(value: String) -> Self {
        UserMessageChunk::Text { chunk: value }
    }
}

impl vstd::std_specs::convert::FromSpecImpl<String> for UserMessageChunk {
    open spec fn obeys_from_spec() -> bool {
        true
    }

    open spec fn from_spec(value: String) -> Self {
        UserMessageChunk::Text { chunk: value }
    }
}

/// The model of [`UserMessage`].
pub struct UserMessageV {
    pub chunks: Seq<UserMessageChunkV>,
}

impl DeepView for UserMessage {
    type V = UserMessageV;

    open spec fn deep_view(&self) -> UserMessageV {
        UserMessageV { chunks: self.chunks.deep_view() }
    }
}

/// One chunk of an assistant's streamed message: text, or a thought.
#[derive(Clone, Debug, PartialEq)]
pub enum AssistantMessageChunk {
    Text { chunk: String },
    Thought { chunk: String },
}

/// The model of [`AssistantMessageChunk`].
pub enum AssistantMessageChunkV {
    Text { chunk: Seq<char> },
    Thought { chunk: Seq<char> },
}

impl DeepView for AssistantMessageChunk {
    type V = AssistantMessageChunkV;

    open spec fn deep_view(&self) -> AssistantMessageChunkV {
        match self {
            AssistantMessageChunk::Text { chunk } => AssistantMessageChunkV::Text { chunk: chunk@ },
            AssistantMessageChunk::Thought { chunk } => AssistantMessageChunkV::Thought {
                chunk: chunk@,
            },
        }
    }
}

/// Metadata about a conversation thread. The modification time is a unix
/// timestamp in milliseconds.
#[derive(Clone, Debug, PartialEq)]
pub struct ThreadMetadata {
    pub title: String,
    pub modified_at: i64,
}

/// The icon a client shows beside a tool call.
#[derive(Clone, Copy, Debug, PartialEq, Eq, Structural)]
pub enum Icon {
    FileSearch,
    Folder,
    Globe,
    Hammer,
    LightBulb,
    Pencil,
    Regex,
    Terminal,
}

impl DeepView for Icon {
    type V = Icon;

    open spec fn deep_view(&self) -> Icon {
        *self
    }
}

/// What a tool call asks the user to confirm.
#[derive(Clone, Debug, PartialEq)]
pub enum ToolCallConfirmation {
    Edit { description: Option<String> },
    Execute { command: String, root_command: String, description: Option<String> },
    Mcp {
        server_name: String,
        tool_name: String,
        tool_display_name: String,
        description: Option<String>,
    },
    Fetch { urls: Vec<String>, description: Option<String> },
    Other { description: String },
}

/// The model of [`ToolCallConfirmation`].
pub enum ToolCallConfirmationV {
    Edit { description: Option<Seq<char>> },
    Execute { command: Seq<char>, root_command: Seq<char>, description: Option<Seq<char>> },
    Mcp {
        server_name: Seq<char>,
        tool_name: Seq<char>,
        tool_display_name: Seq<char>,
        description: Option<Seq<char>>,
    },
    Fetch { urls: Seq<Seq<char>>, description: Option<Seq<char>> },
    Other { description: Seq<char> },
}

impl DeepView for ToolCallConfirmation {
    type V = ToolCallConfirmationV;

    open spec fn deep_view(&self) -> ToolCallConfirmationV {
        match self {
            ToolCallConfirmation::Edit { description } => ToolCallConfirmationV::Edit {
                description: description.deep_view(),
            },
            ToolCallConfirmation::Execute { command, root_command, description } =>
                ToolCallConfirmationV::Execute {
                command: command@,
                root_command: root_command@,
                description: description.deep_view(),
            },
            ToolCallConfirmation::Mcp { server_name, tool_name, tool_display_name, description } =>
                ToolCallConfirmationV::Mcp {
                server_name: server_name@,
                tool_name: tool_name@,
                tool_display_name: tool_display_name@,
                description: description.deep_view(),
            },
            ToolCallConfirmation::Fetch { urls, description } => ToolCallConfirmationV::Fetch {
                urls: urls.deep_view(),
                description: description.deep_view(),
            },
            ToolCallConfirmation::Other { description } => ToolCallConfirmationV::Other {
                description: description@,
            },
        }
    }
}

/// The outcome a user chose for a confirmation request.
#[derive(Clone, Copy, Debug, PartialEq, Eq, Structural)]
pub enum ToolCallConfirmationOutcome {
    Allow,
    AlwaysAllow,
    AlwaysAllowMcpServer,
    AlwaysAllowTool,
    Reject,
    Cancel,
}

impl DeepView for ToolCallConfirmationOutcome {
    type V = ToolCallConfirmationOutcome;

    open spec fn deep_view(&self) -> ToolCallConfirmationOutcome {
        *self
    }
}

/// The identity of a tool call, assigned by the client role.
#[derive(Clone, Copy, Debug, PartialEq, Eq, Hash, Structural)]
pub struct ToolCallId(pub u64);

impl DeepView for ToolCallId {
    type V = ToolCallId;

    open spec fn deep_view(&self) -> ToolCallId {
        *self
    }
}

/// Where a pushed tool call stands in its lifecycle.
#[derive(Clone, Copy, Debug, PartialEq, Eq, Structural)]
pub enum ToolCallStatus {
    Running,
    Finished,
    Error,
}

impl DeepView for ToolCallStatus {
    type V = ToolCallStatus;

    open spec fn deep_view(&self) -> ToolCallStatus {
        *self
    }
}

/// A change to one file: the new text, and optionally the old.
#[derive(Clone, Debug, PartialEq)]
pub struct Diff {
    pub path: String,
    pub old_text: Option<String>,
    pub new_text: String,
}

/// The model of [`Diff`].
pub struct DiffV {
    pub path: Seq<char>,
    pub old_text: Option<Seq<char>>,
    pub new_text: Seq<char>,
}

impl DeepView for Diff {
    type V = DiffV;

    open spec fn deep_view(&self) -> DiffV {
        DiffV {
            path: self.path@,
            old_text: self.old_text.deep_view(),
            new_text: self.new_text@,
        }
    }
}

/// What a tool call displays: rendered markdown, or a file diff.
#[derive(Clone, Debug, PartialEq)]
pub enum ToolCallContent {
    Markdown { markdown: String },
    Diff { diff: Diff },
}

/// The model of [`ToolCallContent`].
pub enum ToolCallContentV {
    Markdown { markdown: Seq<char> },
    Diff { diff: DiffV },
}

impl DeepView for ToolCallContent {
    type V = ToolCallContentV;

    open spec fn deep_view(&self) -> ToolCallContentV {
        match self {
            ToolCallContent::Markdown { markdown } => ToolCallContentV::Markdown {
                markdown: markdown@,
            },
            ToolCallContent::Diff { diff } => ToolCallContentV::Diff { diff: diff.deep_view() },
        }
    }
}

// ---------------------------------------------------------------------------
// Request and response payloads.
// ---------------------------------------------------------------------------

/// Asks the agent to initialize. Carries no payload.
#[derive(Clone, Copy, Debug, PartialEq, Eq, Structural)]
pub struct InitializeParams;

/// The agent's answer to initialization.
#[derive(Clone, Copy, Debug, PartialEq, Eq, Structural)]
pub struct InitializeResponse {
    pub is_authenticated: bool,
}

impl DeepView for InitializeResponse {
    type V = InitializeResponse;

    open spec fn deep_view(&self) -> InitializeResponse {
        *self
    }
}

/// Asks the agent to authenticate. Carries no payload.
#[derive(Clone, Copy, Debug, PartialEq, Eq, Structural)]
pub struct AuthenticateParams;

/// Confirms authentication. Carries no payload.
#[derive(Clone, Copy, Debug, PartialEq, Eq, Structural)]
pub struct AuthenticateResponse;

/// Delivers a user message to the agent.
#[derive(Clone, Debug, PartialEq)]
pub struct SendUserMessageParams {
    pub message: UserMessage,
}

/// The model of [`SendUserMessageParams`].
pub struct SendUserMessageParamsV {
    pub message: UserMessageV,
}

impl DeepView for SendUserMessageParams {
    type V = SendUserMessageParamsV;

    open spec fn deep_view(&self) -> SendUserMessageParamsV {
        SendUserMessageParamsV { message: self.message.deep_view() }
    }
}

/// Confirms a user message was accepted. Carries no payload.
#[derive(Clone, Copy, Debug, PartialEq, Eq, Structural)]
pub struct SendUserMessageResponse;

/// Asks the agent to cancel the in-flight message. Carries no payload.
#[derive(Clone, Copy, Debug, PartialEq, Eq, Structural)]
pub struct CancelSendMessageParams;

/// Confirms the cancellation request. Carries no payload.
#[derive(Clone, Copy, Debug, PartialEq, Eq, Structural)]
pub struct CancelSendMessageResponse;

/// Streams one chunk of the assistant's message to the client.
#[derive(Clone, Debug, PartialEq)]
pub struct StreamAssistantMessageChunkParams {
    pub chunk: AssistantMessageChunk,
}

/// The model of [`StreamAssistantMessageChunkParams`].
pub struct StreamAssistantMessageChunkParamsV {
    pub chunk: AssistantMessageChunkV,
}

impl DeepView for StreamAssistantMessageChunkParams {
    type V = StreamAssistantMessageChunkParamsV;

    open spec fn deep_view(&self) -> StreamAssistantMessageChunkParamsV {
        StreamAssistantMessageChunkParamsV { chunk: self.chunk.deep_view() }
    }
}

/// Confirms a streamed chunk. Carries no payload.
#[derive(Clone, Copy, Debug, PartialEq, Eq, Structural)]
pub struct StreamAssistantMessageChunkResponse;

/// Asks the client to confirm a tool call before it runs.
#[derive(Clone, Debug, PartialEq)]
pub struct RequestToolCallConfirmationParams {
    pub label: String,
    pub icon: Icon,
    pub confirmation: ToolCallConfirmation,
    pub content: Option<ToolCallContent>,
}

/// The model of [`RequestToolCallConfirmationParams`].
pub struct RequestToolCallConfirmationParamsV {
    pub label: Seq<char>,
    pub icon: Icon,
    pub confirmation: ToolCallConfirmationV,
    pub content: Option<ToolCallContentV>,
}

impl DeepView for RequestToolCallConfirmationParams {
    type V = RequestToolCallConfirmationParamsV;

    open spec fn deep_view(&self) -> RequestToolCallConfirmationParamsV {
        RequestToolCallConfirmationParamsV {
            label: self.label@,
            icon: self.icon,
            confirmation: self.confirmation.deep_view(),
            content: self.content.deep_view(),
        }
    }
}

/// The client's answer to a confirmation request: the new tool call's id and
/// the chosen outcome.
#[derive(Clone, Copy, Debug, PartialEq, Eq, Structural)]
pub struct RequestToolCallConfirmationResponse {
    pub id: ToolCallId,
    pub outcome: ToolCallConfirmationOutcome,
}

impl DeepView for RequestToolCallConfirmationResponse {
    type V = RequestToolCallConfirmationResponse;

    open spec fn deep_view(&self) -> RequestToolCallConfirmationResponse {
        *self
    }
}

/// Asks the client to record a new tool call.
#[derive(Clone, Debug, PartialEq)]
pub struct PushToolCallParams {
    pub label: String,
    pub icon: Icon,
    pub content: Option<ToolCallContent>,
}

/// The model of [`PushToolCallParams`].
pub struct PushToolCallParamsV {
    pub label: Seq<char>,
    pub icon: Icon,
    pub content: Option<ToolCallContentV>,
}

impl DeepView for PushToolCallParams {
    type V = PushToolCallParamsV;

    open spec fn deep_view(&self) -> PushToolCallParamsV {
        PushToolCallParamsV {
            label: self.label@,
            icon: self.icon,
            content: self.content.deep_view(),
        }
    }
}

/// The client's answer to a push: the new tool call's id.
#[derive(Clone, Copy, Debug, PartialEq, Eq, Structural)]
pub struct PushToolCallResponse {
    pub id: ToolCallId,
}

impl DeepView for PushToolCallResponse {
    type V = PushToolCallResponse;

    open spec fn deep_view(&self) -> PushToolCallResponse {
        *self
    }
}

/// Updates a recorded tool call's status and displayed content.
#[derive(Clone, Debug, PartialEq)]
pub struct UpdateToolCallParams {
    pub tool_call_id: ToolCallId,
    pub status: ToolCallStatus,
    pub content: Option<ToolCallContent>,
}

/// The model of [`UpdateToolCallParams`].
pub struct UpdateToolCallParamsV {
    pub tool_call_id: ToolCallId,
    pub status: ToolCallStatus,
    pub content: Option<ToolCallContentV>,
}

impl DeepView for UpdateToolCallParams {
    type V = UpdateToolCallParamsV;

    open spec fn deep_view(&self) -> UpdateToolCallParamsV {
        UpdateToolCallParamsV {
            tool_call_id: self.tool_call_id,
            status: self.status,
            content: self.content.deep_view(),
        }
    }
}

/// Confirms a tool-call update. Carries no payload.
#[derive(Clone, Copy, Debug, PartialEq, Eq, Structural)]
pub struct UpdateToolCallResponse;

// ---------------------------------------------------------------------------
// Wire encodings, as models.
// ---------------------------------------------------------------------------

/// The encoding of a payload-less request or response: an empty object,
/// never the JSON literal null.
pub open spec fn enc_empty() -> JsonV {
    JsonV::Obj(Seq::empty())
}

/// A required boolean field.
pub open spec fn req_bool_field(j: JsonV, key: Seq<char>) -> Option<bool> {
    match get_field(j, key) {
        Some(JsonV::Bool(b)) => Some(b),
        _ => None,
    }
}

/// A nullable string field: both a missing field and an explicit null mean
/// absence.
pub open spec fn nullable_str_field(j: JsonV, key: Seq<char>) -> Option<Option<Seq<char>>> {
    match get_field(j, key) {
        None => Some(None),
        Some(JsonV::Null) => Some(None),
        Some(JsonV::Str(s)) => Some(Some(s)),
        Some(_) => None,
    }
}

pub open spec fn enc_icon(i: Icon) -> JsonV {
    match i {
        Icon::FileSearch => JsonV::Str("fileSearch"@),
        Icon::Folder => JsonV::Str("folder"@),
        Icon::Globe => JsonV::Str("globe"@),
        Icon::Hammer => JsonV::Str("hammer"@),
        Icon::LightBulb => JsonV::Str("lightBulb"@),
        Icon::Pencil => JsonV::Str("pencil"@),
        Icon::Regex => JsonV::Str("regex"@),
        Icon::Terminal => JsonV::Str("terminal"@),
    }
}

pub open spec fn dec_icon(j: JsonV) -> Option<Icon> {
    match j {
        JsonV::Str(s) => if s == "fileSearch"@ {
            Some(Icon::FileSearch)
        } else if s == "folder"@ {
            Some(Icon::Folder)
        } else if s == "globe"@ {
            Some(Icon::Globe)
        } else if s == "hammer"@ {
            Some(Icon::Hammer)
        } else if s == "lightBulb"@ {
            Some(Icon::LightBulb)
        } else if s == "pencil"@ {
            Some(Icon::Pencil)
        } else if s == "regex"@ {
            Some(Icon::Regex)
        } else if s == "terminal"@ {
            Some(Icon::Terminal)
        } else {
            None
        },
        _ => None,
    }
}

pub open spec fn enc_tool_call_status(s: ToolCallStatus) -> JsonV {
    match s {
        ToolCallStatus::Running => JsonV::Str("running"@),
        ToolCallStatus::Finished => JsonV::Str("finished"@),
        ToolCallStatus::Error => JsonV::Str("error"@),
    }
}

pub open spec fn dec_tool_call_status(j: JsonV) -> Option<ToolCallStatus> {
    match j {
        JsonV::Str(s) => if s == "running"@ {
            Some(ToolCallStatus::Running)
        } else if s == "finished"@ {
            Some(ToolCallStatus::Finished)
        } else if s == "error"@ {
            Some(ToolCallStatus::Error)
        } else {
            None
        },
        _ => None,
    }
}

pub open spec fn enc_outcome(o: ToolCallConfirmationOutcome) -> JsonV {
    match o {
        ToolCallConfirmationOutcome::Allow => JsonV::Str("allow"@),
        ToolCallConfirmationOutcome::AlwaysAllow => JsonV::Str("alwaysAllow"@),
        ToolCallConfirmationOutcome::AlwaysAllowMcpServer => JsonV::Str("alwaysAllowMcpServer"@),
        ToolCallConfirmationOutcome::AlwaysAllowTool => JsonV::Str("alwaysAllowTool"@),
        ToolCallConfirmationOutcome::Reject => JsonV::Str("reject"@),
        ToolCallConfirmationOutcome::Cancel => JsonV::Str("cancel"@),
    }
}

pub open spec fn dec_outcome(j: JsonV) -> Option<ToolCallConfirmationOutcome> {
    match j {
        JsonV::Str(s) => if s == "allow"@ {
            Some(ToolCallConfirmationOutcome::Allow)
        } else if s == "alwaysAllow"@ {
            Some(ToolCallConfirmationOutcome::AlwaysAllow)
        } else if s == "alwaysAllowMcpServer"@ {
            Some(ToolCallConfirmationOutcome::AlwaysAllowMcpServer)
        } else if s == "alwaysAllowTool"@ {
            Some(ToolCallConfirmationOutcome::AlwaysAllowTool)
        } else if s == "reject"@ {
            Some(ToolCallConfirmationOutcome::Reject)
        } else if s == "cancel"@ {
            Some(ToolCallConfirmationOutcome::Cancel)
        } else {
            None
        },
        _ => None,
    }
}

/// A tool-call id travels as a plain number.
pub open spec fn enc_tool_call_id(id: ToolCallId) -> JsonV {
    JsonV::Int(id.0 as int)
}

pub open spec fn dec_tool_call_id(j: JsonV) -> Option<ToolCallId> {
    match j {
        JsonV::Int(i) => if 0 <= i <= u64::MAX {
            Some(ToolCallId(i as u64))
        } else {
            None
        },
        _ => None,
    }
}

pub open spec fn enc_user_chunk(c: UserMessageChunkV) -> JsonV {
    match c {
        UserMessageChunkV::Text { chunk } => JsonV::Obj(
            seq![("type"@, JsonV::Str("text"@))] + seq![("chunk"@, JsonV::Str(chunk))],
        ),
        UserMessageChunkV::Path { path } => JsonV::Obj(
            seq![("type"@, JsonV::Str("path"@))] + seq![("path"@, JsonV::Str(path))],
        ),
    }
}

pub open spec fn dec_user_chunk(j: JsonV) -> Option<UserMessageChunkV> {
    match req_str_field(j, "type"@) {
        Some(tag) => if tag == "text"@ {
            match req_str_field(j, "chunk"@) {
                Some(c) => Some(UserMessageChunkV::Text { chunk: c }),
                None => None,
            }
        } else if tag == "path"@ {
            match req_str_field(j, "path"@) {
                Some(p) => Some(UserMessageChunkV::Path { path: p }),
                None => None,
            }
        } else {
            None
        },
        None => None,
    }
}

pub open spec fn enc_user_chunks(s: Seq<UserMessageChunkV>) -> Seq<JsonV> {
    s.map_values(|c: UserMessageChunkV| enc_user_chunk(c))
}

pub open spec fn dec_user_chunks(items: Seq<JsonV>) -> Option<Seq<UserMessageChunkV>>
    decreases items.len(),
{
    if items.len() == 0 {
        Some(Seq::empty())
    } else {
        match (dec_user_chunks(items.drop_last()), dec_user_chunk(items.last())) {
            (Some(s), Some(c)) => Some(s.push(c)),
            _ => None,
        }
    }
}

pub open spec fn enc_user_message(m: UserMessageV) -> JsonV {
    JsonV::Obj(seq![("chunks"@, JsonV::Arr(enc_user_chunks(m.chunks)))])
}

pub open spec fn dec_user_message(j: JsonV) -> Option<UserMessageV> {
    match get_field(j, "chunks"@) {
        Some(JsonV::Arr(items)) => match dec_user_chunks(items) {
            Some(s) => Some(UserMessageV { chunks: s }),
            None => None,
        },
        _ => None,
    }
}

pub open spec fn enc_assistant_chunk(c: AssistantMessageChunkV) -> JsonV {
    match c {
        AssistantMessageChunkV::Text { chunk } => JsonV::Obj(
            seq![("type"@, JsonV::Str("text"@))] + seq![("chunk"@, JsonV::Str(chunk))],
        ),
        AssistantMessageChunkV::Thought { chunk } => JsonV::Obj(
            seq![("type"@, JsonV::Str("thought"@))] + seq![("chunk"@, JsonV::Str(chunk))],
        ),
    }
}

pub open spec fn dec_assistant_chunk(j: JsonV) -> Option<AssistantMessageChunkV> {
    match req_str_field(j, "type"@) {
        Some(tag) => if tag == "text"@ {
            match req_str_field(j, "chunk"@) {
                Some(c) => Some(AssistantMessageChunkV::Text { chunk: c }),
                None => None,
            }
        } else if tag == "thought"@ {
            match req_str_field(j, "chunk"@) {
                Some(c) => Some(AssistantMessageChunkV::Thought { chunk: c }),
                None => None,
            }
        } else {
            None
        },
        None => None,
    }
}

/// The fields of a diff, as they are flattened into a tool-call content
/// object. The old text is nullable: absent old text is emitted as null.
pub open spec fn enc_diff_fields(d: DiffV) -> Seq<(Seq<char>, JsonV)> {
    seq![("path"@, JsonV::Str(d.path))] + seq![
        (
            "oldText"@,
            match d.old_text {
                Some(s) => JsonV::Str(s),
                None => JsonV::Null,
            },
        ),
    ] + seq![("newText"@, JsonV::Str(d.new_text))]
}

pub open spec fn dec_diff_fields(j: JsonV) -> Option<DiffV> {
    match (req_str_field(j, "path"@), nullable_str_field(j, "oldText"@), req_str_field(
        j,
        "newText"@,
    )) {
        (Some(p), Some(o), Some(n)) => Some(DiffV { path: p, old_text: o, new_text: n }),
        _ => None,
    }
}

pub open spec fn enc_tool_call_content(c: ToolCallContentV) -> JsonV {
    match c {
        ToolCallContentV::Markdown { markdown } => JsonV::Obj(
            seq![("type"@, JsonV::Str("markdown"@))] + seq![("markdown"@, JsonV::Str(markdown))],
        ),
        ToolCallContentV::Diff { diff } => JsonV::Obj(
            seq![("type"@, JsonV::Str("diff"@))] + enc_diff_fields(diff),
        ),
    }
}

pub open spec fn dec_tool_call_content(j: JsonV) -> Option<ToolCallContentV> {
    match req_str_field(j, "type"@) {
        Some(tag) => if tag == "markdown"@ {
            match req_str_field(j, "markdown"@) {
                Some(m) => Some(ToolCallContentV::Markdown { markdown: m }),
                None => None,
            }
        } else if tag == "diff"@ {
            match dec_diff_fields(j) {
                Some(d) => Some(ToolCallContentV::Diff { diff: d }),
                None => None,
            }
        } else {
            None
        },
        None => None,
    }
}

pub open spec fn enc_urls(s: Seq<Seq<char>>) -> Seq<JsonV> {
    s.map_values(|u: Seq<char>| JsonV::Str(u))
}

pub open spec fn dec_urls(items: Seq<JsonV>) -> Option<Seq<Seq<char>>>
    decreases items.len(),
{
    if items.len() == 0 {
        Some(Seq::empty())
    } else {
        match (dec_urls(items.drop_last()), items.last()) {
            (Some(s), JsonV::Str(u)) => Some(s.push(u)),
            _ => None,
        }
    }
}

pub open spec fn enc_confirmation(c: ToolCallConfirmationV) -> JsonV {
    match c {
        ToolCallConfirmationV::Edit { description } => JsonV::Obj(
            seq![("type"@, JsonV::Str("edit"@))] + opt_field_enc(
                "description"@,
                opt_str_enc(description),
            ),
        ),
        ToolCallConfirmationV::Execute { command, root_command, description } => JsonV::Obj(
            seq![("type"@, JsonV::Str("execute"@))] + seq![("command"@, JsonV::Str(command))]
                + seq![("rootCommand"@, JsonV::Str(root_command))] + opt_field_enc(
                "description"@,
                opt_str_enc(description),
            ),
        ),
        ToolCallConfirmationV::Mcp { server_name, tool_name, tool_display_name, description } =>
            JsonV::Obj(
            seq![("type"@, JsonV::Str("mcp"@))] + seq![("serverName"@, JsonV::Str(server_name))]
                + seq![("toolName"@, JsonV::Str(tool_name))] + seq![
                ("toolDisplayName"@, JsonV::Str(tool_display_name)),
            ] + opt_field_enc("description"@, opt_str_enc(description)),
        ),
        ToolCallConfirmationV::Fetch { urls, description } => JsonV::Obj(
            seq![("type"@, JsonV::Str("fetch"@))] + seq![("urls"@, JsonV::Arr(enc_urls(urls)))]
                + opt_field_enc("description"@, opt_str_enc(description)),
        ),
        ToolCallConfirmationV::Other { description } => JsonV::Obj(
            seq![("type"@, JsonV::Str("other"@))] + seq![("description"@, JsonV::Str(description))],
        ),
    }
}

pub open spec fn dec_confirmation(j: JsonV) -> Option<ToolCallConfirmationV> {
    match req_str_field(j, "type"@) {
        Some(tag) => if tag == "edit"@ {
            match opt_str_field(j, "description"@) {
                Some(d) => Some(ToolCallConfirmationV::Edit { description: d }),
                None => None,
            }
        } else if tag == "execute"@ {
            match (req_str_field(j, "command"@), req_str_field(j, "rootCommand"@), opt_str_field(
                j,
                "description"@,
            )) {
                (Some(c), Some(rc), Some(d)) => Some(
                    ToolCallConfirmationV::Execute {
                        command: c,
                        root_command: rc,
                        description: d,
                    },
                ),
                _ => None,
            }
        } else if tag == "mcp"@ {
            match (req_str_field(j, "serverName"@), req_str_field(j, "toolName"@), req_str_field(
                j,
                "toolDisplayName"@,
            ), opt_str_field(j, "description"@)) {
                (Some(sn), Some(tn), Some(tdn), Some(d)) => Some(
                    ToolCallConfirmationV::Mcp {
                        server_name: sn,
                        tool_name: tn,
                        tool_display_name: tdn,
                        description: d,
                    },
                ),
                _ => None,
            }
        } else if tag == "fetch"@ {
            match (get_field(j, "urls"@), opt_str_field(j, "description"@)) {
                (Some(JsonV::Arr(items)), Some(d)) => match dec_urls(items) {
                    Some(us) => Some(ToolCallConfirmationV::Fetch { urls: us, description: d }),
                    None => None,
                },
                _ => None,
            }
        } else if tag == "other"@ {
            match req_str_field(j, "description"@) {
                Some(d) => Some(ToolCallConfirmationV::Other { description: d }),
                None => None,
            }
        } else {
            None
        },
        None => None,
    }
}

/// The encoding of an optional tool-call content field that is omitted when
/// absent.
pub open spec fn enc_opt_content(c: Option<ToolCallContentV>) -> Seq<(Seq<char>, JsonV)> {
    opt_field_enc(
        "content"@,
        match c {
            Some(v) => Some(enc_tool_call_content(v)),
            None => None,
        },
    )
}

pub open spec fn dec_opt_content(j: JsonV) -> Option<Option<ToolCallContentV>> {
    match get_field(j, "content"@) {
        None => Some(None),
        Some(cj) => match dec_tool_call_content(cj) {
            Some(c) => Some(Some(c)),
            None => None,
        },
    }
}

pub open spec fn enc_send_user_message_params(v: SendUserMessageParamsV) -> JsonV {
    JsonV::Obj(seq![("message"@, enc_user_message(v.message))])
}

pub open spec fn dec_send_user_message_params(j: JsonV) -> Option<SendUserMessageParamsV> {
    match get_field(j, "message"@) {
        Some(mj) => match dec_user_message(mj) {
            Some(m) => Some(SendUserMessageParamsV { message: m }),
            None => None,
        },
        None => None,
    }
}

pub open spec fn enc_stream_params(v: StreamAssistantMessageChunkParamsV) -> JsonV {
    JsonV::Obj(seq![("chunk"@, enc_assistant_chunk(v.chunk))])
}

pub open spec fn dec_stream_params(j: JsonV) -> Option<StreamAssistantMessageChunkParamsV> {
    match get_field(j, "chunk"@) {
        Some(cj) => match dec_assistant_chunk(cj) {
            Some(c) => Some(StreamAssistantMessageChunkParamsV { chunk: c }),
            None => None,
        },
        None => None,
    }
}

pub open spec fn enc_request_confirmation_params(v: RequestToolCallConfirmationParamsV) -> JsonV {
    JsonV::Obj(
        seq![("label"@, JsonV::Str(v.label))] + seq![("icon"@, enc_icon(v.icon))] + seq![
            ("confirmation"@, enc_confirmation(v.confirmation)),
        ] + enc_opt_content(v.content),
    )
}

pub open spec fn dec_request_confirmation_params(j: JsonV) -> Option<
    RequestToolCallConfirmationParamsV,
> {
    match (req_str_field(j, "label"@), get_field(j, "icon"@), get_field(j, "confirmation"@),
    dec_opt_content(j)) {
        (Some(l), Some(ij), Some(cj), Some(ct)) => match (dec_icon(ij), dec_confirmation(cj)) {
            (Some(i), Some(c)) => Some(
                RequestToolCallConfirmationParamsV {
                    label: l,
                    icon: i,
                    confirmation: c,
                    content: ct,
                },
            ),
            _ => None,
        },
        _ => None,
    }
}

pub open spec fn enc_push_params(v: PushToolCallParamsV) -> JsonV {
    JsonV::Obj(
        seq![("label"@, JsonV::Str(v.label))] + seq![("icon"@, enc_icon(v.icon))]
            + enc_opt_content(v.content),
    )
}

pub open spec fn dec_push_params(j: JsonV) -> Option<PushToolCallParamsV> {
    match (req_str_field(j, "label"@), get_field(j, "icon"@), dec_opt_content(j)) {
        (Some(l), Some(ij), Some(ct)) => match dec_icon(ij) {
            Some(i) => Some(PushToolCallParamsV { label: l, icon: i, content: ct }),
            None => None,
        },
        _ => None,
    }
}

pub open spec fn enc_update_params(v: UpdateToolCallParamsV) -> JsonV {
    JsonV::Obj(
        seq![("toolCallId"@, enc_tool_call_id(v.tool_call_id))] + seq![
            ("status"@, enc_tool_call_status(v.status)),
        ] + seq![
            (
                "content"@,
                match v.content {
                    Some(c) => enc_tool_call_content(c),
                    None => JsonV::Null,
                },
            ),
        ],
    )
}

/// The nullable content of an update: both a missing field and an explicit
/// null mean absence.
pub open spec fn dec_nullable_content(j: JsonV) -> Option<Option<ToolCallContentV>> {
    match get_field(j, "content"@) {
        None => Some(None),
        Some(JsonV::Null) => Some(None),
        Some(cj) => match dec_tool_call_content(cj) {
            Some(c) => Some(Some(c)),
            None => None,
        },
    }
}

pub open spec fn dec_update_params(j: JsonV) -> Option<UpdateToolCallParamsV> {
    match (get_field(j, "toolCallId"@), get_field(j, "status"@), dec_nullable_content(j)) {
        (Some(ij), Some(sj), Some(ct)) => match (dec_tool_call_id(ij), dec_tool_call_status(sj)) {
            (Some(id), Some(st)) => Some(
                UpdateToolCallParamsV { tool_call_id: id, status: st, content: ct },
            ),
            _ => None,
        },
        _ => None,
    }
}

pub open spec fn enc_initialize_response(v: InitializeResponse) -> JsonV {
    JsonV::Obj(seq![("isAuthenticated"@, JsonV::Bool(v.is_authenticated))])
}

pub open spec fn dec_initialize_response(j: JsonV) -> Option<InitializeResponse> {
    match req_bool_field(j, "isAuthenticated"@) {
        Some(b) => Some(InitializeResponse { is_authenticated: b }),
        None => None,
    }
}

pub open spec fn enc_request_confirmation_response(v: RequestToolCallConfirmationResponse) -> JsonV {
    JsonV::Obj(
        seq![("type"@, JsonV::Str("RequestToolCallConfirmationResponse"@))] + seq![
            ("id"@, enc_tool_call_id(v.id)),
        ] + seq![("outcome"@, enc_outcome(v.outcome))],
    )
}

pub open spec fn dec_request_confirmation_response(j: JsonV) -> Option<
    RequestToolCallConfirmationResponse,
> {
    match (get_field(j, "id"@), get_field(j, "outcome"@)) {
        (Some(ij), Some(oj)) => match (dec_tool_call_id(ij), dec_outcome(oj)) {
            (Some(id), Some(o)) => Some(RequestToolCallConfirmationResponse { id, outcome: o }),
            _ => None,
        },
        _ => None,
    }
}

pub open spec fn enc_push_response(v: PushToolCallResponse) -> JsonV {
    JsonV::Obj(
        seq![("type"@, JsonV::Str("PushToolCallResponse"@))] + seq![
            ("id"@, enc_tool_call_id(v.id)),
        ],
    )
}

pub open spec fn dec_push_response(j: JsonV) -> Option<PushToolCallResponse> {
    match get_field(j, "id"@) {
        Some(ij) => match dec_tool_call_id(ij) {
            Some(id) => Some(PushToolCallResponse { id }),
            None => None,
        },
        None => None,
    }
}

// ---------------------------------------------------------------------------
// Executable codec.
// ---------------------------------------------------------------------------

/// Builds an empty object, the encoding of every payload-less message.
pub fn empty_payload() -> (r: Json)
    ensures
        json_view(r) == enc_empty(),
{
    let fields: Vec<(String, Json)> = Vec::new();
    proof {
        assert(obj_views(fields@) =~= Seq::<(Seq<char>, JsonV)>::empty());
    }
    Json::Obj(fields)
}

impl Icon {
    /// Encodes this icon as its wire string.
    pub fn to_json(&self) -> (r: Json)
        ensures
            json_view(r) == enc_icon(*self),
    {
        match self {
            Icon::FileSearch => Json::Str("fileSearch".to_owned()),
            Icon::Folder => Json::Str("folder".to_owned()),
            Icon::Globe => Json::Str("globe".to_owned()),
            Icon::Hammer => Json::Str("hammer".to_owned()),
            Icon::LightBulb => Json::Str("lightBulb".to_owned()),
            Icon::Pencil => Json::Str("pencil".to_owned()),
            Icon::Regex => Json::Str("regex".to_owned()),
            Icon::Terminal => Json::Str("terminal".to_owned()),
        }
    }

    /// Decodes an icon from its wire string.
    pub fn from_json(j: &Json) -> (r: Option<Icon>)
        ensures
            match r {
                Some(v) => dec_icon(j.deep_view()) == Some(v),
                None => dec_icon(j.deep_view()) is None,
            },
    {
        match j {
            Json::Str(s) => if str_eq(s.as_str(), "fileSearch") {
                Some(Icon::FileSearch)
            } else if str_eq(s.as_str(), "folder") {
                Some(Icon::Folder)
            } else if str_eq(s.as_str(), "globe") {
                Some(Icon::Globe)
            } else if str_eq(s.as_str(), "hammer") {
                Some(Icon::Hammer)
            } else if str_eq(s.as_str(), "lightBulb") {
                Some(Icon::LightBulb)
            } else if str_eq(s.as_str(), "pencil") {
                Some(Icon::Pencil)
            } else if str_eq(s.as_str(), "regex") {
                Some(Icon::Regex)
            } else if str_eq(s.as_str(), "terminal") {
                Some(Icon::Terminal)
            } else {
                None
            },
            _ => None,
        }
    }
}

impl ToolCallStatus {
    /// Encodes this status as its wire string.
    pub fn to_json(&self) -> (r: Json)
        ensures
            json_view(r) == enc_tool_call_status(*self),
    {
        match self {
            ToolCallStatus::Running => Json::Str("running".to_owned()),
            ToolCallStatus::Finished => Json::Str("finished".to_owned()),
            ToolCallStatus::Error => Json::Str("error".to_owned()),
        }
    }

    /// Decodes a status from its wire string.
    pub fn from_json(j: &Json) -> (r: Option<ToolCallStatus>)
        ensures
            match r {
                Some(v) => dec_tool_call_status(j.deep_view()) == Some(v),
                None => dec_tool_call_status(j.deep_view()) is None,
            },
    {
        match j {
            Json::Str(s) => if str_eq(s.as_str(), "running") {
                Some(ToolCallStatus::Running)
            } else if str_eq(s.as_str(), "finished") {
                Some(ToolCallStatus::Finished)
            } else if str_eq(s.as_str(), "error") {
                Some(ToolCallStatus::Error)
            } else {
                None
            },
            _ => None,
        }
    }
}

impl ToolCallConfirmationOutcome {
    /// Encodes this outcome as its wire string.
    pub fn to_json(&self) -> (r: Json)
        ensures
            json_view(r) == enc_outcome(*self),
    {
        match self {
            ToolCallConfirmationOutcome::Allow => Json::Str("allow".to_owned()),
            ToolCallConfirmationOutcome::AlwaysAllow => Json::Str("alwaysAllow".to_owned()),
            ToolCallConfirmationOutcome::AlwaysAllowMcpServer => Json::Str(
                "alwaysAllowMcpServer".to_owned(),
            ),
            ToolCallConfirmationOutcome::AlwaysAllowTool => Json::Str("alwaysAllowTool".to_owned()),
            ToolCallConfirmationOutcome::Reject => Json::Str("reject".to_owned()),
            ToolCallConfirmationOutcome::Cancel => Json::Str("cancel".to_owned()),
        }
    }

    /// Decodes an outcome from its wire string.
    pub fn from_json(j: &Json) -> (r: Option<ToolCallConfirmationOutcome>)
        ensures
            match r {
                Some(v) => dec_outcome(j.deep_view()) == Some(v),
                None => dec_outcome(j.deep_view()) is None,
            },
    {
        match j {
            Json::Str(s) => if str_eq(s.as_str(), "allow") {
                Some(ToolCallConfirmationOutcome::Allow)
            } else if str_eq(s.as_str(), "alwaysAllow") {
                Some(ToolCallConfirmationOutcome::AlwaysAllow)
            } else if str_eq(s.as_str(), "alwaysAllowMcpServer") {
                Some(ToolCallConfirmationOutcome::AlwaysAllowMcpServer)
            } else if str_eq(s.as_str(), "alwaysAllowTool") {
                Some(ToolCallConfirmationOutcome::AlwaysAllowTool)
            } else if str_eq(s.as_str(), "reject") {
                Some(ToolCallConfirmationOutcome::Reject)
            } else if str_eq(s.as_str(), "cancel") {
                Some(ToolCallConfirmationOutcome::Cancel)
            } else {
                None
            },
            _ => None,
        }
    }
}

impl ToolCallId {
    /// Encodes this id as a plain number.
    pub fn to_json(&self) -> (r: Json)
        ensures
            json_view(r) == enc_tool_call_id(*self),
    {
        Json::Int(self.0 as i128)
    }

    /// Decodes an id from a number in the unsigned 64-bit range.
    pub fn from_json(j: &Json) -> (r: Option<ToolCallId>)
        ensures
            match r {
                Some(v) => dec_tool_call_id(j.deep_view()) == Some(v),
                None => dec_tool_call_id(j.deep_view()) is None,
            },
    {
        match j {
            Json::Int(i) => if 0 <= *i && *i <= u64::MAX as i128 {
                Some(ToolCallId(*i as u64))
            } else {
                None
            },
            _ => None,
        }
    }
}

impl UserMessageChunk {
    /// Encodes this chunk as a `type`-tagged object.
    pub fn to_json(&self) -> (r: Json)
        ensures
            json_view(r) == enc_user_chunk(self.deep_view()),
    {
        let mut fields: Vec<(String, Json)> = Vec::new();
        match self {
            UserMessageChunk::Text { chunk } => {
                push_field(&mut fields, "type", Json::Str("text".to_owned()));
                push_field(&mut fields, "chunk", Json::Str(chunk.clone()));
                proof {
                    assert(obj_views(fields@) =~= seq![("type"@, JsonV::Str("text"@))] + seq![
                        ("chunk"@, JsonV::Str(chunk@)),
                    ]);
                }
            },
            UserMessageChunk::Path { path } => {
                push_field(&mut fields, "type", Json::Str("path".to_owned()));
                push_field(&mut fields, "path", Json::Str(path.clone()));
                proof {
                    assert(obj_views(fields@) =~= seq![("type"@, JsonV::Str("path"@))] + seq![
                        ("path"@, JsonV::Str(path@)),
                    ]);
                }
            },
        }
        Json::Obj(fields)
    }

    /// Decodes a chunk from a `type`-tagged object.
    pub fn from_json(j: &Json) -> (r: Option<UserMessageChunk>)
        ensures
            match r {
                Some(v) => dec_user_chunk(j.deep_view()) == Some(v.deep_view()),
                None => dec_user_chunk(j.deep_view()) is None,
            },
    {
        let tag = match j.get_string("type") {
            Some(t) => t,
            None => {
                return None;
            },
        };
        if str_eq(tag.as_str(), "text") {
            match j.get_string("chunk") {
                Some(c) => Some(UserMessageChunk::Text { chunk: c }),
                None => None,
            }
        } else if str_eq(tag.as_str(), "path") {
            match j.get_string("path") {
                Some(p) => Some(UserMessageChunk::Path { path: p }),
                None => None,
            }
        } else {
            None
        }
    }
}

/// If any element fails to decode as a chunk, the whole list fails.
proof fn lemma_dec_user_chunks_fail(items: Seq<JsonV>, i: int)
    requires
        0 <= i < items.len(),
        dec_user_chunk(items[i]) is None,
    ensures
        dec_user_chunks(items) is None,
    decreases items.len(),
{
    if items.len() > 0 && i < items.len() - 1 {
        assert(items.drop_last()[i] == items[i]);
        lemma_dec_user_chunks_fail(items.drop_last(), i);
    }
}

fn user_chunks_to_json(chunks: &Vec<UserMessageChunk>) -> (r: Vec<Json>)
    ensures
        arr_views(r@) == enc_user_chunks(chunks.deep_view()),
{
    let ghost dv = chunks.deep_view();
    let mut out: Vec<Json> = Vec::new();
    proof {
        assert(arr_views(out@) =~= enc_user_chunks(dv.take(0)));
    }
    let mut i: usize = 0;
    while i < chunks.len()
        invariant
            i <= chunks.len(),
            dv == chunks.deep_view(),
            dv.len() == chunks@.len(),
            forall|k: int| 0 <= k < dv.len() ==> #[trigger] dv[k] == chunks@[k].deep_view(),
            arr_views(out@) == enc_user_chunks(dv.take(i as int)),
        decreases chunks@.len() - i,
    {
        let cj = chunks[i].to_json();
        proof {
            lemma_arr_views_push(out@, cj);
            assert(enc_user_chunks(dv.take(i as int)).push(enc_user_chunk(dv[i as int]))
                =~= enc_user_chunks(dv.take(i as int + 1)));
        }
        out.push(cj);
        i += 1;
    }
    proof {
        assert(dv.take(dv.len() as int) =~= dv);
    }
    out
}

fn user_chunks_from_json(items: &Vec<Json>) -> (r: Option<Vec<UserMessageChunk>>)
    ensures
        match r {
            Some(v) => dec_user_chunks(arr_views(items@)) == Some(v.deep_view()),
            None => dec_user_chunks(arr_views(items@)) is None,
        },
{
    let ghost views = arr_views(items@);
    proof {
        lemma_arr_views_index(items@);
    }
    let mut out: Vec<UserMessageChunk> = Vec::new();
    proof {
        assert(views.take(0) =~= Seq::<JsonV>::empty());
        assert(out.deep_view() =~= Seq::<UserMessageChunkV>::empty());
    }
    let mut i: usize = 0;
    while i < items.len()
        invariant
            i <= items.len(),
            views == arr_views(items@),
            views.len() == items@.len(),
            forall|k: int| 0 <= k < views.len() ==> #[trigger] views[k] == json_view(items@[k]),
            dec_user_chunks(views.take(i as int)) == Some(out.deep_view()),
        decreases items@.len() - i,
    {
        match UserMessageChunk::from_json(&items[i]) {
            Some(c) => {
                let ghost prev = out.deep_view();
                proof {
                    assert(views.take(i as int + 1).drop_last() =~= views.take(i as int));
                    assert(views.take(i as int + 1).last() == views[i as int]);
                }
                out.push(c);
                proof {
                    assert(out.deep_view() =~= prev.push(c.deep_view()));
                }
            },
            None => {
                proof {
                    lemma_dec_user_chunks_fail(views, i as int);
                }
                return None;
            },
        }
        i += 1;
    }
    proof {
        assert(views.take(views.len() as int) =~= views);
    }
    Some(out)
}

impl UserMessage {
    /// Encodes this message as an object holding its chunk list.
    pub fn to_json(&self) -> (r: Json)
        ensures
            json_view(r) == enc_user_message(self.deep_view()),
    {
        let mut fields: Vec<(String, Json)> = Vec::new();
        let chunks = user_chunks_to_json(&self.chunks);
        push_field(&mut fields, "chunks", Json::Arr(chunks));
        proof {
            assert(obj_views(fields@) =~= seq![
                ("chunks"@, JsonV::Arr(enc_user_chunks(self.deep_view().chunks))),
            ]);
        }
        Json::Obj(fields)
    }

    /// Decodes a message from an object holding a chunk list.
    pub fn from_json(j: &Json) -> (r: Option<UserMessage>)
        ensures
            match r {
                Some(v) => dec_user_message(j.deep_view()) == Some(v.deep_view()),
                None => dec_user_message(j.deep_view()) is None,
            },
    {
        match j.get("chunks") {
            Some(Json::Arr(items)) => match user_chunks_from_json(items) {
                Some(chunks) => Some(UserMessage { chunks }),
                None => None,
            },
            _ => None,
        }
    }
}

impl AssistantMessageChunk {
    /// Encodes this chunk as a `type`-tagged object.
    pub fn to_json(&self) -> (r: Json)
        ensures
            json_view(r) == enc_assistant_chunk(self.deep_view()),
    {
        let mut fields: Vec<(String, Json)> = Vec::new();
        match self {
            AssistantMessageChunk::Text { chunk } => {
                push_field(&mut fields, "type", Json::Str("text".to_owned()));
                push_field(&mut fields, "chunk", Json::Str(chunk.clone()));
                proof {
                    assert(obj_views(fields@) =~= seq![("type"@, JsonV::Str("text"@))] + seq![
                        ("chunk"@, JsonV::Str(chunk@)),
                    ]);
                }
            },
            AssistantMessageChunk::Thought { chunk } => {
                push_field(&mut fields, "type", Json::Str("thought".to_owned()));
                push_field(&mut fields, "chunk", Json::Str(chunk.clone()));
                proof {
                    assert(obj_views(fields@) =~= seq![("type"@, JsonV::Str("thought"@))] + seq![
                        ("chunk"@, JsonV::Str(chunk@)),
                    ]);
                }
            },
        }
        Json::Obj(fields)
    }

    /// Decodes a chunk from a `type`-tagged object.
    pub fn from_json(j: &Json) -> (r: Option<AssistantMessageChunk>)
        ensures
            match r {
                Some(v) => dec_assistant_chunk(j.deep_view()) == Some(v.deep_view()),
                None => dec_assistant_chunk(j.deep_view()) is None,
            },
    {
        let tag = match j.get_string("type") {
            Some(t) => t,
            None => {
                return None;
            },
        };
        if str_eq(tag.as_str(), "text") {
            match j.get_string("chunk") {
                Some(c) => Some(AssistantMessageChunk::Text { chunk: c }),
                None => None,
            }
        } else if str_eq(tag.as_str(), "thought") {
            match j.get_string("chunk") {
                Some(c) => Some(AssistantMessageChunk::Thought { chunk: c }),
                None => None,
            }
        } else {
            None
        }
    }
}

impl Diff {
    /// Adds this diff's fields to an object under construction. The old text
    /// is emitted as null when absent.
    pub fn push_fields(&self, fields: &mut Vec<(String, Json)>)
        ensures
            obj_views(final(fields)@) == obj_views(old(fields)@) + enc_diff_fields(
                self.deep_view(),
            ),
    {
        push_field(fields, "path", Json::Str(self.path.clone()));
        match &self.old_text {
            Some(s) => push_field(fields, "oldText", Json::Str(s.clone())),
            None => push_field(fields, "oldText", Json::Null),
        }
        push_field(fields, "newText", Json::Str(self.new_text.clone()));
        proof {
            assert(obj_views(fields@) =~= obj_views(old(fields)@) + enc_diff_fields(
                self.deep_view(),
            ));
        }
    }

    /// Decodes a diff's fields from an object.
    pub fn from_json(j: &Json) -> (r: Option<Diff>)
        ensures
            match r {
                Some(v) => dec_diff_fields(j.deep_view()) == Some(v.deep_view()),
                None => dec_diff_fields(j.deep_view()) is None,
            },
    {
        let path = match j.get_string("path") {
            Some(p) => p,
            None => {
                return None;
            },
        };
        let old_text = match j.get("oldText") {
            None => None,
            Some(Json::Null) => None,
            Some(Json::Str(s)) => Some(s.clone()),
            Some(_) => {
                return None;
            },
        };
        let new_text = match j.get_string("newText") {
            Some(n) => n,
            None => {
                return None;
            },
        };
        Some(Diff { path, old_text, new_text })
    }
}

impl ToolCallContent {
    /// Encodes this content as a `type`-tagged object; a diff's fields are
    /// flattened beside the tag.
    pub fn to_json(&self) -> (r: Json)
        ensures
            json_view(r) == enc_tool_call_content(self.deep_view()),
    {
        let mut fields: Vec<(String, Json)> = Vec::new();
        match self {
            ToolCallContent::Markdown { markdown } => {
                push_field(&mut fields, "type", Json::Str("markdown".to_owned()));
                push_field(&mut fields, "markdown", Json::Str(markdown.clone()));
                proof {
                    assert(obj_views(fields@) =~= seq![("type"@, JsonV::Str("markdown"@))] + seq![
                        ("markdown"@, JsonV::Str(markdown@)),
                    ]);
                }
            },
            ToolCallContent::Diff { diff } => {
                push_field(&mut fields, "type", Json::Str("diff".to_owned()));
                diff.push_fields(&mut fields);
                proof {
                    assert(obj_views(fields@) =~= seq![("type"@, JsonV::Str("diff"@))]
                        + enc_diff_fields(diff.deep_view()));
                }
            },
        }
        Json::Obj(fields)
    }

    /// Decodes content from a `type`-tagged object.
    pub fn from_json(j: &Json) -> (r: Option<ToolCallContent>)
        ensures
            match r {
                Some(v) => dec_tool_call_content(j.deep_view()) == Some(v.deep_view()),
                None => dec_tool_call_content(j.deep_view()) is None,
            },
    {
        let tag = match j.get_string("type") {
            Some(t) => t,
            None => {
                return None;
            },
        };
        if str_eq(tag.as_str(), "markdown") {
            match j.get_string("markdown") {
                Some(m) => Some(ToolCallContent::Markdown { markdown: m }),
                None => None,
            }
        } else if str_eq(tag.as_str(), "diff") {
            match Diff::from_json(j) {
                Some(d) => Some(ToolCallContent::Diff { diff: d }),
                None => None,
            }
        } else {
            None
        }
    }
}

/// If any element fails to decode as a URL string, the whole list fails.
proof fn lemma_dec_urls_fail(items: Seq<JsonV>, i: int)
    requires
        0 <= i < items.len(),
        !(items[i] is Str),
    ensures
        dec_urls(items) is None,
    decreases items.len(),
{
    if items.len() > 0 && i < items.len() - 1 {
        assert(items.drop_last()[i] == items[i]);
        lemma_dec_urls_fail(items.drop_last(), i);
    }
}

fn urls_to_json(urls: &Vec<String>) -> (r: Vec<Json>)
    ensures
        arr_views(r@) == enc_urls(urls.deep_view()),
{
    let ghost dv = urls.deep_view();
    let mut out: Vec<Json> = Vec::new();
    proof {
        assert(arr_views(out@) =~= enc_urls(dv.take(0)));
    }
    let mut i: usize = 0;
    while i < urls.len()
        invariant
            i <= urls.len(),
            dv == urls.deep_view(),
            dv.len() == urls@.len(),
            forall|k: int| 0 <= k < dv.len() ==> #[trigger] dv[k] == urls@[k]@,
            arr_views(out@) == enc_urls(dv.take(i as int)),
        decreases urls@.len() - i,
    {
        let uj = Json::Str(urls[i].clone());
        proof {
            lemma_arr_views_push(out@, uj);
            assert(enc_urls(dv.take(i as int)).push(JsonV::Str(dv[i as int])) =~= enc_urls(
                dv.take(i as int + 1),
            ));
        }
        out.push(uj);
        i += 1;
    }
    proof {
        assert(dv.take(dv.len() as int) =~= dv);
    }
    out
}

fn urls_from_json(items: &Vec<Json>) -> (r: Option<Vec<String>>)
    ensures
        match r {
            Some(v) => dec_urls(arr_views(items@)) == Some(v.deep_view()),
            None => dec_urls(arr_views(items@)) is None,
        },
{
    let ghost views = arr_views(items@);
    proof {
        lemma_arr_views_index(items@);
    }
    let mut out: Vec<String> = Vec::new();
    proof {
        assert(views.take(0) =~= Seq::<JsonV>::empty());
        assert(out.deep_view() =~= Seq::<Seq<char>>::empty());
    }
    let mut i: usize = 0;
    while i < items.len()
        invariant
            i <= items.len(),
            views == arr_views(items@),
            views.len() == items@.len(),
            forall|k: int| 0 <= k < views.len() ==> #[trigger] views[k] == json_view(items@[k]),
            dec_urls(views.take(i as int)) == Some(out.deep_view()),
        decreases items@.len() - i,
    {
        match &items[i] {
            Json::Str(s) => {
                let ghost prev = out.deep_view();
                proof {
                    assert(views.take(i as int + 1).drop_last() =~= views.take(i as int));
                    assert(views.take(i as int + 1).last() == views[i as int]);
                }
                out.push(s.clone());
                proof {
                    assert(out.deep_view() =~= prev.push(s@));
                }
            },
            _ => {
                proof {
                    lemma_dec_urls_fail(views, i as int);
                }
                return None;
            },
        }
        i += 1;
    }
    proof {
        assert(views.take(views.len() as int) =~= views);
    }
    Some(out)
}

/// Adds the optional `description` field of a confirmation.
fn push_description(d: &Option<String>, fields: &mut Vec<(String, Json)>)
    ensures
        obj_views(final(fields)@) == obj_views(old(fields)@) + opt_field_enc(
            "description"@,
            opt_str_enc(d.deep_view()),
        ),
{
    match d {
        Some(s) => {
            push_field(fields, "description", Json::Str(s.clone()));
            proof {
                assert(obj_views(fields@) =~= obj_views(old(fields)@) + opt_field_enc(
                    "description"@,
                    opt_str_enc(d.deep_view()),
                ));
            }
        },
        None => {
            proof {
                assert(obj_views(fields@) =~= obj_views(fields@) + opt_field_enc(
                    "description"@,
                    opt_str_enc(d.deep_view()),
                ));
            }
        },
    }
}

impl ToolCallConfirmation {
    /// Encodes this confirmation as a `type`-tagged object.
    pub fn to_json(&self) -> (r: Json)
        ensures
            json_view(r) == enc_confirmation(self.deep_view()),
    {
        let mut fields: Vec<(String, Json)> = Vec::new();
        match self {
            ToolCallConfirmation::Edit { description } => {
                push_field(&mut fields, "type", Json::Str("edit".to_owned()));
                push_description(description, &mut fields);
                proof {
                    assert(obj_views(fields@) =~= seq![("type"@, JsonV::Str("edit"@))]
                        + opt_field_enc("description"@, opt_str_enc(description.deep_view())));
                }
            },
            ToolCallConfirmation::Execute { command, root_command, description } => {
                push_field(&mut fields, "type", Json::Str("execute".to_owned()));
                push_field(&mut fields, "command", Json::Str(command.clone()));
                push_field(&mut fields, "rootCommand", Json::Str(root_command.clone()));
                push_description(description, &mut fields);
                proof {
                    assert(obj_views(fields@) =~= seq![("type"@, JsonV::Str("execute"@))] + seq![
                        ("command"@, JsonV::Str(command@)),
                    ] + seq![("rootCommand"@, JsonV::Str(root_command@))] + opt_field_enc(
                        "description"@,
                        opt_str_enc(description.deep_view()),
                    ));
                }
            },
            ToolCallConfirmation::Mcp { server_name, tool_name, tool_display_name, description } => {
                push_field(&mut fields, "type", Json::Str("mcp".to_owned()));
                push_field(&mut fields, "serverName", Json::Str(server_name.clone()));
                push_field(&mut fields, "toolName", Json::Str(tool_name.clone()));
                push_field(&mut fields, "toolDisplayName", Json::Str(tool_display_name.clone()));
                push_description(description, &mut fields);
                proof {
                    assert(obj_views(fields@) =~= seq![("type"@, JsonV::Str("mcp"@))] + seq![
                        ("serverName"@, JsonV::Str(server_name@)),
                    ] + seq![("toolName"@, JsonV::Str(tool_name@))] + seq![
                        ("toolDisplayName"@, JsonV::Str(tool_display_name@)),
                    ] + opt_field_enc("description"@, opt_str_enc(description.deep_view())));
                }
            },
            ToolCallConfirmation::Fetch { urls, description } => {
                push_field(&mut fields, "type", Json::Str("fetch".to_owned()));
                let uj = urls_to_json(urls);
                push_field(&mut fields, "urls", Json::Arr(uj));
                push_description(description, &mut fields);
                proof {
                    assert(obj_views(fields@) =~= seq![("type"@, JsonV::Str("fetch"@))] + seq![
                        ("urls"@, JsonV::Arr(enc_urls(urls.deep_view()))),
                    ] + opt_field_enc("description"@, opt_str_enc(description.deep_view())));
                }
            },
            ToolCallConfirmation::Other { description } => {
                push_field(&mut fields, "type", Json::Str("other".to_owned()));
                push_field(&mut fields, "description", Json::Str(description.clone()));
                proof {
                    assert(obj_views(fields@) =~= seq![("type"@, JsonV::Str("other"@))] + seq![
                        ("description"@, JsonV::Str(description@)),
                    ]);
                }
            },
        }
        Json::Obj(fields)
    }

    /// Decodes a confirmation from a `type`-tagged object.
    pub fn from_json(j: &Json) -> (r: Option<ToolCallConfirmation>)
        ensures
            match r {
                Some(v) => dec_confirmation(j.deep_view()) == Some(v.deep_view()),
                None => dec_confirmation(j.deep_view()) is None,
            },
    {
        let tag = match j.get_string("type") {
            Some(t) => t,
            None => {
                return None;
            },
        };
        if str_eq(tag.as_str(), "edit") {
            match j.get_opt_string("description") {
                Ok(d) => Some(ToolCallConfirmation::Edit { description: d }),
                Err(_) => None,
            }
        } else if str_eq(tag.as_str(), "execute") {
            let command = match j.get_string("command") {
                Some(c) => c,
                None => {
                    return None;
                },
            };
            let root_command = match j.get_string("rootCommand") {
                Some(c) => c,
                None => {
                    return None;
                },
            };
            match j.get_opt_string("description") {
                Ok(d) => Some(
                    ToolCallConfirmation::Execute { command, root_command, description: d },
                ),
                Err(_) => None,
            }
        } else if str_eq(tag.as_str(), "mcp") {
            let server_name = match j.get_string("serverName") {
                Some(s) => s,
                None => {
                    return None;
                },
            };
            let tool_name = match j.get_string("toolName") {
                Some(t) => t,
                None => {
                    return None;
                },
            };
            let tool_display_name = match j.get_string("toolDisplayName") {
                Some(t) => t,
                None => {
                    return None;
                },
            };
            match j.get_opt_string("description") {
                Ok(d) => Some(
                    ToolCallConfirmation::Mcp {
                        server_name,
                        tool_name,
                        tool_display_name,
                        description: d,
                    },
                ),
                Err(_) => None,
            }
        } else if str_eq(tag.as_str(), "fetch") {
            let urls = match j.get("urls") {
                Some(Json::Arr(items)) => match urls_from_json(items) {
                    Some(us) => us,
                    None => {
                        return None;
                    },
                },
                _ => {
                    return None;
                },
            };
            match j.get_opt_string("description") {
                Ok(d) => Some(ToolCallConfirmation::Fetch { urls, description: d }),
                Err(_) => None,
            }
        } else if str_eq(tag.as_str(), "other") {
            match j.get_string("description") {
                Some(d) => Some(ToolCallConfirmation::Other { description: d }),
                None => None,
            }
        } else {
            None
        }
    }
}

/// Adds the optional `content` field of a request, omitted when absent.
fn push_opt_content(c: &Option<ToolCallContent>, fields: &mut Vec<(String, Json)>)
    ensures
        obj_views(final(fields)@) == obj_views(old(fields)@) + enc_opt_content(c.deep_view()),
{
    match c {
        Some(v) => {
            let cj = v.to_json();
            push_field(fields, "content", cj);
            proof {
                assert(obj_views(fields@) =~= obj_views(old(fields)@) + enc_opt_content(
                    c.deep_view(),
                ));
            }
        },
        None => {
            proof {
                assert(obj_views(fields@) =~= obj_views(fields@) + enc_opt_content(c.deep_view()));
            }
        },
    }
}

/// Decodes the optional `content` field of a request.
fn decode_opt_content(j: &Json) -> (r: Result<Option<ToolCallContent>, ()>)
    ensures
        match r {
            Ok(o) => dec_opt_content(j.deep_view()) == Some(o.deep_view()),
            Err(_) => dec_opt_content(j.deep_view()) is None,
        },
{
    match j.get("content") {
        None => Ok(None),
        Some(cj) => match ToolCallContent::from_json(cj) {
            Some(c) => Ok(Some(c)),
            None => Err(()),
        },
    }
}

impl SendUserMessageParams {
    /// Encodes these parameters.
    pub fn to_json(&self) -> (r: Json)
        ensures
            json_view(r) == enc_send_user_message_params(self.deep_view()),
    {
        let mut fields: Vec<(String, Json)> = Vec::new();
        let mj = self.message.to_json();
        push_field(&mut fields, "message", mj);
        proof {
            assert(obj_views(fields@) =~= seq![
                ("message"@, enc_user_message(self.deep_view().message)),
            ]);
        }
        Json::Obj(fields)
    }

    /// Decodes these parameters, ignoring unknown fields.
    pub fn from_json(j: &Json) -> (r: Option<SendUserMessageParams>)
        ensures
            match r {
                Some(v) => dec_send_user_message_params(j.deep_view()) == Some(v.deep_view()),
                None => dec_send_user_message_params(j.deep_view()) is None,
            },
    {
        match j.get("message") {
            Some(mj) => match UserMessage::from_json(mj) {
                Some(m) => Some(SendUserMessageParams { message: m }),
                None => None,
            },
            None => None,
        }
    }
}

impl StreamAssistantMessageChunkParams {
    /// Encodes these parameters.
    pub fn to_json(&self) -> (r: Json)
        ensures
            json_view(r) == enc_stream_params(self.deep_view()),
    {
        let mut fields: Vec<(String, Json)> = Vec::new();
        let cj = self.chunk.to_json();
        push_field(&mut fields, "chunk", cj);
        proof {
            assert(obj_views(fields@) =~= seq![
                ("chunk"@, enc_assistant_chunk(self.deep_view().chunk)),
            ]);
        }
        Json::Obj(fields)
    }

    /// Decodes these parameters, ignoring unknown fields.
    pub fn from_json(j: &Json) -> (r: Option<StreamAssistantMessageChunkParams>)
        ensures
            match r {
                Some(v) => dec_stream_params(j.deep_view()) == Some(v.deep_view()),
                None => dec_stream_params(j.deep_view()) is None,
            },
    {
        match j.get("chunk") {
            Some(cj) => match AssistantMessageChunk::from_json(cj) {
                Some(c) => Some(StreamAssistantMessageChunkParams { chunk: c }),
                None => None,
            },
            None => None,
        }
    }
}

impl RequestToolCallConfirmationParams {
    /// Encodes these parameters.
    pub fn to_json(&self) -> (r: Json)
        ensures
            json_view(r) == enc_request_confirmation_params(self.deep_view()),
    {
        let mut fields: Vec<(String, Json)> = Vec::new();
        push_field(&mut fields, "label", Json::Str(self.label.clone()));
        let ij = self.icon.to_json();
        push_field(&mut fields, "icon", ij);
        let cj = self.confirmation.to_json();
        push_field(&mut fields, "confirmation", cj);
        push_opt_content(&self.content, &mut fields);
        proof {
            assert(obj_views(fields@) =~= seq![("label"@, JsonV::Str(self.label@))] + seq![
                ("icon"@, enc_icon(self.icon)),
            ] + seq![("confirmation"@, enc_confirmation(self.confirmation.deep_view()))]
                + enc_opt_content(self.content.deep_view()));
        }
        Json::Obj(fields)
    }

    /// Decodes these parameters, ignoring unknown fields.
    pub fn from_json(j: &Json) -> (r: Option<RequestToolCallConfirmationParams>)
        ensures
            match r {
                Some(v) => dec_request_confirmation_params(j.deep_view()) == Some(v.deep_view()),
                None => dec_request_confirmation_params(j.deep_view()) is None,
            },
    {
        let label = match j.get_string("label") {
            Some(l) => l,
            None => {
                return None;
            },
        };
        let icon = match j.get("icon") {
            Some(ij) => match Icon::from_json(ij) {
                Some(i) => i,
                None => {
                    return None;
                },
            },
            None => {
                return None;
            },
        };
        let confirmation = match j.get("confirmation") {
            Some(cj) => match ToolCallConfirmation::from_json(cj) {
                Some(c) => c,
                None => {
                    return None;
                },
            },
            None => {
                return None;
            },
        };
        let content = match decode_opt_content(j) {
            Ok(c) => c,
            Err(_) => {
                return None;
            },
        };
        Some(RequestToolCallConfirmationParams { label, icon, confirmation, content })
    }
}

impl PushToolCallParams {
    /// Encodes these parameters.
    pub fn to_json(&self) -> (r: Json)
        ensures
            json_view(r) == enc_push_params(self.deep_view()),
    {
        let mut fields: Vec<(String, Json)> = Vec::new();
        push_field(&mut fields, "label", Json::Str(self.label.clone()));
        let ij = self.icon.to_json();
        push_field(&mut fields, "icon", ij);
        push_opt_content(&self.content, &mut fields);
        proof {
            assert(obj_views(fields@) =~= seq![("label"@, JsonV::Str(self.label@))] + seq![
                ("icon"@, enc_icon(self.icon)),
            ] + enc_opt_content(self.content.deep_view()));
        }
        Json::Obj(fields)
    }

    /// Decodes these parameters, ignoring unknown fields.
    pub fn from_json(j: &Json) -> (r: Option<PushToolCallParams>)
        ensures
            match r {
                Some(v) => dec_push_params(j.deep_view()) == Some(v.deep_view()),
                None => dec_push_params(j.deep_view()) is None,
            },
    {
        let label = match j.get_string("label") {
            Some(l) => l,
            None => {
                return None;
            },
        };
        let icon = match j.get("icon") {
            Some(ij) => match Icon::from_json(ij) {
                Some(i) => i,
                None => {
                    return None;
                },
            },
            None => {
                return None;
            },
        };
        let content = match decode_opt_content(j) {
            Ok(c) => c,
            Err(_) => {
                return None;
            },
        };
        Some(PushToolCallParams { label, icon, content })
    }
}

impl UpdateToolCallParams {
    /// Encodes these parameters. The content is emitted as null when absent.
    pub fn to_json(&self) -> (r: Json)
        ensures
            json_view(r) == enc_update_params(self.deep_view()),
    {
        let mut fields: Vec<(String, Json)> = Vec::new();
        let ij = self.tool_call_id.to_json();
        push_field(&mut fields, "toolCallId", ij);
        let sj = self.status.to_json();
        push_field(&mut fields, "status", sj);
        match &self.content {
            Some(c) => {
                let cj = c.to_json();
                push_field(&mut fields, "content", cj);
            },
            None => push_field(&mut fields, "content", Json::Null),
        }
        proof {
            assert(obj_views(fields@) =~= seq![
                ("toolCallId"@, enc_tool_call_id(self.tool_call_id)),
            ] + seq![("status"@, enc_tool_call_status(self.status))] + seq![
                (
                    "content"@,
                    match self.content.deep_view() {
                        Some(c) => enc_tool_call_content(c),
                        None => JsonV::Null,
                    },
                ),
            ]);
        }
        Json::Obj(fields)
    }

    /// Decodes these parameters, ignoring unknown fields.
    pub fn from_json(j: &Json) -> (r: Option<UpdateToolCallParams>)
        ensures
            match r {
                Some(v) => dec_update_params(j.deep_view()) == Some(v.deep_view()),
                None => dec_update_params(j.deep_view()) is None,
            },
    {
        let tool_call_id = match j.get("toolCallId") {
            Some(ij) => match ToolCallId::from_json(ij) {
                Some(id) => id,
                None => {
                    return None;
                },
            },
            None => {
                return None;
            },
        };
        let status = match j.get("status") {
            Some(sj) => match ToolCallStatus::from_json(sj) {
                Some(s) => s,
                None => {
                    return None;
                },
            },
            None => {
                return None;
            },
        };
        let content = match j.get("content") {
            None => None,
            Some(Json::Null) => None,
            Some(cj) => match ToolCallContent::from_json(cj) {
                Some(c) => Some(c),
                None => {
                    return None;
                },
            },
        };
        Some(UpdateToolCallParams { tool_call_id, status, content })
    }
}

impl InitializeResponse {
    /// Encodes this response.
    pub fn to_json(&self) -> (r: Json)
        ensures
            json_view(r) == enc_initialize_response(*self),
    {
        let mut fields: Vec<(String, Json)> = Vec::new();
        push_field(&mut fields, "isAuthenticated", Json::Bool(self.is_authenticated));
        proof {
            assert(obj_views(fields@) =~= seq![
                ("isAuthenticated"@, JsonV::Bool(self.is_authenticated)),
            ]);
        }
        Json::Obj(fields)
    }

    /// Decodes this response, ignoring unknown fields.
    pub fn from_json(j: &Json) -> (r: Option<InitializeResponse>)
        ensures
            match r {
                Some(v) => dec_initialize_response(j.deep_view()) == Some(v),
                None => dec_initialize_response(j.deep_view()) is None,
            },
    {
        match j.get("isAuthenticated") {
            Some(Json::Bool(b)) => Some(InitializeResponse { is_authenticated: *b }),
            _ => None,
        }
    }
}

impl RequestToolCallConfirmationResponse {
    /// Encodes this response, under its wire tag.
    pub fn to_json(&self) -> (r: Json)
        ensures
            json_view(r) == enc_request_confirmation_response(*self),
    {
        let mut fields: Vec<(String, Json)> = Vec::new();
        push_field(
            &mut fields,
            "type",
            Json::Str("RequestToolCallConfirmationResponse".to_owned()),
        );
        let ij = self.id.to_json();
        push_field(&mut fields, "id", ij);
        let oj = self.outcome.to_json();
        push_field(&mut fields, "outcome", oj);
        proof {
            assert(obj_views(fields@) =~= seq![
                ("type"@, JsonV::Str("RequestToolCallConfirmationResponse"@)),
            ] + seq![("id"@, enc_tool_call_id(self.id))] + seq![
                ("outcome"@, enc_outcome(self.outcome)),
            ]);
        }
        Json::Obj(fields)
    }

    /// Decodes this response, ignoring the tag and unknown fields.
    pub fn from_json(j: &Json) -> (r: Option<RequestToolCallConfirmationResponse>)
        ensures
            match r {
                Some(v) => dec_request_confirmation_response(j.deep_view()) == Some(v),
                None => dec_request_confirmation_response(j.deep_view()) is None,
            },
    {
        let id = match j.get("id") {
            Some(ij) => match ToolCallId::from_json(ij) {
                Some(i) => i,
                None => {
                    return None;
                },
            },
            None => {
                return None;
            },
        };
        let outcome = match j.get("outcome") {
            Some(oj) => match ToolCallConfirmationOutcome::from_json(oj) {
                Some(o) => o,
                None => {
                    return None;
                },
            },
            None => {
                return None;
            },
        };
        Some(RequestToolCallConfirmationResponse { id, outcome })
    }
}

impl PushToolCallResponse {
    /// Encodes this response, under its wire tag.
    pub fn to_json(&self) -> (r: Json)
        ensures
            json_view(r) == enc_push_response(*self),
    {
        let mut fields: Vec<(String, Json)> = Vec::new();
        push_field(&mut fields, "type", Json::Str("PushToolCallResponse".to_owned()));
        let ij = self.id.to_json();
        push_field(&mut fields, "id", ij);
        proof {
            assert(obj_views(fields@) =~= seq![("type"@, JsonV::Str("PushToolCallResponse"@))]
                + seq![("id"@, enc_tool_call_id(self.id))]);
        }
        Json::Obj(fields)
    }

    /// Decodes this response, ignoring the tag and unknown fields.
    pub fn from_json(j: &Json) -> (r: Option<PushToolCallResponse>)
        ensures
            match r {
                Some(v) => dec_push_response(j.deep_view()) == Some(v),
                None => dec_push_response(j.deep_view()) is None,
            },
    {
        match j.get("id") {
            Some(ij) => match ToolCallId::from_json(ij) {
                Some(i) => Some(PushToolCallResponse { id: i }),
                None => None,
            },
            None => None,
        }
    }
}

// ---------------------------------------------------------------------------
// Round-trip laws.
// ---------------------------------------------------------------------------

/// The lengths and distinguishing characters of the wire keys, tags and
/// enum strings of this module, so that distinct strings are provably
/// distinct.
proof fn lemma_key_facts()
    ensures
        "type"@.len() == 4 && "type"@[0] == 't' && "type"@[1] == 'y',
        "text"@.len() == 4 && "text"@[0] == 't' && "text"@[1] == 'e',
        "path"@.len() == 4 && "path"@[0] == 'p',
        "icon"@.len() == 4 && "icon"@[0] == 'i',
        "urls"@.len() == 4 && "urls"@[0] == 'u',
        "edit"@.len() == 4 && "edit"@[0] == 'e',
        "diff"@.len() == 4 && "diff"@[0] == 'd',
        "chunk"@.len() == 5 && "chunk"@[0] == 'c',
        "label"@.len() == 5 && "label"@[0] == 'l',
        "fetch"@.len() == 5 && "fetch"@[0] == 'f',
        "other"@.len() == 5 && "other"@[0] == 'o',
        "globe"@.len() == 5 && "globe"@[0] == 'g',
        "regex"@.len() == 5 && "regex"@[0] == 'r',
        "error"@.len() == 5 && "error"@[0] == 'e',
        "allow"@.len() == 5 && "allow"@[0] == 'a',
        "chunks"@.len() == 6 && "chunks"@[0] == 'c' && "chunks"@[1] == 'h',
        "status"@.len() == 6 && "status"@[0] == 's',
        "folder"@.len() == 6 && "folder"@[0] == 'f',
        "hammer"@.len() == 6 && "hammer"@[0] == 'h',
        "pencil"@.len() == 6 && "pencil"@[0] == 'p',
        "reject"@.len() == 6 && "reject"@[0] == 'r',
        "cancel"@.len() == 6 && "cancel"@[0] == 'c' && "cancel"@[1] == 'a',
        "message"@.len() == 7 && "message"@[0] == 'm',
        "content"@.len() == 7 && "content"@[0] == 'c' && "content"@[2] == 'n',
        "command"@.len() == 7 && "command"@[0] == 'c' && "command"@[2] == 'm',
        "thought"@.len() == 7 && "thought"@[0] == 't',
        "running"@.len() == 7 && "running"@[0] == 'r',
        "oldText"@.len() == 7 && "oldText"@[0] == 'o' && "oldText"@[1] == 'l',
        "outcome"@.len() == 7 && "outcome"@[0] == 'o' && "outcome"@[1] == 'u',
        "newText"@.len() == 7 && "newText"@[0] == 'n',
        "execute"@.len() == 7 && "execute"@[0] == 'e',
        "toolName"@.len() == 8 && "toolName"@[0] == 't' && "toolName"@[1] == 'o',
        "markdown"@.len() == 8 && "markdown"@[0] == 'm',
        "terminal"@.len() == 8 && "terminal"@[0] == 't' && "terminal"@[1] == 'e',
        "finished"@.len() == 8 && "finished"@[0] == 'f',
        "lightBulb"@.len() == 9,
        "serverName"@.len() == 10 && "serverName"@[0] == 's',
        "toolCallId"@.len() == 10 && "toolCallId"@[0] == 't',
        "fileSearch"@.len() == 10 && "fileSearch"@[0] == 'f',
        "rootCommand"@.len() == 11 && "rootCommand"@[0] == 'r',
        "description"@.len() == 11 && "description"@[0] == 'd',
        "alwaysAllow"@.len() == 11 && "alwaysAllow"@[0] == 'a',
        "confirmation"@.len() == 12,
        "alwaysAllowTool"@.len() == 15,
        "toolDisplayName"@.len() == 15 && "toolDisplayName"@[0] == 't',
        "isAuthenticated"@.len() == 15 && "isAuthenticated"@[0] == 'i',
        "alwaysAllowMcpServer"@.len() == 20,
        "mcp"@.len() == 3,
        "id"@.len() == 2,
{
    reveal_strlit("type");
    reveal_strlit("text");
    reveal_strlit("path");
    reveal_strlit("icon");
    reveal_strlit("urls");
    reveal_strlit("edit");
    reveal_strlit("diff");
    reveal_strlit("chunk");
    reveal_strlit("label");
    reveal_strlit("fetch");
    reveal_strlit("other");
    reveal_strlit("globe");
    reveal_strlit("regex");
    reveal_strlit("error");
    reveal_strlit("allow");
    reveal_strlit("chunks");
    reveal_strlit("status");
    reveal_strlit("folder");
    reveal_strlit("hammer");
    reveal_strlit("pencil");
    reveal_strlit("reject");
    reveal_strlit("cancel");
    reveal_strlit("message");
    reveal_strlit("content");
    reveal_strlit("command");
    reveal_strlit("thought");
    reveal_strlit("running");
    reveal_strlit("oldText");
    reveal_strlit("outcome");
    reveal_strlit("newText");
    reveal_strlit("execute");
    reveal_strlit("toolName");
    reveal_strlit("markdown");
    reveal_strlit("terminal");
    reveal_strlit("finished");
    reveal_strlit("lightBulb");
    reveal_strlit("serverName");
    reveal_strlit("toolCallId");
    reveal_strlit("fileSearch");
    reveal_strlit("rootCommand");
    reveal_strlit("description");
    reveal_strlit("alwaysAllow");
    reveal_strlit("confirmation");
    reveal_strlit("alwaysAllowTool");
    reveal_strlit("toolDisplayName");
    reveal_strlit("isAuthenticated");
    reveal_strlit("alwaysAllowMcpServer");
    reveal_strlit("mcp");
    reveal_strlit("id");
}

/// Icons survive a round trip through their wire strings.
pub proof fn lemma_icon_round_trip(i: Icon)
    ensures
        dec_icon(enc_icon(i)) == Some(i),
{
    lemma_key_facts();
}

/// Statuses survive a round trip through their wire strings.
pub proof fn lemma_status_round_trip(s: ToolCallStatus)
    ensures
        dec_tool_call_status(enc_tool_call_status(s)) == Some(s),
{
    lemma_key_facts();
}

/// Outcomes survive a round trip through their wire strings.
pub proof fn lemma_outcome_round_trip(o: ToolCallConfirmationOutcome)
    ensures
        dec_outcome(enc_outcome(o)) == Some(o),
{
    lemma_key_facts();
}

/// Tool-call ids survive a round trip through their numeric encoding.
pub proof fn lemma_id_round_trip(id: ToolCallId)
    ensures
        dec_tool_call_id(enc_tool_call_id(id)) == Some(id),
{
}

/// User-message chunks survive a round trip.
pub proof fn lemma_user_chunk_round_trip(c: UserMessageChunkV)
    ensures
        dec_user_chunk(enc_user_chunk(c)) == Some(c),
{
    broadcast use lemma_lookup_concat, lemma_lookup_opt_field, lemma_lookup_singleton;

    lemma_key_facts();
}

/// Lists of user-message chunks survive a round trip.
pub proof fn lemma_user_chunks_round_trip(s: Seq<UserMessageChunkV>)
    ensures
        dec_user_chunks(enc_user_chunks(s)) == Some(s),
    decreases s.len(),
{
    if s.len() == 0 {
        assert(enc_user_chunks(s).len() == 0);
        assert(s =~= Seq::<UserMessageChunkV>::empty());
    } else {
        lemma_user_chunks_round_trip(s.drop_last());
        assert(enc_user_chunks(s).drop_last() =~= enc_user_chunks(s.drop_last()));
        assert(enc_user_chunks(s).last() == enc_user_chunk(s.last()));
        lemma_user_chunk_round_trip(s.last());
        assert(s.drop_last().push(s.last()) =~= s);
    }
}

/// User messages survive a round trip.
pub proof fn lemma_user_message_round_trip(m: UserMessageV)
    ensures
        dec_user_message(enc_user_message(m)) == Some(m),
{
    broadcast use lemma_lookup_concat, lemma_lookup_opt_field, lemma_lookup_singleton;

    lemma_key_facts();
    lemma_user_chunks_round_trip(m.chunks);
}

/// Assistant-message chunks survive a round trip.
pub proof fn lemma_assistant_chunk_round_trip(c: AssistantMessageChunkV)
    ensures
        dec_assistant_chunk(enc_assistant_chunk(c)) == Some(c),
{
    broadcast use lemma_lookup_concat, lemma_lookup_opt_field, lemma_lookup_singleton;

    lemma_key_facts();
}

/// A diff's fields decode back from any object that starts with unrelated
/// fields and ends with their encoding.
proof fn lemma_diff_fields_round_trip(pre: Seq<(Seq<char>, JsonV)>, d: DiffV)
    requires
        lookup_field(pre, "path"@) is None,
        lookup_field(pre, "oldText"@) is None,
        lookup_field(pre, "newText"@) is None,
    ensures
        dec_diff_fields(JsonV::Obj(pre + enc_diff_fields(d))) == Some(d),
{
    broadcast use lemma_lookup_concat, lemma_lookup_opt_field, lemma_lookup_singleton;

    lemma_key_facts();
}

/// Tool-call content survives a round trip.
pub proof fn lemma_tool_call_content_round_trip(c: ToolCallContentV)
    ensures
        dec_tool_call_content(enc_tool_call_content(c)) == Some(c),
{
    broadcast use lemma_lookup_concat, lemma_lookup_opt_field, lemma_lookup_singleton;

    lemma_key_facts();
    match c {
        ToolCallContentV::Diff { diff } => {
            lemma_diff_fields_round_trip(seq![("type"@, JsonV::Str("diff"@))], diff);
        },
        _ => {},
    }
}

/// Lists of URL strings survive a round trip.
pub proof fn lemma_urls_round_trip(s: Seq<Seq<char>>)
    ensures
        dec_urls(enc_urls(s)) == Some(s),
    decreases s.len(),
{
    if s.len() == 0 {
        assert(enc_urls(s).len() == 0);
        assert(s =~= Seq::<Seq<char>>::empty());
    } else {
        lemma_urls_round_trip(s.drop_last());
        assert(enc_urls(s).drop_last() =~= enc_urls(s.drop_last()));
        assert(enc_urls(s).last() == JsonV::Str(s.last()));
        assert(s.drop_last().push(s.last()) =~= s);
    }
}

/// Confirmations survive a round trip, for every variant.
pub proof fn lemma_confirmation_round_trip(c: ToolCallConfirmationV)
    ensures
        dec_confirmation(enc_confirmation(c)) == Some(c),
{
    broadcast use lemma_lookup_concat, lemma_lookup_opt_field, lemma_lookup_singleton;

    lemma_key_facts();
    match c {
        ToolCallConfirmationV::Fetch { urls, description } => {
            lemma_urls_round_trip(urls);
        },
        _ => {},
    }
}

/// Confirmation-request parameters survive a round trip.
pub proof fn lemma_request_confirmation_params_round_trip(v: RequestToolCallConfirmationParamsV)
    ensures
        dec_request_confirmation_params(enc_request_confirmation_params(v)) == Some(v),
{
    broadcast use lemma_lookup_concat, lemma_lookup_opt_field, lemma_lookup_singleton;

    lemma_key_facts();
    lemma_icon_round_trip(v.icon);
    lemma_confirmation_round_trip(v.confirmation);
    match v.content {
        Some(c) => lemma_tool_call_content_round_trip(c),
        None => {},
    }
}

/// Push parameters survive a round trip.
pub proof fn lemma_push_params_round_trip(v: PushToolCallParamsV)
    ensures
        dec_push_params(enc_push_params(v)) == Some(v),
{
    broadcast use lemma_lookup_concat, lemma_lookup_opt_field, lemma_lookup_singleton;

    lemma_key_facts();
    lemma_icon_round_trip(v.icon);
    match v.content {
        Some(c) => lemma_tool_call_content_round_trip(c),
        None => {},
    }
}

/// Update parameters survive a round trip, also through the nullable
/// content field.
pub proof fn lemma_update_params_round_trip(v: UpdateToolCallParamsV)
    ensures
        dec_update_params(enc_update_params(v)) == Some(v),
{
    broadcast use lemma_lookup_concat, lemma_lookup_opt_field, lemma_lookup_singleton;

    lemma_key_facts();
    lemma_status_round_trip(v.status);
    match v.content {
        Some(c) => lemma_tool_call_content_round_trip(c),
        None => {},
    }
}

/// Send-user-message parameters survive a round trip.
pub proof fn lemma_send_user_message_params_round_trip(v: SendUserMessageParamsV)
    ensures
        dec_send_user_message_params(enc_send_user_message_params(v)) == Some(v),
{
    broadcast use lemma_lookup_concat, lemma_lookup_opt_field, lemma_lookup_singleton;

    lemma_key_facts();
    lemma_user_message_round_trip(v.message);
}

/// Stream parameters survive a round trip.
pub proof fn lemma_stream_params_round_trip(v: StreamAssistantMessageChunkParamsV)
    ensures
        dec_stream_params(enc_stream_params(v)) == Some(v),
{
    broadcast use lemma_lookup_concat, lemma_lookup_opt_field, lemma_lookup_singleton;

    lemma_key_facts();
    lemma_assistant_chunk_round_trip(v.chunk);
}

/// The initialize response survives a round trip.
pub proof fn lemma_initialize_response_round_trip(v: InitializeResponse)
    ensures
        dec_initialize_response(enc_initialize_response(v)) == Some(v),
{
    broadcast use lemma_lookup_concat, lemma_lookup_opt_field, lemma_lookup_singleton;

    lemma_key_facts();
}

/// The confirmation response survives a round trip.
pub proof fn lemma_request_confirmation_response_round_trip(v: RequestToolCallConfirmationResponse)
    ensures
        dec_request_confirmation_response(enc_request_confirmation_response(v)) == Some(v),
{
    broadcast use lemma_lookup_concat, lemma_lookup_opt_field, lemma_lookup_singleton;

    lemma_key_facts();
    lemma_outcome_round_trip(v.outcome);
    reveal_strlit("RequestToolCallConfirmationResponse");
}

/// The push response survives a round trip.
pub proof fn lemma_push_response_round_trip(v: PushToolCallResponse)
    ensures
        dec_push_response(enc_push_response(v)) == Some(v),
{
    broadcast use lemma_lookup_concat, lemma_lookup_opt_field, lemma_lookup_singleton;

    lemma_key_facts();
    reveal_strlit("PushToolCallResponse");
}

} // verus!
