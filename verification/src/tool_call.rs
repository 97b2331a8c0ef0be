//! Tool calls: identity, status lifecycle, content and location attachments,
//! and the partial-update merge semantics.
//!
//! A full record travels once, when the call is created; later changes
//! travel as partial updates carrying only the fields that changed. The
//! merge rule is field-by-field overwrite: an absent field leaves the prior
//! value unchanged, a present field replaces it wholesale — lists are
//! replaced, never appended to.

use vstd::prelude::*;

use crate::content::{dec_content_block, enc_content_block, ContentBlock, ContentBlockV};
use crate::json::{
    arr_views, get_field, json_view, lemma_arr_views_index, lemma_arr_views_push,
    lemma_lookup_concat, lemma_lookup_opt_field, lemma_lookup_singleton, lookup_field, obj_views,
    opt_field_enc, opt_str_field, push_field, push_opt_field, req_str_field, str_eq, Json, JsonV,
};

verus! {

/// The identity of a tool call: an opaque string handle, unique per session,
/// assigned by the agent role.
#[derive(Clone, Debug, PartialEq, Eq, Hash)]
pub struct ToolCallId(pub String);

/// What category of work a tool call performs.
#[derive(Clone, Copy, Debug, PartialEq, Eq, Structural)]
pub enum ToolKind {
    Read,
    Edit,
    Delete,
    Move,
    Search,
    Execute,
    Think,
    Fetch,
    Other,
}

impl ToolKind {
    /// Whether this is the default kind, which the wire form may omit.
    pub fn is_default(&self) -> (r: bool)
        ensures
            r == (*self == ToolKind::Other),
    {
        matches!(self, ToolKind::Other)
    }
}

impl Default for ToolKind {
    /// The default kind is `Other`.
    fn default() -> (r: ToolKind)
        ensures
            r == ToolKind::Other,
    {
        ToolKind::Other
    }
}

/// Where a tool call stands in its lifecycle: it starts pending, runs, and
/// ends completed or failed. The terminal states are `Completed` and
/// `Failed`; updates arriving after them are tolerated but carry no further
/// meaning.
#[derive(Clone, Copy, Debug, PartialEq, Eq, Structural)]
pub enum ToolCallStatus {
    /// The tool call hasn't started running yet: the input is either
    /// streaming or awaiting approval.
    Pending,
    /// The tool call is currently running.
    InProgress,
    /// The tool call completed successfully.
    Completed,
    /// The tool call failed.
    Failed,
}

impl ToolCallStatus {
    /// Whether this is the default status, which the wire form may omit.
    pub fn is_default(&self) -> (r: bool)
        ensures
            r == (*self == ToolCallStatus::Pending),
    {
        matches!(self, ToolCallStatus::Pending)
    }
}

impl Default for ToolCallStatus {
    /// The default status is `Pending`.
    fn default() -> (r: ToolCallStatus)
        ensures
            r == ToolCallStatus::Pending,
    {
        ToolCallStatus::Pending
    }
}

/// A change to one file: the new text, and optionally the old.
#[derive(Clone, Debug, PartialEq)]
pub struct Diff {
    pub path: String,
    pub old_text: Option<String>,
    pub new_text: String,
}

/// One item a tool call displays: a content block, or a file diff.
#[derive(Clone, Debug, PartialEq)]
pub enum ToolCallContent {
    Content { content: ContentBlock },
    Diff { diff: Diff },
}

/// A file location a tool call touches, for "follow along" experiences.
#[derive(Clone, Debug, PartialEq)]
pub struct ToolCallLocation {
    pub path: String,
    pub line: Option<u32>,
}

/// A complete tool-call record, sent when the call is created.
#[derive(Debug)]
pub struct ToolCall {
    pub id: ToolCallId,
    pub title: String,
    pub kind: ToolKind,
    pub status: ToolCallStatus,
    pub content: Vec<ToolCallContent>,
    pub locations: Vec<ToolCallLocation>,
    pub raw_input: Option<Json>,
    pub raw_output: Option<Json>,
}

/// The fields of a partial update; every one optional. An absent field
/// means "leave unchanged", a present one "overwrite wholesale".
#[derive(Debug, Default)]
pub struct ToolCallUpdateFields {
    pub kind: Option<ToolKind>,
    pub status: Option<ToolCallStatus>,
    pub title: Option<String>,
    pub content: Option<Vec<ToolCallContent>>,
    pub locations: Option<Vec<ToolCallLocation>>,
    pub raw_input: Option<Json>,
    pub raw_output: Option<Json>,
}

/// A partial update to a recorded tool call, keyed by its id.
#[derive(Debug)]
pub struct ToolCallUpdate {
    pub id: ToolCallId,
    pub fields: ToolCallUpdateFields,
}

impl ToolCall {
    /// Merges a partial update into this record: each field the update
    /// carries overwrites the prior value wholesale — content and location
    /// lists are replaced, never appended to — and each absent field leaves
    /// the prior value unchanged. The id never changes.
    pub fn apply_update(self, fields: ToolCallUpdateFields) -> (r: ToolCall)
        ensures
            r.id == self.id,
            r.kind == match fields.kind {
                Some(k) => k,
                None => self.kind,
            },
            r.status == match fields.status {
                Some(s) => s,
                None => self.status,
            },
            r.title == match fields.title {
                Some(t) => t,
                None => self.title,
            },
            r.content == match fields.content {
                Some(c) => c,
                None => self.content,
            },
            r.locations == match fields.locations {
                Some(l) => l,
                None => self.locations,
            },
            r.raw_input == match fields.raw_input {
                Some(i) => Some(i),
                None => self.raw_input,
            },
            r.raw_output == match fields.raw_output {
                Some(o) => Some(o),
                None => self.raw_output,
            },
    {
        ToolCall {
            id: self.id,
            kind: match fields.kind {
                Some(k) => k,
                None => self.kind,
            },
            status: match fields.status {
                Some(s) => s,
                None => self.status,
            },
            title: match fields.title {
                Some(t) => t,
                None => self.title,
            },
            content: match fields.content {
                Some(c) => c,
                None => self.content,
            },
            locations: match fields.locations {
                Some(l) => l,
                None => self.locations,
            },
            raw_input: match fields.raw_input {
                Some(i) => Some(i),
                None => self.raw_input,
            },
            raw_output: match fields.raw_output {
                Some(o) => Some(o),
                None => self.raw_output,
            },
        }
    }
}

// ---------------------------------------------------------------------------
// Wire encodings, as models.
//
// The record's wire form omits fields holding their default: the kind when
// `Other`, the status when `Pending`, the content and location lists when
// empty, and the raw values when absent. The two raw values travel as
// arbitrary JSON, passed through untouched.
// ---------------------------------------------------------------------------

/// The model of [`Diff`].
pub struct DiffV {
    pub path: Seq<char>,
    pub old_text: Option<Seq<char>>,
    pub new_text: Seq<char>,
}

impl DeepView for Diff {
    type V = DiffV;

    open spec fn deep_view(&self) -> DiffV {
        DiffV {
            path: self.path@,
            old_text: self.old_text.deep_view(),
            new_text: self.new_text@,
        }
    }
}

/// The model of [`ToolCallContent`].
pub enum ToolCallContentV {
    Content { content: ContentBlockV },
    Diff { diff: DiffV },
}

impl DeepView for ToolCallContent {
    type V = ToolCallContentV;

    open spec fn deep_view(&self) -> ToolCallContentV {
        match self {
            ToolCallContent::Content { content } => ToolCallContentV::Content {
                content: content.deep_view(),
            },
            ToolCallContent::Diff { diff } => ToolCallContentV::Diff { diff: diff.deep_view() },
        }
    }
}

/// The model of [`ToolCallLocation`].
pub struct ToolCallLocationV {
    pub path: Seq<char>,
    pub line: Option<u32>,
}

impl DeepView for ToolCallLocation {
    type V = ToolCallLocationV;

    open spec fn deep_view(&self) -> ToolCallLocationV {
        ToolCallLocationV { path: self.path@, line: self.line }
    }
}

impl DeepView for ToolKind {
    type V = ToolKind;

    open spec fn deep_view(&self) -> ToolKind {
        *self
    }
}

impl DeepView for ToolCallStatus {
    type V = ToolCallStatus;

    open spec fn deep_view(&self) -> ToolCallStatus {
        *self
    }
}

/// The model of [`ToolCall`].
pub struct ToolCallV {
    pub id: Seq<char>,
    pub title: Seq<char>,
    pub kind: ToolKind,
    pub status: ToolCallStatus,
    pub content: Seq<ToolCallContentV>,
    pub locations: Seq<ToolCallLocationV>,
    pub raw_input: Option<JsonV>,
    pub raw_output: Option<JsonV>,
}

impl DeepView for ToolCall {
    type V = ToolCallV;

    open spec fn deep_view(&self) -> ToolCallV {
        ToolCallV {
            id: self.id.0@,
            title: self.title@,
            kind: self.kind,
            status: self.status,
            content: self.content.deep_view(),
            locations: self.locations.deep_view(),
            raw_input: self.raw_input.deep_view(),
            raw_output: self.raw_output.deep_view(),
        }
    }
}

pub open spec fn enc_tool_kind(k: ToolKind) -> JsonV {
    match k {
        ToolKind::Read => JsonV::Str("read"@),
        ToolKind::Edit => JsonV::Str("edit"@),
        ToolKind::Delete => JsonV::Str("delete"@),
        ToolKind::Move => JsonV::Str("move"@),
        ToolKind::Search => JsonV::Str("search"@),
        ToolKind::Execute => JsonV::Str("execute"@),
        ToolKind::Think => JsonV::Str("think"@),
        ToolKind::Fetch => JsonV::Str("fetch"@),
        ToolKind::Other => JsonV::Str("other"@),
    }
}

pub open spec fn dec_tool_kind(j: JsonV) -> Option<ToolKind> {
    match j {
        JsonV::Str(s) => if s == "read"@ {
            Some(ToolKind::Read)
        } else if s == "edit"@ {
            Some(ToolKind::Edit)
        } else if s == "delete"@ {
            Some(ToolKind::Delete)
        } else if s == "move"@ {
            Some(ToolKind::Move)
        } else if s == "search"@ {
            Some(ToolKind::Search)
        } else if s == "execute"@ {
            Some(ToolKind::Execute)
        } else if s == "think"@ {
            Some(ToolKind::Think)
        } else if s == "fetch"@ {
            Some(ToolKind::Fetch)
        } else if s == "other"@ {
            Some(ToolKind::Other)
        } else {
            None
        },
        _ => None,
    }
}

pub open spec fn enc_lifecycle_status(s: ToolCallStatus) -> JsonV {
    match s {
        ToolCallStatus::Pending => JsonV::Str("pending"@),
        ToolCallStatus::InProgress => JsonV::Str("in_progress"@),
        ToolCallStatus::Completed => JsonV::Str("completed"@),
        ToolCallStatus::Failed => JsonV::Str("failed"@),
    }
}

pub open spec fn dec_lifecycle_status(j: JsonV) -> Option<ToolCallStatus> {
    match j {
        JsonV::Str(s) => if s == "pending"@ {
            Some(ToolCallStatus::Pending)
        } else if s == "in_progress"@ {
            Some(ToolCallStatus::InProgress)
        } else if s == "completed"@ {
            Some(ToolCallStatus::Completed)
        } else if s == "failed"@ {
            Some(ToolCallStatus::Failed)
        } else {
            None
        },
        _ => None,
    }
}

/// The fields of a diff. The old text is nullable: absent old text is
/// emitted as null.
pub open spec fn enc_diff_fields(d: DiffV) -> Seq<(Seq<char>, JsonV)> {
    seq![("path"@, JsonV::Str(d.path))] + seq![
        (
            "oldText"@,
            match d.old_text {
                Some(s) => JsonV::Str(s),
                None => JsonV::Null,
            },
        ),
    ] + seq![("newText"@, JsonV::Str(d.new_text))]
}

pub open spec fn dec_diff_fields(j: JsonV) -> Option<DiffV> {
    match (req_str_field(j, "path"@), get_field(j, "oldText"@), req_str_field(j, "newText"@)) {
        (Some(p), None, Some(n)) => Some(DiffV { path: p, old_text: None, new_text: n }),
        (Some(p), Some(JsonV::Null), Some(n)) => Some(
            DiffV { path: p, old_text: None, new_text: n },
        ),
        (Some(p), Some(JsonV::Str(o)), Some(n)) => Some(
            DiffV { path: p, old_text: Some(o), new_text: n },
        ),
        _ => None,
    }
}

pub open spec fn enc_tool_call_content(c: ToolCallContentV) -> JsonV {
    match c {
        ToolCallContentV::Content { content } => JsonV::Obj(
            seq![("type"@, JsonV::Str("content"@))] + seq![
                ("content"@, enc_content_block(content)),
            ],
        ),
        ToolCallContentV::Diff { diff } => JsonV::Obj(
            seq![("type"@, JsonV::Str("diff"@))] + enc_diff_fields(diff),
        ),
    }
}

pub open spec fn dec_tool_call_content(j: JsonV) -> Option<ToolCallContentV> {
    match req_str_field(j, "type"@) {
        Some(tag) => if tag == "content"@ {
            match get_field(j, "content"@) {
                Some(cj) => match dec_content_block(cj) {
                    Some(c) => Some(ToolCallContentV::Content { content: c }),
                    None => None,
                },
                None => None,
            }
        } else if tag == "diff"@ {
            match dec_diff_fields(j) {
                Some(d) => Some(ToolCallContentV::Diff { diff: d }),
                None => None,
            }
        } else {
            None
        },
        None => None,
    }
}

pub open spec fn enc_tool_call_contents(s: Seq<ToolCallContentV>) -> Seq<JsonV> {
    s.map_values(|c: ToolCallContentV| enc_tool_call_content(c))
}

pub open spec fn dec_tool_call_contents(items: Seq<JsonV>) -> Option<Seq<ToolCallContentV>>
    decreases items.len(),
{
    if items.len() == 0 {
        Some(Seq::empty())
    } else {
        match (dec_tool_call_contents(items.drop_last()), dec_tool_call_content(items.last())) {
            (Some(s), Some(c)) => Some(s.push(c)),
            _ => None,
        }
    }
}

/// A location carries its wire tag beside the path and the optional line,
/// which is omitted when absent.
pub open spec fn enc_location(v: ToolCallLocationV) -> JsonV {
    JsonV::Obj(
        seq![("type"@, JsonV::Str("ToolCallLocation"@))] + seq![("path"@, JsonV::Str(v.path))]
            + opt_field_enc(
            "line"@,
            match v.line {
                Some(n) => Some(JsonV::Int(n as int)),
                None => None,
            },
        ),
    )
}

pub open spec fn dec_location(j: JsonV) -> Option<ToolCallLocationV> {
    match (req_str_field(j, "path"@), get_field(j, "line"@)) {
        (Some(p), None) => Some(ToolCallLocationV { path: p, line: None }),
        (Some(p), Some(JsonV::Int(n))) => if 0 <= n <= u32::MAX {
            Some(ToolCallLocationV { path: p, line: Some(n as u32) })
        } else {
            None
        },
        _ => None,
    }
}

pub open spec fn enc_locations(s: Seq<ToolCallLocationV>) -> Seq<JsonV> {
    s.map_values(|v: ToolCallLocationV| enc_location(v))
}

pub open spec fn dec_locations(items: Seq<JsonV>) -> Option<Seq<ToolCallLocationV>>
    decreases items.len(),
{
    if items.len() == 0 {
        Some(Seq::empty())
    } else {
        match (dec_locations(items.drop_last()), dec_location(items.last())) {
            (Some(s), Some(v)) => Some(s.push(v)),
            _ => None,
        }
    }
}

/// The full record's fields, with defaults omitted.
pub open spec fn enc_tool_call_fields(v: ToolCallV) -> Seq<(Seq<char>, JsonV)> {
    seq![("toolCallId"@, JsonV::Str(v.id))] + seq![("title"@, JsonV::Str(v.title))]
        + opt_field_enc(
        "kind"@,
        if v.kind == ToolKind::Other {
            None
        } else {
            Some(enc_tool_kind(v.kind))
        },
    ) + opt_field_enc(
        "status"@,
        if v.status == ToolCallStatus::Pending {
            None
        } else {
            Some(enc_lifecycle_status(v.status))
        },
    ) + opt_field_enc(
        "content"@,
        if v.content.len() == 0 {
            None
        } else {
            Some(JsonV::Arr(enc_tool_call_contents(v.content)))
        },
    ) + opt_field_enc(
        "locations"@,
        if v.locations.len() == 0 {
            None
        } else {
            Some(JsonV::Arr(enc_locations(v.locations)))
        },
    ) + opt_field_enc("rawInput"@, v.raw_input) + opt_field_enc("rawOutput"@, v.raw_output)
}

pub open spec fn enc_tool_call(v: ToolCallV) -> JsonV {
    JsonV::Obj(enc_tool_call_fields(v))
}

/// A raw passthrough value: an absent field and an explicit null both mean
/// absence; any other value is carried through untouched.
pub open spec fn raw_field(j: JsonV, key: Seq<char>) -> Option<JsonV> {
    match get_field(j, key) {
        None => None,
        Some(JsonV::Null) => None,
        Some(v) => Some(v),
    }
}

pub open spec fn dec_kind_field(j: JsonV) -> Option<ToolKind> {
    match get_field(j, "kind"@) {
        None => Some(ToolKind::Other),
        Some(kj) => dec_tool_kind(kj),
    }
}

pub open spec fn dec_status_field(j: JsonV) -> Option<ToolCallStatus> {
    match get_field(j, "status"@) {
        None => Some(ToolCallStatus::Pending),
        Some(sj) => dec_lifecycle_status(sj),
    }
}

pub open spec fn dec_content_field(j: JsonV) -> Option<Seq<ToolCallContentV>> {
    match get_field(j, "content"@) {
        None => Some(Seq::empty()),
        Some(JsonV::Arr(items)) => dec_tool_call_contents(items),
        Some(_) => None,
    }
}

pub open spec fn dec_locations_field(j: JsonV) -> Option<Seq<ToolCallLocationV>> {
    match get_field(j, "locations"@) {
        None => Some(Seq::empty()),
        Some(JsonV::Arr(items)) => dec_locations(items),
        Some(_) => None,
    }
}

pub open spec fn dec_tool_call(j: JsonV) -> Option<ToolCallV> {
    match (req_str_field(j, "toolCallId"@), req_str_field(j, "title"@), dec_kind_field(j),
    dec_status_field(j), dec_content_field(j), dec_locations_field(j)) {
        (Some(id), Some(title), Some(kind), Some(status), Some(content), Some(locations)) => Some(
            ToolCallV {
                id,
                title,
                kind,
                status,
                content,
                locations,
                raw_input: raw_field(j, "rawInput"@),
                raw_output: raw_field(j, "rawOutput"@),
            },
        ),
        _ => None,
    }
}

// ---------------------------------------------------------------------------
// Executable codec.
// ---------------------------------------------------------------------------

impl ToolKind {
    /// Encodes this kind as its wire string.
    pub fn to_json(&self) -> (r: Json)
        ensures
            json_view(r) == enc_tool_kind(*self),
    {
        match self {
            ToolKind::Read => Json::Str("read".to_owned()),
            ToolKind::Edit => Json::Str("edit".to_owned()),
            ToolKind::Delete => Json::Str("delete".to_owned()),
            ToolKind::Move => Json::Str("move".to_owned()),
            ToolKind::Search => Json::Str("search".to_owned()),
            ToolKind::Execute => Json::Str("execute".to_owned()),
            ToolKind::Think => Json::Str("think".to_owned()),
            ToolKind::Fetch => Json::Str("fetch".to_owned()),
            ToolKind::Other => Json::Str("other".to_owned()),
        }
    }

    /// Decodes a kind from its wire string.
    pub fn from_json(j: &Json) -> (r: Option<ToolKind>)
        ensures
            match r {
                Some(v) => dec_tool_kind(j.deep_view()) == Some(v),
                None => dec_tool_kind(j.deep_view()) is None,
            },
    {
        match j {
            Json::Str(s) => if str_eq(s.as_str(), "read") {
                Some(ToolKind::Read)
            } else if str_eq(s.as_str(), "edit") {
                Some(ToolKind::Edit)
            } else if str_eq(s.as_str(), "delete") {
                Some(ToolKind::Delete)
            } else if str_eq(s.as_str(), "move") {
                Some(ToolKind::Move)
            } else if str_eq(s.as_str(), "search") {
                Some(ToolKind::Search)
            } else if str_eq(s.as_str(), "execute") {
                Some(ToolKind::Execute)
            } else if str_eq(s.as_str(), "think") {
                Some(ToolKind::Think)
            } else if str_eq(s.as_str(), "fetch") {
                Some(ToolKind::Fetch)
            } else if str_eq(s.as_str(), "other") {
                Some(ToolKind::Other)
            } else {
                None
            },
            _ => None,
        }
    }
}

impl ToolCallStatus {
    /// Encodes this status as its wire string.
    pub fn to_json(&self) -> (r: Json)
        ensures
            json_view(r) == enc_lifecycle_status(*self),
    {
        match self {
            ToolCallStatus::Pending => Json::Str("pending".to_owned()),
            ToolCallStatus::InProgress => Json::Str("in_progress".to_owned()),
            ToolCallStatus::Completed => Json::Str("completed".to_owned()),
            ToolCallStatus::Failed => Json::Str("failed".to_owned()),
        }
    }

    /// Decodes a status from its wire string.
    pub fn from_json(j: &Json) -> (r: Option<ToolCallStatus>)
        ensures
            match r {
                Some(v) => dec_lifecycle_status(j.deep_view()) == Some(v),
                None => dec_lifecycle_status(j.deep_view()) is None,
            },
    {
        match j {
            Json::Str(s) => if str_eq(s.as_str(), "pending") {
                Some(ToolCallStatus::Pending)
            } else if str_eq(s.as_str(), "in_progress") {
                Some(ToolCallStatus::InProgress)
            } else if str_eq(s.as_str(), "completed") {
                Some(ToolCallStatus::Completed)
            } else if str_eq(s.as_str(), "failed") {
                Some(ToolCallStatus::Failed)
            } else {
                None
            },
            _ => None,
        }
    }
}

impl Diff {
    /// Adds this diff's fields to an object under construction. The old
    /// text is emitted as null when absent.
    pub fn push_fields(&self, fields: &mut Vec<(String, Json)>)
        ensures
            obj_views(final(fields)@) == obj_views(old(fields)@) + enc_diff_fields(
                self.deep_view(),
            ),
    {
        push_field(fields, "path", Json::Str(self.path.clone()));
        match &self.old_text {
            Some(s) => push_field(fields, "oldText", Json::Str(s.clone())),
            None => push_field(fields, "oldText", Json::Null),
        }
        push_field(fields, "newText", Json::Str(self.new_text.clone()));
        proof {
            assert(obj_views(fields@) =~= obj_views(old(fields)@) + enc_diff_fields(
                self.deep_view(),
            ));
        }
    }

    /// Decodes a diff's fields from an object.
    pub fn from_json(j: &Json) -> (r: Option<Diff>)
        ensures
            match r {
                Some(v) => dec_diff_fields(j.deep_view()) == Some(v.deep_view()),
                None => dec_diff_fields(j.deep_view()) is None,
            },
    {
        let path = match j.get_string("path") {
            Some(p) => p,
            None => {
                return None;
            },
        };
        let old_text = match j.get("oldText") {
            None => None,
            Some(Json::Null) => None,
            Some(Json::Str(s)) => Some(s.clone()),
            Some(_) => {
                return None;
            },
        };
        let new_text = match j.get_string("newText") {
            Some(n) => n,
            None => {
                return None;
            },
        };
        Some(Diff { path, old_text, new_text })
    }
}

impl ToolCallContent {
    /// Encodes this item as a `type`-tagged object; a diff's fields are
    /// flattened beside the tag.
    pub fn to_json(&self) -> (r: Json)
        ensures
            json_view(r) == enc_tool_call_content(self.deep_view()),
    {
        let mut fields: Vec<(String, Json)> = Vec::new();
        match self {
            ToolCallContent::Content { content } => {
                push_field(&mut fields, "type", Json::Str("content".to_owned()));
                let cj = content.to_json();
                push_field(&mut fields, "content", cj);
                proof {
                    assert(obj_views(fields@) =~= seq![("type"@, JsonV::Str("content"@))] + seq![
                        ("content"@, enc_content_block(content.deep_view())),
                    ]);
                }
            },
            ToolCallContent::Diff { diff } => {
                push_field(&mut fields, "type", Json::Str("diff".to_owned()));
                diff.push_fields(&mut fields);
                proof {
                    assert(obj_views(fields@) =~= seq![("type"@, JsonV::Str("diff"@))]
                        + enc_diff_fields(diff.deep_view()));
                }
            },
        }
        Json::Obj(fields)
    }

    /// Decodes an item from a `type`-tagged object.
    pub fn from_json(j: &Json) -> (r: Option<ToolCallContent>)
        ensures
            match r {
                Some(v) => dec_tool_call_content(j.deep_view()) == Some(v.deep_view()),
                None => dec_tool_call_content(j.deep_view()) is None,
            },
    {
        let tag = match j.get_string("type") {
            Some(t) => t,
            None => {
                return None;
            },
        };
        if str_eq(tag.as_str(), "content") {
            match j.get("content") {
                Some(cj) => match ContentBlock::from_json(cj) {
                    Some(c) => Some(ToolCallContent::Content { content: c }),
                    None => None,
                },
                None => None,
            }
        } else if str_eq(tag.as_str(), "diff") {
            match Diff::from_json(j) {
                Some(d) => Some(ToolCallContent::Diff { diff: d }),
                None => None,
            }
        } else {
            None
        }
    }
}

impl ToolCallLocation {
    /// Encodes this location; the line is omitted when absent.
    pub fn to_json(&self) -> (r: Json)
        ensures
            json_view(r) == enc_location(self.deep_view()),
    {
        let mut fields: Vec<(String, Json)> = Vec::new();
        push_field(&mut fields, "type", Json::Str("ToolCallLocation".to_owned()));
        push_field(&mut fields, "path", Json::Str(self.path.clone()));
        match &self.line {
            Some(n) => push_field(&mut fields, "line", Json::Int(*n as i128)),
            None => {},
        }
        proof {
            assert(obj_views(fields@) =~= seq![("type"@, JsonV::Str("ToolCallLocation"@))] + seq![
                ("path"@, JsonV::Str(self.path@)),
            ] + opt_field_enc(
                "line"@,
                match self.line {
                    Some(n) => Some(JsonV::Int(n as int)),
                    None => None,
                },
            ));
        }
        Json::Obj(fields)
    }

    /// Decodes a location, ignoring the tag and unknown fields.
    pub fn from_json(j: &Json) -> (r: Option<ToolCallLocation>)
        ensures
            match r {
                Some(v) => dec_location(j.deep_view()) == Some(v.deep_view()),
                None => dec_location(j.deep_view()) is None,
            },
    {
        let path = match j.get_string("path") {
            Some(p) => p,
            None => {
                return None;
            },
        };
        let line = match j.get("line") {
            None => None,
            Some(Json::Int(n)) => {
                if *n < 0 || *n > u32::MAX as i128 {
                    return None;
                }
                Some(*n as u32)
            },
            Some(_) => {
                return None;
            },
        };
        Some(ToolCallLocation { path, line })
    }
}

/// If any element fails to decode as tool-call content, the list fails.
proof fn lemma_dec_contents_fail(items: Seq<JsonV>, i: int)
    requires
        0 <= i < items.len(),
        dec_tool_call_content(items[i]) is None,
    ensures
        dec_tool_call_contents(items) is None,
    decreases items.len(),
{
    if items.len() > 0 && i < items.len() - 1 {
        assert(items.drop_last()[i] == items[i]);
        lemma_dec_contents_fail(items.drop_last(), i);
    }
}

/// If any element fails to decode as a location, the list fails.
proof fn lemma_dec_locations_fail(items: Seq<JsonV>, i: int)
    requires
        0 <= i < items.len(),
        dec_location(items[i]) is None,
    ensures
        dec_locations(items) is None,
    decreases items.len(),
{
    if items.len() > 0 && i < items.len() - 1 {
        assert(items.drop_last()[i] == items[i]);
        lemma_dec_locations_fail(items.drop_last(), i);
    }
}

fn contents_to_json(content: &Vec<ToolCallContent>) -> (r: Vec<Json>)
    ensures
        arr_views(r@) == enc_tool_call_contents(content.deep_view()),
{
    let ghost dv = content.deep_view();
    let mut out: Vec<Json> = Vec::new();
    proof {
        assert(arr_views(out@) =~= enc_tool_call_contents(dv.take(0)));
    }
    let mut i: usize = 0;
    while i < content.len()
        invariant
            i <= content.len(),
            dv == content.deep_view(),
            dv.len() == content@.len(),
            forall|k: int| 0 <= k < dv.len() ==> #[trigger] dv[k] == content@[k].deep_view(),
            arr_views(out@) == enc_tool_call_contents(dv.take(i as int)),
        decreases content@.len() - i,
    {
        let cj = content[i].to_json();
        proof {
            lemma_arr_views_push(out@, cj);
            assert(enc_tool_call_contents(dv.take(i as int)).push(enc_tool_call_content(
                dv[i as int],
            )) =~= enc_tool_call_contents(dv.take(i as int + 1)));
        }
        out.push(cj);
        i += 1;
    }
    proof {
        assert(dv.take(dv.len() as int) =~= dv);
    }
    out
}

fn contents_from_json(items: &Vec<Json>) -> (r: Option<Vec<ToolCallContent>>)
    ensures
        match r {
            Some(v) => dec_tool_call_contents(arr_views(items@)) == Some(v.deep_view()),
            None => dec_tool_call_contents(arr_views(items@)) is None,
        },
{
    let ghost views = arr_views(items@);
    proof {
        lemma_arr_views_index(items@);
    }
    let mut out: Vec<ToolCallContent> = Vec::new();
    proof {
        assert(views.take(0) =~= Seq::<JsonV>::empty());
        assert(out.deep_view() =~= Seq::<ToolCallContentV>::empty());
    }
    let mut i: usize = 0;
    while i < items.len()
        invariant
            i <= items.len(),
            views == arr_views(items@),
            views.len() == items@.len(),
            forall|k: int| 0 <= k < views.len() ==> #[trigger] views[k] == json_view(items@[k]),
            dec_tool_call_contents(views.take(i as int)) == Some(out.deep_view()),
        decreases items@.len() - i,
    {
        match ToolCallContent::from_json(&items[i]) {
            Some(c) => {
                let ghost prev = out.deep_view();
                proof {
                    assert(views.take(i as int + 1).drop_last() =~= views.take(i as int));
                    assert(views.take(i as int + 1).last() == views[i as int]);
                }
                out.push(c);
                proof {
                    assert(out.deep_view() =~= prev.push(c.deep_view()));
                }
            },
            None => {
                proof {
                    lemma_dec_contents_fail(views, i as int);
                }
                return None;
            },
        }
        i += 1;
    }
    proof {
        assert(views.take(views.len() as int) =~= views);
    }
    Some(out)
}

fn locations_to_json(locations: &Vec<ToolCallLocation>) -> (r: Vec<Json>)
    ensures
        arr_views(r@) == enc_locations(locations.deep_view()),
{
    let ghost dv = locations.deep_view();
    let mut out: Vec<Json> = Vec::new();
    proof {
        assert(arr_views(out@) =~= enc_locations(dv.take(0)));
    }
    let mut i: usize = 0;
    while i < locations.len()
        invariant
            i <= locations.len(),
            dv == locations.deep_view(),
            dv.len() == locations@.len(),
            forall|k: int| 0 <= k < dv.len() ==> #[trigger] dv[k] == locations@[k].deep_view(),
            arr_views(out@) == enc_locations(dv.take(i as int)),
        decreases locations@.len() - i,
    {
        let lj = locations[i].to_json();
        proof {
            lemma_arr_views_push(out@, lj);
            assert(enc_locations(dv.take(i as int)).push(enc_location(dv[i as int]))
                =~= enc_locations(dv.take(i as int + 1)));
        }
        out.push(lj);
        i += 1;
    }
    proof {
        assert(dv.take(dv.len() as int) =~= dv);
    }
    out
}

fn locations_from_json(items: &Vec<Json>) -> (r: Option<Vec<ToolCallLocation>>)
    ensures
        match r {
            Some(v) => dec_locations(arr_views(items@)) == Some(v.deep_view()),
            None => dec_locations(arr_views(items@)) is None,
        },
{
    let ghost views = arr_views(items@);
    proof {
        lemma_arr_views_index(items@);
    }
    let mut out: Vec<ToolCallLocation> = Vec::new();
    proof {
        assert(views.take(0) =~= Seq::<JsonV>::empty());
        assert(out.deep_view() =~= Seq::<ToolCallLocationV>::empty());
    }
    let mut i: usize = 0;
    while i < items.len()
        invariant
            i <= items.len(),
            views == arr_views(items@),
            views.len() == items@.len(),
            forall|k: int| 0 <= k < views.len() ==> #[trigger] views[k] == json_view(items@[k]),
            dec_locations(views.take(i as int)) == Some(out.deep_view()),
        decreases items@.len() - i,
    {
        match ToolCallLocation::from_json(&items[i]) {
            Some(v) => {
                let ghost prev = out.deep_view();
                proof {
                    assert(views.take(i as int + 1).drop_last() =~= views.take(i as int));
                    assert(views.take(i as int + 1).last() == views[i as int]);
                }
                out.push(v);
                proof {
                    assert(out.deep_view() =~= prev.push(v.deep_view()));
                }
            },
            None => {
                proof {
                    lemma_dec_locations_fail(views, i as int);
                }
                return None;
            },
        }
        i += 1;
    }
    proof {
        assert(views.take(views.len() as int) =~= views);
    }
    Some(out)
}

impl ToolCall {
    /// Encodes this record, omitting fields that hold their default: the
    /// kind when `Other`, the status when `Pending`, the lists when empty,
    /// and the raw values when absent.
    #[verifier::rlimit(50)]
    pub fn to_json(&self) -> (r: Json)
        ensures
            json_view(r) == enc_tool_call(self.deep_view()),
    {
        let mut fields: Vec<(String, Json)> = Vec::new();
        push_field(&mut fields, "toolCallId", Json::Str(self.id.0.clone()));
        push_field(&mut fields, "title", Json::Str(self.title.clone()));
        if !self.kind.is_default() {
            let kj = self.kind.to_json();
            push_field(&mut fields, "kind", kj);
        }
        if !self.status.is_default() {
            let sj = self.status.to_json();
            push_field(&mut fields, "status", sj);
        }
        if self.content.len() > 0 {
            let cj = contents_to_json(&self.content);
            push_field(&mut fields, "content", Json::Arr(cj));
        }
        if self.locations.len() > 0 {
            let lj = locations_to_json(&self.locations);
            push_field(&mut fields, "locations", Json::Arr(lj));
        }
        match &self.raw_input {
            Some(v) => push_field(&mut fields, "rawInput", v.deep_clone()),
            None => {},
        }
        match &self.raw_output {
            Some(v) => push_field(&mut fields, "rawOutput", v.deep_clone()),
            None => {},
        }
        proof {
            assert(self.content.len() == 0 ==> self.content.deep_view() =~= Seq::<
                ToolCallContentV,
            >::empty());
            assert(self.locations.len() == 0 ==> self.locations.deep_view() =~= Seq::<
                ToolCallLocationV,
            >::empty());
            assert(obj_views(fields@) =~= enc_tool_call_fields(self.deep_view()));
        }
        Json::Obj(fields)
    }

    /// Decodes a record, reading omitted fields as their defaults and
    /// passing the raw values through untouched.
    pub fn from_json(j: &Json) -> (r: Option<ToolCall>)
        ensures
            match r {
                Some(v) => dec_tool_call(j.deep_view()) == Some(v.deep_view()),
                None => dec_tool_call(j.deep_view()) is None,
            },
    {
        let id = match j.get_string("toolCallId") {
            Some(s) => ToolCallId(s),
            None => {
                return None;
            },
        };
        let title = match j.get_string("title") {
            Some(t) => t,
            None => {
                return None;
            },
        };
        let kind = match j.get("kind") {
            None => ToolKind::Other,
            Some(kj) => match ToolKind::from_json(kj) {
                Some(k) => k,
                None => {
                    return None;
                },
            },
        };
        let status = match j.get("status") {
            None => ToolCallStatus::Pending,
            Some(sj) => match ToolCallStatus::from_json(sj) {
                Some(s) => s,
                None => {
                    return None;
                },
            },
        };
        let content = match j.get("content") {
            None => Vec::new(),
            Some(Json::Arr(items)) => match contents_from_json(items) {
                Some(c) => c,
                None => {
                    return None;
                },
            },
            Some(_) => {
                return None;
            },
        };
        let locations = match j.get("locations") {
            None => Vec::new(),
            Some(Json::Arr(items)) => match locations_from_json(items) {
                Some(l) => l,
                None => {
                    return None;
                },
            },
            Some(_) => {
                return None;
            },
        };
        let raw_input = match j.get("rawInput") {
            None => None,
            Some(Json::Null) => None,
            Some(v) => Some(v.deep_clone()),
        };
        let raw_output = match j.get("rawOutput") {
            None => None,
            Some(Json::Null) => None,
            Some(v) => Some(v.deep_clone()),
        };
        proof {
            assert(content@.len() == 0 ==> content.deep_view() =~= Seq::<
                ToolCallContentV,
            >::empty());
            assert(locations@.len() == 0 ==> locations.deep_view() =~= Seq::<
                ToolCallLocationV,
            >::empty());
        }
        Some(ToolCall { id, title, kind, status, content, locations, raw_input, raw_output })
    }
}

// ---------------------------------------------------------------------------
// Round-trip laws.
// ---------------------------------------------------------------------------

/// The lengths and distinguishing characters of this module's wire strings.
proof fn lemma_key_facts()
    ensures
        "toolCallId"@.len() == 10 && "toolCallId"@[0] == 't',
        "title"@.len() == 5 && "title"@[0] == 't',
        "kind"@.len() == 4 && "kind"@[0] == 'k',
        "status"@.len() == 6 && "status"@[0] == 's',
        "content"@.len() == 7 && "content"@[0] == 'c',
        "locations"@.len() == 9 && "locations"@[0] == 'l',
        "rawInput"@.len() == 8 && "rawInput"@[0] == 'r',
        "rawOutput"@.len() == 9 && "rawOutput"@[0] == 'r',
        "type"@.len() == 4 && "type"@[0] == 't',
        "path"@.len() == 4 && "path"@[0] == 'p',
        "oldText"@.len() == 7 && "oldText"@[0] == 'o',
        "newText"@.len() == 7 && "newText"@[0] == 'n',
        "line"@.len() == 4 && "line"@[0] == 'l',
        "diff"@.len() == 4 && "diff"@[0] == 'd',
        "ToolCallLocation"@.len() == 16,
        "read"@.len() == 4 && "read"@[0] == 'r',
        "edit"@.len() == 4 && "edit"@[0] == 'e',
        "delete"@.len() == 6 && "delete"@[0] == 'd',
        "move"@.len() == 4 && "move"@[0] == 'm',
        "search"@.len() == 6 && "search"@[0] == 's',
        "execute"@.len() == 7 && "execute"@[0] == 'e',
        "think"@.len() == 5 && "think"@[0] == 't',
        "fetch"@.len() == 5 && "fetch"@[0] == 'f',
        "other"@.len() == 5 && "other"@[0] == 'o',
        "pending"@.len() == 7 && "pending"@[0] == 'p',
        "in_progress"@.len() == 11,
        "completed"@.len() == 9 && "completed"@[0] == 'c',
        "failed"@.len() == 6 && "failed"@[0] == 'f',
{
    reveal_strlit("toolCallId");
    reveal_strlit("title");
    reveal_strlit("kind");
    reveal_strlit("status");
    reveal_strlit("content");
    reveal_strlit("locations");
    reveal_strlit("rawInput");
    reveal_strlit("rawOutput");
    reveal_strlit("type");
    reveal_strlit("path");
    reveal_strlit("oldText");
    reveal_strlit("newText");
    reveal_strlit("line");
    reveal_strlit("diff");
    reveal_strlit("ToolCallLocation");
    reveal_strlit("read");
    reveal_strlit("edit");
    reveal_strlit("delete");
    reveal_strlit("move");
    reveal_strlit("search");
    reveal_strlit("execute");
    reveal_strlit("think");
    reveal_strlit("fetch");
    reveal_strlit("other");
    reveal_strlit("pending");
    reveal_strlit("in_progress");
    reveal_strlit("completed");
    reveal_strlit("failed");
}

/// Kinds survive a round trip through their wire strings.
pub proof fn lemma_tool_kind_round_trip(k: ToolKind)
    ensures
        dec_tool_kind(enc_tool_kind(k)) == Some(k),
{
    lemma_key_facts();
}

/// Statuses survive a round trip through their wire strings.
pub proof fn lemma_lifecycle_status_round_trip(s: ToolCallStatus)
    ensures
        dec_lifecycle_status(enc_lifecycle_status(s)) == Some(s),
{
    lemma_key_facts();
}

/// A diff's fields decode back from any object that starts with unrelated
/// fields and ends with their encoding.
proof fn lemma_diff_fields_round_trip(pre: Seq<(Seq<char>, JsonV)>, d: DiffV)
    requires
        lookup_field(pre, "path"@) is None,
        lookup_field(pre, "oldText"@) is None,
        lookup_field(pre, "newText"@) is None,
    ensures
        dec_diff_fields(JsonV::Obj(pre + enc_diff_fields(d))) == Some(d),
{
    broadcast use lemma_lookup_concat, lemma_lookup_opt_field, lemma_lookup_singleton;

    lemma_key_facts();
}

/// Tool-call content items survive a round trip, for both variants.
pub proof fn lemma_tool_call_content_round_trip(c: ToolCallContentV)
    ensures
        dec_tool_call_content(enc_tool_call_content(c)) == Some(c),
{
    broadcast use lemma_lookup_concat, lemma_lookup_opt_field, lemma_lookup_singleton;

    lemma_key_facts();
    match c {
        ToolCallContentV::Content { content } => {
            crate::content::lemma_content_block_round_trip(content);
        },
        ToolCallContentV::Diff { diff } => {
            lemma_diff_fields_round_trip(seq![("type"@, JsonV::Str("diff"@))], diff);
        },
    }
}

/// Lists of content items survive a round trip.
pub proof fn lemma_tool_call_contents_round_trip(s: Seq<ToolCallContentV>)
    ensures
        dec_tool_call_contents(enc_tool_call_contents(s)) == Some(s),
    decreases s.len(),
{
    if s.len() == 0 {
        assert(enc_tool_call_contents(s).len() == 0);
        assert(s =~= Seq::<ToolCallContentV>::empty());
    } else {
        lemma_tool_call_contents_round_trip(s.drop_last());
        assert(enc_tool_call_contents(s).drop_last() =~= enc_tool_call_contents(s.drop_last()));
        assert(enc_tool_call_contents(s).last() == enc_tool_call_content(s.last()));
        lemma_tool_call_content_round_trip(s.last());
        assert(s.drop_last().push(s.last()) =~= s);
    }
}

/// Locations survive a round trip.
pub proof fn lemma_location_round_trip(v: ToolCallLocationV)
    ensures
        dec_location(enc_location(v)) == Some(v),
{
    broadcast use lemma_lookup_concat, lemma_lookup_opt_field, lemma_lookup_singleton;

    lemma_key_facts();
}

/// Lists of locations survive a round trip.
pub proof fn lemma_locations_round_trip(s: Seq<ToolCallLocationV>)
    ensures
        dec_locations(enc_locations(s)) == Some(s),
    decreases s.len(),
{
    if s.len() == 0 {
        assert(enc_locations(s).len() == 0);
        assert(s =~= Seq::<ToolCallLocationV>::empty());
    } else {
        lemma_locations_round_trip(s.drop_last());
        assert(enc_locations(s).drop_last() =~= enc_locations(s.drop_last()));
        assert(enc_locations(s).last() == enc_location(s.last()));
        lemma_location_round_trip(s.last());
        assert(s.drop_last().push(s.last()) =~= s);
    }
}

/// A record's fields decode back from any object that starts with
/// unrelated fields and ends with their encoding, with omitted defaults
/// coming back as defaults. The raw values must not be an explicit JSON
/// null: the wire form cannot tell a raw null apart from an absent raw
/// value.
pub proof fn lemma_tool_call_fields_round_trip(pre: Seq<(Seq<char>, JsonV)>, v: ToolCallV)
    requires
        v.raw_input != Some(JsonV::Null),
        v.raw_output != Some(JsonV::Null),
        lookup_field(pre, "toolCallId"@) is None,
        lookup_field(pre, "title"@) is None,
        lookup_field(pre, "kind"@) is None,
        lookup_field(pre, "status"@) is None,
        lookup_field(pre, "content"@) is None,
        lookup_field(pre, "locations"@) is None,
        lookup_field(pre, "rawInput"@) is None,
        lookup_field(pre, "rawOutput"@) is None,
    ensures
        dec_tool_call(JsonV::Obj(pre + enc_tool_call_fields(v))) == Some(v),
{
    broadcast use lemma_lookup_concat, lemma_lookup_opt_field, lemma_lookup_singleton;

    lemma_key_facts();
    lemma_tool_kind_round_trip(v.kind);
    lemma_lifecycle_status_round_trip(v.status);
    if v.content.len() > 0 {
        lemma_tool_call_contents_round_trip(v.content);
    } else {
        assert(v.content =~= Seq::<ToolCallContentV>::empty());
    }
    if v.locations.len() > 0 {
        lemma_locations_round_trip(v.locations);
    } else {
        assert(v.locations =~= Seq::<ToolCallLocationV>::empty());
    }
}

/// Full records survive a round trip, under the proviso of
/// [`lemma_tool_call_fields_round_trip`] on raw values.
pub proof fn lemma_tool_call_round_trip(v: ToolCallV)
    requires
        v.raw_input != Some(JsonV::Null),
        v.raw_output != Some(JsonV::Null),
    ensures
        dec_tool_call(enc_tool_call(v)) == Some(v),
{
    let pre = Seq::<(Seq<char>, JsonV)>::empty();
    lemma_tool_call_fields_round_trip(pre, v);
    assert(pre + enc_tool_call_fields(v) =~= enc_tool_call_fields(v));
}

// ---------------------------------------------------------------------------
// The partial-update codec.
// ---------------------------------------------------------------------------

/// The model of [`ToolCallUpdateFields`].
pub struct ToolCallUpdateFieldsV {
    pub kind: Option<ToolKind>,
    pub status: Option<ToolCallStatus>,
    pub title: Option<Seq<char>>,
    pub content: Option<Seq<ToolCallContentV>>,
    pub locations: Option<Seq<ToolCallLocationV>>,
    pub raw_input: Option<JsonV>,
    pub raw_output: Option<JsonV>,
}

impl DeepView for ToolCallUpdateFields {
    type V = ToolCallUpdateFieldsV;

    open spec fn deep_view(&self) -> ToolCallUpdateFieldsV {
        ToolCallUpdateFieldsV {
            kind: self.kind,
            status: self.status,
            title: self.title.deep_view(),
            content: self.content.deep_view(),
            locations: self.locations.deep_view(),
            raw_input: self.raw_input.deep_view(),
            raw_output: self.raw_output.deep_view(),
        }
    }
}

/// The model of [`ToolCallUpdate`].
pub struct ToolCallUpdateV {
    pub id: Seq<char>,
    pub fields: ToolCallUpdateFieldsV,
}

impl DeepView for ToolCallUpdate {
    type V = ToolCallUpdateV;

    open spec fn deep_view(&self) -> ToolCallUpdateV {
        ToolCallUpdateV { id: self.id.0@, fields: self.fields.deep_view() }
    }
}

/// The update's fields; each present field travels, each absent one is
/// omitted.
pub open spec fn enc_update_fields(v: ToolCallUpdateFieldsV) -> Seq<(Seq<char>, JsonV)> {
    opt_field_enc(
        "kind"@,
        match v.kind {
            Some(k) => Some(enc_tool_kind(k)),
            None => None,
        },
    ) + opt_field_enc(
        "status"@,
        match v.status {
            Some(s) => Some(enc_lifecycle_status(s)),
            None => None,
        },
    ) + opt_field_enc("title"@, crate::json::opt_str_enc(v.title)) + opt_field_enc(
        "content"@,
        match v.content {
            Some(c) => Some(JsonV::Arr(enc_tool_call_contents(c))),
            None => None,
        },
    ) + opt_field_enc(
        "locations"@,
        match v.locations {
            Some(l) => Some(JsonV::Arr(enc_locations(l))),
            None => None,
        },
    ) + opt_field_enc("rawInput"@, v.raw_input) + opt_field_enc("rawOutput"@, v.raw_output)
}

pub open spec fn dec_update_kind(j: JsonV) -> Option<Option<ToolKind>> {
    match get_field(j, "kind"@) {
        None => Some(None),
        Some(kj) => match dec_tool_kind(kj) {
            Some(k) => Some(Some(k)),
            None => None,
        },
    }
}

pub open spec fn dec_update_status(j: JsonV) -> Option<Option<ToolCallStatus>> {
    match get_field(j, "status"@) {
        None => Some(None),
        Some(sj) => match dec_lifecycle_status(sj) {
            Some(s) => Some(Some(s)),
            None => None,
        },
    }
}

pub open spec fn dec_update_content(j: JsonV) -> Option<Option<Seq<ToolCallContentV>>> {
    match get_field(j, "content"@) {
        None => Some(None),
        Some(JsonV::Arr(items)) => match dec_tool_call_contents(items) {
            Some(c) => Some(Some(c)),
            None => None,
        },
        Some(_) => None,
    }
}

pub open spec fn dec_update_locations(j: JsonV) -> Option<Option<Seq<ToolCallLocationV>>> {
    match get_field(j, "locations"@) {
        None => Some(None),
        Some(JsonV::Arr(items)) => match dec_locations(items) {
            Some(l) => Some(Some(l)),
            None => None,
        },
        Some(_) => None,
    }
}

pub open spec fn dec_update_fields(j: JsonV) -> Option<ToolCallUpdateFieldsV> {
    match (dec_update_kind(j), dec_update_status(j), opt_str_field(j, "title"@),
    dec_update_content(j), dec_update_locations(j)) {
        (Some(kind), Some(status), Some(title), Some(content), Some(locations)) => Some(
            ToolCallUpdateFieldsV {
                kind,
                status,
                title,
                content,
                locations,
                raw_input: raw_field(j, "rawInput"@),
                raw_output: raw_field(j, "rawOutput"@),
            },
        ),
        _ => None,
    }
}

/// An update travels as its id with the changed fields flattened beside it.
pub open spec fn enc_tool_call_update(v: ToolCallUpdateV) -> JsonV {
    JsonV::Obj(seq![("toolCallId"@, JsonV::Str(v.id))] + enc_update_fields(v.fields))
}

pub open spec fn dec_tool_call_update(j: JsonV) -> Option<ToolCallUpdateV> {
    match (req_str_field(j, "toolCallId"@), dec_update_fields(j)) {
        (Some(id), Some(fields)) => Some(ToolCallUpdateV { id, fields }),
        _ => None,
    }
}

impl ToolCallUpdateFields {
    /// Adds the present fields to an object under construction.
    #[verifier::rlimit(100)]
    #[verifier::spinoff_prover]
    pub fn push_fields(&self, fields: &mut Vec<(String, Json)>)
        ensures
            obj_views(final(fields)@) == obj_views(old(fields)@) + enc_update_fields(
                self.deep_view(),
            ),
    {
        let ghost base = obj_views(fields@);
        let ghost v = self.deep_view();
        let kj = match &self.kind {
            Some(k) => Some(k.to_json()),
            None => None,
        };
        push_opt_field(fields, "kind", kj);
        let sj = match &self.status {
            Some(s) => Some(s.to_json()),
            None => None,
        };
        push_opt_field(fields, "status", sj);
        let tj = match &self.title {
            Some(t) => Some(Json::Str(t.clone())),
            None => None,
        };
        push_opt_field(fields, "title", tj);
        let cj = match &self.content {
            Some(c) => Some(Json::Arr(contents_to_json(c))),
            None => None,
        };
        push_opt_field(fields, "content", cj);
        let lj = match &self.locations {
            Some(l) => Some(Json::Arr(locations_to_json(l))),
            None => None,
        };
        push_opt_field(fields, "locations", lj);
        let rij = match &self.raw_input {
            Some(w) => Some(w.deep_clone()),
            None => None,
        };
        push_opt_field(fields, "rawInput", rij);
        let roj = match &self.raw_output {
            Some(w) => Some(w.deep_clone()),
            None => None,
        };
        push_opt_field(fields, "rawOutput", roj);
        proof {
            assert(obj_views(fields@) =~= base + enc_update_fields(v));
        }
    }

    /// Decodes the present fields of an update object.
    pub fn from_json(j: &Json) -> (r: Option<ToolCallUpdateFields>)
        ensures
            match r {
                Some(v) => dec_update_fields(j.deep_view()) == Some(v.deep_view()),
                None => dec_update_fields(j.deep_view()) is None,
            },
    {
        let kind = match j.get("kind") {
            None => None,
            Some(kj) => match ToolKind::from_json(kj) {
                Some(k) => Some(k),
                None => {
                    return None;
                },
            },
        };
        let status = match j.get("status") {
            None => None,
            Some(sj) => match ToolCallStatus::from_json(sj) {
                Some(s) => Some(s),
                None => {
                    return None;
                },
            },
        };
        let title = match j.get_opt_string("title") {
            Ok(t) => t,
            Err(_) => {
                return None;
            },
        };
        let content = match j.get("content") {
            None => None,
            Some(Json::Arr(items)) => match contents_from_json(items) {
                Some(c) => Some(c),
                None => {
                    return None;
                },
            },
            Some(_) => {
                return None;
            },
        };
        let locations = match j.get("locations") {
            None => None,
            Some(Json::Arr(items)) => match locations_from_json(items) {
                Some(l) => Some(l),
                None => {
                    return None;
                },
            },
            Some(_) => {
                return None;
            },
        };
        let raw_input = match j.get("rawInput") {
            None => None,
            Some(Json::Null) => None,
            Some(v) => Some(v.deep_clone()),
        };
        let raw_output = match j.get("rawOutput") {
            None => None,
            Some(Json::Null) => None,
            Some(v) => Some(v.deep_clone()),
        };
        Some(
            ToolCallUpdateFields {
                kind,
                status,
                title,
                content,
                locations,
                raw_input,
                raw_output,
            },
        )
    }
}

impl ToolCallUpdate {
    /// Encodes this update: the id with the changed fields beside it.
    pub fn to_json(&self) -> (r: Json)
        ensures
            json_view(r) == enc_tool_call_update(self.deep_view()),
    {
        let mut out: Vec<(String, Json)> = Vec::new();
        push_field(&mut out, "toolCallId", Json::Str(self.id.0.clone()));
        self.fields.push_fields(&mut out);
        proof {
            assert(obj_views(out@) =~= seq![("toolCallId"@, JsonV::Str(self.id.0@))]
                + enc_update_fields(self.fields.deep_view()));
        }
        Json::Obj(out)
    }

    /// Decodes an update.
    pub fn from_json(j: &Json) -> (r: Option<ToolCallUpdate>)
        ensures
            match r {
                Some(v) => dec_tool_call_update(j.deep_view()) == Some(v.deep_view()),
                None => dec_tool_call_update(j.deep_view()) is None,
            },
    {
        let id = match j.get_string("toolCallId") {
            Some(s) => ToolCallId(s),
            None => {
                return None;
            },
        };
        match ToolCallUpdateFields::from_json(j) {
            Some(fields) => Some(ToolCallUpdate { id, fields }),
            None => None,
        }
    }
}

/// An update's fields decode back from any object that starts with
/// unrelated fields and ends with their encoding, under the proviso of
/// [`lemma_tool_call_fields_round_trip`] on raw values.
pub proof fn lemma_update_fields_round_trip(pre: Seq<(Seq<char>, JsonV)>, v: ToolCallUpdateFieldsV)
    requires
        v.raw_input != Some(JsonV::Null),
        v.raw_output != Some(JsonV::Null),
        lookup_field(pre, "kind"@) is None,
        lookup_field(pre, "status"@) is None,
        lookup_field(pre, "title"@) is None,
        lookup_field(pre, "content"@) is None,
        lookup_field(pre, "locations"@) is None,
        lookup_field(pre, "rawInput"@) is None,
        lookup_field(pre, "rawOutput"@) is None,
    ensures
        dec_update_fields(JsonV::Obj(pre + enc_update_fields(v))) == Some(v),
{
    broadcast use lemma_lookup_concat, lemma_lookup_opt_field, lemma_lookup_singleton;

    lemma_key_facts();
    match v.kind {
        Some(k) => lemma_tool_kind_round_trip(k),
        None => {},
    }
    match v.status {
        Some(s) => lemma_lifecycle_status_round_trip(s),
        None => {},
    }
    match v.content {
        Some(c) => lemma_tool_call_contents_round_trip(c),
        None => {},
    }
    match v.locations {
        Some(l) => lemma_locations_round_trip(l),
        None => {},
    }
}

/// Updates survive a round trip, under the same proviso on raw values.
pub proof fn lemma_tool_call_update_round_trip(v: ToolCallUpdateV)
    requires
        v.fields.raw_input != Some(JsonV::Null),
        v.fields.raw_output != Some(JsonV::Null),
    ensures
        dec_tool_call_update(enc_tool_call_update(v)) == Some(v),
{
    broadcast use lemma_lookup_concat, lemma_lookup_opt_field, lemma_lookup_singleton;

    lemma_key_facts();
    lemma_update_fields_round_trip(seq![("toolCallId"@, JsonV::Str(v.id))], v.fields);
}

} // verus!
