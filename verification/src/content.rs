//! Content blocks: the extensible union of displayable information shared
//! between prompts, streamed output, and tool-call content.
//!
//! A content block is wire-encoded as an object discriminated by an explicit
//! `type` field. The embedded-resource body is an *untagged* inner union that
//! a decoder disambiguates structurally: a `text` field makes it a text
//! resource, a `blob` field a blob resource, and a body carrying both is
//! rejected as ambiguous rather than guessed at.

use vstd::prelude::*;

use crate::json::{
    arr_views, get_field, json_view, lemma_arr_views_index, lemma_arr_views_push,
    lemma_lookup_concat, lemma_lookup_opt_field, lemma_lookup_singleton, lookup_field, obj_views,
    opt_field_enc, opt_int_field, opt_str_enc, opt_str_field, push_field, req_str_field, str_eq,
    Json, JsonV,
};

verus! {

/// The sender or recipient of messages and data in a conversation.
#[derive(Clone, Copy, Debug, PartialEq, Eq, Structural)]
pub enum Role {
    Assistant,
    User,
}

impl DeepView for Role {
    type V = Role;

    open spec fn deep_view(&self) -> Role {
        *self
    }
}

/// Optional annotations informing how an object is used or displayed.
#[derive(Clone, Debug, PartialEq)]
pub struct Annotations {
    pub audience: Option<Vec<Role>>,
    pub last_modified: Option<String>,
}

/// The model of [`Annotations`].
pub struct AnnotationsV {
    pub audience: Option<Seq<Role>>,
    pub last_modified: Option<Seq<char>>,
}

impl DeepView for Annotations {
    type V = AnnotationsV;

    open spec fn deep_view(&self) -> AnnotationsV {
        AnnotationsV {
            audience: self.audience.deep_view(),
            last_modified: self.last_modified.deep_view(),
        }
    }
}

/// Plain text content.
#[derive(Clone, Debug, PartialEq)]
pub struct TextContent {
    pub annotations: Option<Annotations>,
    pub text: String,
}

/// The model of [`TextContent`].
pub struct TextContentV {
    pub annotations: Option<AnnotationsV>,
    pub text: Seq<char>,
}

impl DeepView for TextContent {
    type V = TextContentV;

    open spec fn deep_view(&self) -> TextContentV {
        TextContentV { annotations: self.annotations.deep_view(), text: self.text@ }
    }
}

/// An image for visual context or analysis.
#[derive(Clone, Debug, PartialEq)]
pub struct ImageContent {
    pub annotations: Option<Annotations>,
    pub data: String,
    pub mime_type: String,
    pub uri: Option<String>,
}

/// The model of [`ImageContent`].
pub struct ImageContentV {
    pub annotations: Option<AnnotationsV>,
    pub data: Seq<char>,
    pub mime_type: Seq<char>,
    pub uri: Option<Seq<char>>,
}

impl DeepView for ImageContent {
    type V = ImageContentV;

    open spec fn deep_view(&self) -> ImageContentV {
        ImageContentV {
            annotations: self.annotations.deep_view(),
            data: self.data@,
            mime_type: self.mime_type@,
            uri: self.uri.deep_view(),
        }
    }
}

/// Audio data for transcription or analysis.
#[derive(Clone, Debug, PartialEq)]
pub struct AudioContent {
    pub annotations: Option<Annotations>,
    pub data: String,
    pub mime_type: String,
}

/// The model of [`AudioContent`].
pub struct AudioContentV {
    pub annotations: Option<AnnotationsV>,
    pub data: Seq<char>,
    pub mime_type: Seq<char>,
}

impl DeepView for AudioContent {
    type V = AudioContentV;

    open spec fn deep_view(&self) -> AudioContentV {
        AudioContentV {
            annotations: self.annotations.deep_view(),
            data: self.data@,
            mime_type: self.mime_type@,
        }
    }
}

/// A reference to a resource that the agent can access.
#[derive(Clone, Debug, PartialEq)]
pub struct ResourceLink {
    pub annotations: Option<Annotations>,
    pub description: Option<String>,
    pub mime_type: Option<String>,
    pub name: String,
    pub size: Option<i64>,
    pub title: Option<String>,
    pub uri: String,
}

/// The model of [`ResourceLink`].
pub struct ResourceLinkV {
    pub annotations: Option<AnnotationsV>,
    pub description: Option<Seq<char>>,
    pub mime_type: Option<Seq<char>>,
    pub name: Seq<char>,
    pub size: Option<i64>,
    pub title: Option<Seq<char>>,
    pub uri: Seq<char>,
}

impl DeepView for ResourceLink {
    type V = ResourceLinkV;

    open spec fn deep_view(&self) -> ResourceLinkV {
        ResourceLinkV {
            annotations: self.annotations.deep_view(),
            description: self.description.deep_view(),
            mime_type: self.mime_type.deep_view(),
            name: self.name@,
            size: self.size,
            title: self.title.deep_view(),
            uri: self.uri@,
        }
    }
}

/// Text-based resource contents.
#[derive(Clone, Debug, PartialEq)]
pub struct TextResourceContents {
    pub mime_type: Option<String>,
    pub text: String,
    pub uri: String,
}

/// The model of [`TextResourceContents`].
pub struct TextResourceContentsV {
    pub mime_type: Option<Seq<char>>,
    pub text: Seq<char>,
    pub uri: Seq<char>,
}

impl DeepView for TextResourceContents {
    type V = TextResourceContentsV;

    open spec fn deep_view(&self) -> TextResourceContentsV {
        TextResourceContentsV {
            mime_type: self.mime_type.deep_view(),
            text: self.text@,
            uri: self.uri@,
        }
    }
}

/// Binary resource contents, as a base64 blob.
#[derive(Clone, Debug, PartialEq)]
pub struct BlobResourceContents {
    pub blob: String,
    pub mime_type: Option<String>,
    pub uri: String,
}

/// The model of [`BlobResourceContents`].
pub struct BlobResourceContentsV {
    pub blob: Seq<char>,
    pub mime_type: Option<Seq<char>>,
    pub uri: Seq<char>,
}

impl DeepView for BlobResourceContents {
    type V = BlobResourceContentsV;

    open spec fn deep_view(&self) -> BlobResourceContentsV {
        BlobResourceContentsV {
            blob: self.blob@,
            mime_type: self.mime_type.deep_view(),
            uri: self.uri@,
        }
    }
}

/// A resource body embedded in a message: text-shaped or blob-shaped.
///
/// This inner union carries no wire-level tag; decoders tell the variants
/// apart by which required fields are present.
#[derive(Clone, Debug, PartialEq)]
pub enum EmbeddedResourceResource {
    TextResourceContents(TextResourceContents),
    BlobResourceContents(BlobResourceContents),
}

/// The model of [`EmbeddedResourceResource`].
pub enum EmbeddedResourceResourceV {
    TextResourceContents(TextResourceContentsV),
    BlobResourceContents(BlobResourceContentsV),
}

impl DeepView for EmbeddedResourceResource {
    type V = EmbeddedResourceResourceV;

    open spec fn deep_view(&self) -> EmbeddedResourceResourceV {
        match self {
            EmbeddedResourceResource::TextResourceContents(t) =>
                EmbeddedResourceResourceV::TextResourceContents(t.deep_view()),
            EmbeddedResourceResource::BlobResourceContents(b) =>
                EmbeddedResourceResourceV::BlobResourceContents(b.deep_view()),
        }
    }
}

/// Complete resource contents embedded directly in a message.
#[derive(Clone, Debug, PartialEq)]
pub struct EmbeddedResource {
    pub annotations: Option<Annotations>,
    pub resource: EmbeddedResourceResource,
}

/// The model of [`EmbeddedResource`].
pub struct EmbeddedResourceV {
    pub annotations: Option<AnnotationsV>,
    pub resource: EmbeddedResourceResourceV,
}

impl DeepView for EmbeddedResource {
    type V = EmbeddedResourceV;

    open spec fn deep_view(&self) -> EmbeddedResourceV {
        EmbeddedResourceV {
            annotations: self.annotations.deep_view(),
            resource: self.resource.deep_view(),
        }
    }
}

impl From<String> for ContentBlock {
    /// Plain text becomes an unannotated text block.
    fn from(value: String) -> Self {
        ContentBlock::Text(TextContent { annotations: None, text: value })
    }
}

impl vstd::std_specs::convert::FromSpecImpl<String> for ContentBlock {
    open spec fn obeys_from_spec() -> bool {
        true
    }

    open spec fn from_spec(value: String) -> Self {
        ContentBlock::Text(TextContent { annotations: None, text: value })
    }
}

/// Displayable content in the protocol: the extensible union used in
/// prompts, streamed chunks, and tool-call results.
#[derive(Clone, Debug, PartialEq)]
pub enum ContentBlock {
    Text(TextContent),
    Image(ImageContent),
    Audio(AudioContent),
    ResourceLink(ResourceLink),
    Resource(EmbeddedResource),
}

/// The model of [`ContentBlock`].
pub enum ContentBlockV {
    Text(TextContentV),
    Image(ImageContentV),
    Audio(AudioContentV),
    ResourceLink(ResourceLinkV),
    Resource(EmbeddedResourceV),
}

impl DeepView for ContentBlock {
    type V = ContentBlockV;

    open spec fn deep_view(&self) -> ContentBlockV {
        match self {
            ContentBlock::Text(v) => ContentBlockV::Text(v.deep_view()),
            ContentBlock::Image(v) => ContentBlockV::Image(v.deep_view()),
            ContentBlock::Audio(v) => ContentBlockV::Audio(v.deep_view()),
            ContentBlock::ResourceLink(v) => ContentBlockV::ResourceLink(v.deep_view()),
            ContentBlock::Resource(v) => ContentBlockV::Resource(v.deep_view()),
        }
    }
}

// ---------------------------------------------------------------------------
// Wire encodings, as models.
//
// Every encoded field list is a concatenation of one-field (or empty)
// segments, so lookups evaluate uniformly. Optional fields are omitted when
// absent, never emitted as null; decoders ignore unknown fields.
// ---------------------------------------------------------------------------

pub open spec fn enc_role(r: Role) -> JsonV {
    match r {
        Role::Assistant => JsonV::Str("assistant"@),
        Role::User => JsonV::Str("user"@),
    }
}

pub open spec fn dec_role(j: JsonV) -> Option<Role> {
    match j {
        JsonV::Str(s) => if s == "assistant"@ {
            Some(Role::Assistant)
        } else if s == "user"@ {
            Some(Role::User)
        } else {
            None
        },
        _ => None,
    }
}

pub open spec fn enc_roles(s: Seq<Role>) -> Seq<JsonV> {
    s.map_values(|r: Role| enc_role(r))
}

pub open spec fn dec_roles(items: Seq<JsonV>) -> Option<Seq<Role>>
    decreases items.len(),
{
    if items.len() == 0 {
        Some(Seq::empty())
    } else {
        match (dec_roles(items.drop_last()), dec_role(items.last())) {
            (Some(s), Some(r)) => Some(s.push(r)),
            _ => None,
        }
    }
}

pub open spec fn enc_annotations(a: AnnotationsV) -> JsonV {
    JsonV::Obj(
        opt_field_enc(
            "audience"@,
            match a.audience {
                Some(s) => Some(JsonV::Arr(enc_roles(s))),
                None => None,
            },
        ) + opt_field_enc("lastModified"@, opt_str_enc(a.last_modified)),
    )
}

pub open spec fn dec_audience(j: JsonV) -> Option<Option<Seq<Role>>> {
    match get_field(j, "audience"@) {
        None => Some(None),
        Some(JsonV::Arr(items)) => match dec_roles(items) {
            Some(rs) => Some(Some(rs)),
            None => None,
        },
        Some(_) => None,
    }
}

pub open spec fn dec_annotations(j: JsonV) -> Option<AnnotationsV> {
    if !(j is Obj) {
        None
    } else {
        match (dec_audience(j), opt_str_field(j, "lastModified"@)) {
            (Some(aud), Some(lm)) => Some(AnnotationsV { audience: aud, last_modified: lm }),
            _ => None,
        }
    }
}

pub open spec fn enc_annotations_opt(a: Option<AnnotationsV>) -> Seq<(Seq<char>, JsonV)> {
    opt_field_enc(
        "annotations"@,
        match a {
            Some(av) => Some(enc_annotations(av)),
            None => None,
        },
    )
}

pub open spec fn dec_opt_annotations(j: JsonV) -> Option<Option<AnnotationsV>> {
    match get_field(j, "annotations"@) {
        None => Some(None),
        Some(aj) => match dec_annotations(aj) {
            Some(a) => Some(Some(a)),
            None => None,
        },
    }
}

pub open spec fn enc_text_fields(v: TextContentV) -> Seq<(Seq<char>, JsonV)> {
    enc_annotations_opt(v.annotations) + seq![("text"@, JsonV::Str(v.text))]
}

pub open spec fn dec_text_fields(j: JsonV) -> Option<TextContentV> {
    match (dec_opt_annotations(j), req_str_field(j, "text"@)) {
        (Some(a), Some(t)) => Some(TextContentV { annotations: a, text: t }),
        _ => None,
    }
}

pub open spec fn enc_image_fields(v: ImageContentV) -> Seq<(Seq<char>, JsonV)> {
    enc_annotations_opt(v.annotations) + seq![("data"@, JsonV::Str(v.data))]
        + seq![("mimeType"@, JsonV::Str(v.mime_type))] + opt_field_enc(
        "uri"@,
        opt_str_enc(v.uri),
    )
}

pub open spec fn dec_image_fields(j: JsonV) -> Option<ImageContentV> {
    match (dec_opt_annotations(j), req_str_field(j, "data"@), req_str_field(j, "mimeType"@),
    opt_str_field(j, "uri"@)) {
        (Some(a), Some(d), Some(m), Some(u)) => Some(
            ImageContentV { annotations: a, data: d, mime_type: m, uri: u },
        ),
        _ => None,
    }
}

pub open spec fn enc_audio_fields(v: AudioContentV) -> Seq<(Seq<char>, JsonV)> {
    enc_annotations_opt(v.annotations) + seq![("data"@, JsonV::Str(v.data))]
        + seq![("mimeType"@, JsonV::Str(v.mime_type))]
}

pub open spec fn dec_audio_fields(j: JsonV) -> Option<AudioContentV> {
    match (dec_opt_annotations(j), req_str_field(j, "data"@), req_str_field(j, "mimeType"@)) {
        (Some(a), Some(d), Some(m)) => Some(AudioContentV { annotations: a, data: d, mime_type: m }),
        _ => None,
    }
}

pub open spec fn enc_size(s: Option<i64>) -> Option<JsonV> {
    match s {
        Some(i) => Some(JsonV::Int(i as int)),
        None => None,
    }
}

pub open spec fn dec_size(j: JsonV) -> Option<Option<i64>> {
    match opt_int_field(j, "size"@) {
        Some(None) => Some(None),
        Some(Some(i)) => if i64::MIN <= i <= i64::MAX {
            Some(Some(i as i64))
        } else {
            None
        },
        None => None,
    }
}

pub open spec fn enc_resource_link_fields(v: ResourceLinkV) -> Seq<(Seq<char>, JsonV)> {
    enc_annotations_opt(v.annotations) + opt_field_enc("description"@, opt_str_enc(v.description))
        + opt_field_enc("mimeType"@, opt_str_enc(v.mime_type)) + seq![("name"@, JsonV::Str(v.name))]
        + opt_field_enc("size"@, enc_size(v.size)) + opt_field_enc("title"@, opt_str_enc(v.title))
        + seq![("uri"@, JsonV::Str(v.uri))]
}

pub open spec fn dec_resource_link_fields(j: JsonV) -> Option<ResourceLinkV> {
    match (dec_opt_annotations(j), opt_str_field(j, "description"@), opt_str_field(j, "mimeType"@),
    req_str_field(j, "name"@), dec_size(j), opt_str_field(j, "title"@), req_str_field(j, "uri"@)) {
        (Some(a), Some(d), Some(m), Some(n), Some(s), Some(t), Some(u)) => Some(
            ResourceLinkV {
                annotations: a,
                description: d,
                mime_type: m,
                name: n,
                size: s,
                title: t,
                uri: u,
            },
        ),
        _ => None,
    }
}

pub open spec fn enc_text_resource_fields(v: TextResourceContentsV) -> Seq<(Seq<char>, JsonV)> {
    opt_field_enc("mimeType"@, opt_str_enc(v.mime_type)) + seq![("text"@, JsonV::Str(v.text))]
        + seq![("uri"@, JsonV::Str(v.uri))]
}

pub open spec fn dec_text_resource_fields(j: JsonV) -> Option<TextResourceContentsV> {
    match (opt_str_field(j, "mimeType"@), req_str_field(j, "text"@), req_str_field(j, "uri"@)) {
        (Some(m), Some(t), Some(u)) => Some(
            TextResourceContentsV { mime_type: m, text: t, uri: u },
        ),
        _ => None,
    }
}

pub open spec fn enc_blob_resource_fields(v: BlobResourceContentsV) -> Seq<(Seq<char>, JsonV)> {
    seq![("blob"@, JsonV::Str(v.blob))] + opt_field_enc("mimeType"@, opt_str_enc(v.mime_type))
        + seq![("uri"@, JsonV::Str(v.uri))]
}

pub open spec fn dec_blob_resource_fields(j: JsonV) -> Option<BlobResourceContentsV> {
    match (req_str_field(j, "blob"@), opt_str_field(j, "mimeType"@), req_str_field(j, "uri"@)) {
        (Some(b), Some(m), Some(u)) => Some(BlobResourceContentsV { blob: b, mime_type: m, uri: u }),
        _ => None,
    }
}

pub open spec fn enc_resource(r: EmbeddedResourceResourceV) -> JsonV {
    match r {
        EmbeddedResourceResourceV::TextResourceContents(t) => JsonV::Obj(
            enc_text_resource_fields(t),
        ),
        EmbeddedResourceResourceV::BlobResourceContents(b) => JsonV::Obj(
            enc_blob_resource_fields(b),
        ),
    }
}

/// The structural disambiguation of the untagged resource body: a `text`
/// field selects the text variant, a `blob` field the blob variant, and a
/// body carrying both is rejected as ambiguous.
pub open spec fn dec_resource(j: JsonV) -> Option<EmbeddedResourceResourceV> {
    if !(j is Obj) {
        None
    } else if get_field(j, "text"@) is Some && get_field(j, "blob"@) is Some {
        None
    } else if get_field(j, "text"@) is Some {
        match dec_text_resource_fields(j) {
            Some(t) => Some(EmbeddedResourceResourceV::TextResourceContents(t)),
            None => None,
        }
    } else if get_field(j, "blob"@) is Some {
        match dec_blob_resource_fields(j) {
            Some(b) => Some(EmbeddedResourceResourceV::BlobResourceContents(b)),
            None => None,
        }
    } else {
        None
    }
}

pub open spec fn enc_embedded_fields(v: EmbeddedResourceV) -> Seq<(Seq<char>, JsonV)> {
    enc_annotations_opt(v.annotations) + seq![("resource"@, enc_resource(v.resource))]
}

pub open spec fn dec_embedded_fields(j: JsonV) -> Option<EmbeddedResourceV> {
    match (dec_opt_annotations(j), get_field(j, "resource"@)) {
        (Some(a), Some(rj)) => match dec_resource(rj) {
            Some(r) => Some(EmbeddedResourceV { annotations: a, resource: r }),
            None => None,
        },
        _ => None,
    }
}

/// The tagged encoding of a content block: a `type` field followed by the
/// variant's own fields.
pub open spec fn enc_content_block(v: ContentBlockV) -> JsonV {
    match v {
        ContentBlockV::Text(t) => JsonV::Obj(
            seq![("type"@, JsonV::Str("text"@))] + enc_text_fields(t),
        ),
        ContentBlockV::Image(i) => JsonV::Obj(
            seq![("type"@, JsonV::Str("image"@))] + enc_image_fields(i),
        ),
        ContentBlockV::Audio(a) => JsonV::Obj(
            seq![("type"@, JsonV::Str("audio"@))] + enc_audio_fields(a),
        ),
        ContentBlockV::ResourceLink(r) => JsonV::Obj(
            seq![("type"@, JsonV::Str("resource_link"@))] + enc_resource_link_fields(r),
        ),
        ContentBlockV::Resource(e) => JsonV::Obj(
            seq![("type"@, JsonV::Str("resource"@))] + enc_embedded_fields(e),
        ),
    }
}

pub open spec fn dec_content_block(j: JsonV) -> Option<ContentBlockV> {
    match req_str_field(j, "type"@) {
        Some(tag) => if tag == "text"@ {
            match dec_text_fields(j) {
                Some(t) => Some(ContentBlockV::Text(t)),
                None => None,
            }
        } else if tag == "image"@ {
            match dec_image_fields(j) {
                Some(i) => Some(ContentBlockV::Image(i)),
                None => None,
            }
        } else if tag == "audio"@ {
            match dec_audio_fields(j) {
                Some(a) => Some(ContentBlockV::Audio(a)),
                None => None,
            }
        } else if tag == "resource_link"@ {
            match dec_resource_link_fields(j) {
                Some(r) => Some(ContentBlockV::ResourceLink(r)),
                None => None,
            }
        } else if tag == "resource"@ {
            match dec_embedded_fields(j) {
                Some(e) => Some(ContentBlockV::Resource(e)),
                None => None,
            }
        } else {
            None
        },
        None => None,
    }
}

// ---------------------------------------------------------------------------
// Executable codec.
// ---------------------------------------------------------------------------

impl Role {
    /// Encodes this role as its wire string.
    pub fn to_json(&self) -> (r: Json)
        ensures
            json_view(r) == enc_role(*self),
    {
        match self {
            Role::Assistant => Json::Str("assistant".to_owned()),
            Role::User => Json::Str("user".to_owned()),
        }
    }

    /// Decodes a role from its wire string.
    pub fn from_json(j: &Json) -> (r: Option<Role>)
        ensures
            match r {
                Some(v) => dec_role(j.deep_view()) == Some(v),
                None => dec_role(j.deep_view()) is None,
            },
    {
        match j {
            Json::Str(s) => if str_eq(s.as_str(), "assistant") {
                Some(Role::Assistant)
            } else if str_eq(s.as_str(), "user") {
                Some(Role::User)
            } else {
                None
            },
            _ => None,
        }
    }
}

/// If any element fails to decode as a role, the whole list fails.
proof fn lemma_dec_roles_fail(items: Seq<JsonV>, i: int)
    requires
        0 <= i < items.len(),
        dec_role(items[i]) is None,
    ensures
        dec_roles(items) is None,
    decreases items.len(),
{
    if items.len() > 0 && i < items.len() - 1 {
        assert(items.drop_last()[i] == items[i]);
        lemma_dec_roles_fail(items.drop_last(), i);
    }
}

fn roles_to_json(roles: &Vec<Role>) -> (r: Vec<Json>)
    ensures
        arr_views(r@) == enc_roles(roles.deep_view()),
{
    let ghost dv = roles.deep_view();
    let mut out: Vec<Json> = Vec::new();
    proof {
        assert(arr_views(out@) =~= enc_roles(dv.take(0)));
    }
    let mut i: usize = 0;
    while i < roles.len()
        invariant
            i <= roles.len(),
            dv == roles.deep_view(),
            dv.len() == roles@.len(),
            forall|k: int| 0 <= k < dv.len() ==> #[trigger] dv[k] == roles@[k],
            arr_views(out@) == enc_roles(dv.take(i as int)),
        decreases roles@.len() - i,
    {
        let rj = roles[i].to_json();
        proof {
            lemma_arr_views_push(out@, rj);
            assert(enc_roles(dv.take(i as int)).push(enc_role(dv[i as int])) =~= enc_roles(
                dv.take(i as int + 1),
            ));
        }
        out.push(rj);
        i += 1;
    }
    proof {
        assert(dv.take(dv.len() as int) =~= dv);
    }
    out
}

fn roles_from_json(items: &Vec<Json>) -> (r: Option<Vec<Role>>)
    ensures
        match r {
            Some(v) => dec_roles(arr_views(items@)) == Some(v.deep_view()),
            None => dec_roles(arr_views(items@)) is None,
        },
{
    let ghost views = arr_views(items@);
    proof {
        lemma_arr_views_index(items@);
    }
    let mut out: Vec<Role> = Vec::new();
    proof {
        assert(views.take(0) =~= Seq::<JsonV>::empty());
        assert(out.deep_view() =~= Seq::<Role>::empty());
    }
    let mut i: usize = 0;
    while i < items.len()
        invariant
            i <= items.len(),
            views == arr_views(items@),
            views.len() == items@.len(),
            forall|k: int| 0 <= k < views.len() ==> #[trigger] views[k] == json_view(items@[k]),
            dec_roles(views.take(i as int)) == Some(out.deep_view()),
        decreases items@.len() - i,
    {
        match Role::from_json(&items[i]) {
            Some(ro) => {
                let ghost prev = out.deep_view();
                proof {
                    assert(views.take(i as int + 1).drop_last() =~= views.take(i as int));
                    assert(views.take(i as int + 1).last() == views[i as int]);
                }
                out.push(ro);
                proof {
                    assert(out.deep_view() =~= prev.push(ro));
                }
            },
            None => {
                proof {
                    lemma_dec_roles_fail(views, i as int);
                }
                return None;
            },
        }
        i += 1;
    }
    proof {
        assert(views.take(views.len() as int) =~= views);
    }
    Some(out)
}

/// Adds the field that encodes an optional set of annotations.
fn push_annotations(a: &Option<Annotations>, fields: &mut Vec<(String, Json)>)
    ensures
        obj_views(final(fields)@) == obj_views(old(fields)@) + enc_annotations_opt(a.deep_view()),
{
    match a {
        Some(ann) => {
            let aj = ann.to_json();
            push_field(fields, "annotations", aj);
            proof {
                assert(obj_views(fields@) =~= obj_views(old(fields)@) + enc_annotations_opt(
                    a.deep_view(),
                ));
            }
        },
        None => {
            proof {
                assert(obj_views(fields@) =~= obj_views(fields@) + enc_annotations_opt(
                    a.deep_view(),
                ));
            }
        },
    }
}

/// Decodes the optional `annotations` field of an enclosing object.
fn decode_opt_annotations(j: &Json) -> (r: Result<Option<Annotations>, ()>)
    ensures
        match r {
            Ok(o) => dec_opt_annotations(j.deep_view()) == Some(o.deep_view()),
            Err(_) => dec_opt_annotations(j.deep_view()) is None,
        },
{
    match j.get("annotations") {
        None => Ok(None),
        Some(aj) => match Annotations::from_json(aj) {
            Some(a) => Ok(Some(a)),
            None => Err(()),
        },
    }
}

impl Annotations {
    /// Encodes these annotations as an object.
    pub fn to_json(&self) -> (r: Json)
        ensures
            json_view(r) == enc_annotations(self.deep_view()),
    {
        let mut fields: Vec<(String, Json)> = Vec::new();
        match &self.audience {
            Some(roles) => {
                let rj = roles_to_json(roles);
                push_field(&mut fields, "audience", Json::Arr(rj));
            },
            None => {},
        }
        match &self.last_modified {
            Some(lm) => push_field(&mut fields, "lastModified", Json::Str(lm.clone())),
            None => {},
        }
        proof {
            assert(obj_views(fields@) =~= opt_field_enc(
                "audience"@,
                match self.deep_view().audience {
                    Some(s) => Some(JsonV::Arr(enc_roles(s))),
                    None => None,
                },
            ) + opt_field_enc("lastModified"@, opt_str_enc(self.deep_view().last_modified)));
        }
        Json::Obj(fields)
    }

    /// Decodes annotations from an object.
    pub fn from_json(j: &Json) -> (r: Option<Annotations>)
        ensures
            match r {
                Some(v) => dec_annotations(j.deep_view()) == Some(v.deep_view()),
                None => dec_annotations(j.deep_view()) is None,
            },
    {
        match j {
            Json::Obj(_) => {},
            _ => {
                return None;
            },
        }
        let audience = match j.get("audience") {
            None => None,
            Some(Json::Arr(items)) => match roles_from_json(items) {
                Some(rs) => Some(rs),
                None => {
                    return None;
                },
            },
            Some(_) => {
                return None;
            },
        };
        let last_modified = match j.get_opt_string("lastModified") {
            Ok(o) => o,
            Err(_) => {
                return None;
            },
        };
        Some(Annotations { audience, last_modified })
    }
}

impl TextContent {
    /// Adds this block's own fields to an object under construction.
    pub fn push_fields(&self, fields: &mut Vec<(String, Json)>)
        ensures
            obj_views(final(fields)@) == obj_views(old(fields)@) + enc_text_fields(
                self.deep_view(),
            ),
    {
        push_annotations(&self.annotations, fields);
        push_field(fields, "text", Json::Str(self.text.clone()));
        proof {
            assert(obj_views(fields@) =~= obj_views(old(fields)@) + enc_text_fields(
                self.deep_view(),
            ));
        }
    }

    /// Decodes this block's fields from an object, ignoring unknown fields.
    pub fn from_json(j: &Json) -> (r: Option<TextContent>)
        ensures
            match r {
                Some(v) => dec_text_fields(j.deep_view()) == Some(v.deep_view()),
                None => dec_text_fields(j.deep_view()) is None,
            },
    {
        let annotations = match decode_opt_annotations(j) {
            Ok(a) => a,
            Err(_) => {
                return None;
            },
        };
        let text = match j.get_string("text") {
            Some(t) => t,
            None => {
                return None;
            },
        };
        Some(TextContent { annotations, text })
    }
}

impl ImageContent {
    /// Adds this block's own fields to an object under construction.
    pub fn push_fields(&self, fields: &mut Vec<(String, Json)>)
        ensures
            obj_views(final(fields)@) == obj_views(old(fields)@) + enc_image_fields(
                self.deep_view(),
            ),
    {
        push_annotations(&self.annotations, fields);
        push_field(fields, "data", Json::Str(self.data.clone()));
        push_field(fields, "mimeType", Json::Str(self.mime_type.clone()));
        match &self.uri {
            Some(u) => push_field(fields, "uri", Json::Str(u.clone())),
            None => {},
        }
        proof {
            assert(obj_views(fields@) =~= obj_views(old(fields)@) + enc_image_fields(
                self.deep_view(),
            ));
        }
    }

    /// Decodes this block's fields from an object, ignoring unknown fields.
    pub fn from_json(j: &Json) -> (r: Option<ImageContent>)
        ensures
            match r {
                Some(v) => dec_image_fields(j.deep_view()) == Some(v.deep_view()),
                None => dec_image_fields(j.deep_view()) is None,
            },
    {
        let annotations = match decode_opt_annotations(j) {
            Ok(a) => a,
            Err(_) => {
                return None;
            },
        };
        let data = match j.get_string("data") {
            Some(d) => d,
            None => {
                return None;
            },
        };
        let mime_type = match j.get_string("mimeType") {
            Some(m) => m,
            None => {
                return None;
            },
        };
        let uri = match j.get_opt_string("uri") {
            Ok(u) => u,
            Err(_) => {
                return None;
            },
        };
        Some(ImageContent { annotations, data, mime_type, uri })
    }
}

impl AudioContent {
    /// Adds this block's own fields to an object under construction.
    pub fn push_fields(&self, fields: &mut Vec<(String, Json)>)
        ensures
            obj_views(final(fields)@) == obj_views(old(fields)@) + enc_audio_fields(
                self.deep_view(),
            ),
    {
        push_annotations(&self.annotations, fields);
        push_field(fields, "data", Json::Str(self.data.clone()));
        push_field(fields, "mimeType", Json::Str(self.mime_type.clone()));
        proof {
            assert(obj_views(fields@) =~= obj_views(old(fields)@) + enc_audio_fields(
                self.deep_view(),
            ));
        }
    }

    /// Decodes this block's fields from an object, ignoring unknown fields.
    pub fn from_json(j: &Json) -> (r: Option<AudioContent>)
        ensures
            match r {
                Some(v) => dec_audio_fields(j.deep_view()) == Some(v.deep_view()),
                None => dec_audio_fields(j.deep_view()) is None,
            },
    {
        let annotations = match decode_opt_annotations(j) {
            Ok(a) => a,
            Err(_) => {
                return None;
            },
        };
        let data = match j.get_string("data") {
            Some(d) => d,
            None => {
                return None;
            },
        };
        let mime_type = match j.get_string("mimeType") {
            Some(m) => m,
            None => {
                return None;
            },
        };
        Some(AudioContent { annotations, data, mime_type })
    }
}

impl ResourceLink {
    /// Adds this block's own fields to an object under construction.
    #[verifier::rlimit(50)]
    pub fn push_fields(&self, fields: &mut Vec<(String, Json)>)
        ensures
            obj_views(final(fields)@) == obj_views(old(fields)@) + enc_resource_link_fields(
                self.deep_view(),
            ),
    {
        push_annotations(&self.annotations, fields);
        match &self.description {
            Some(d) => push_field(fields, "description", Json::Str(d.clone())),
            None => {},
        }
        match &self.mime_type {
            Some(m) => push_field(fields, "mimeType", Json::Str(m.clone())),
            None => {},
        }
        push_field(fields, "name", Json::Str(self.name.clone()));
        match &self.size {
            Some(s) => push_field(fields, "size", Json::Int(*s as i128)),
            None => {},
        }
        match &self.title {
            Some(t) => push_field(fields, "title", Json::Str(t.clone())),
            None => {},
        }
        push_field(fields, "uri", Json::Str(self.uri.clone()));
        proof {
            assert(obj_views(fields@) =~= obj_views(old(fields)@) + enc_resource_link_fields(
                self.deep_view(),
            ));
        }
    }

    /// Decodes this block's fields from an object, ignoring unknown fields.
    pub fn from_json(j: &Json) -> (r: Option<ResourceLink>)
        ensures
            match r {
                Some(v) => dec_resource_link_fields(j.deep_view()) == Some(v.deep_view()),
                None => dec_resource_link_fields(j.deep_view()) is None,
            },
    {
        let annotations = match decode_opt_annotations(j) {
            Ok(a) => a,
            Err(_) => {
                return None;
            },
        };
        let description = match j.get_opt_string("description") {
            Ok(d) => d,
            Err(_) => {
                return None;
            },
        };
        let mime_type = match j.get_opt_string("mimeType") {
            Ok(m) => m,
            Err(_) => {
                return None;
            },
        };
        let name = match j.get_string("name") {
            Some(n) => n,
            None => {
                return None;
            },
        };
        let size = match j.get_opt_int("size") {
            Ok(None) => None,
            Ok(Some(i)) => {
                if i < i64::MIN as i128 || i > i64::MAX as i128 {
                    return None;
                }
                Some(i as i64)
            },
            Err(_) => {
                return None;
            },
        };
        let title = match j.get_opt_string("title") {
            Ok(t) => t,
            Err(_) => {
                return None;
            },
        };
        let uri = match j.get_string("uri") {
            Some(u) => u,
            None => {
                return None;
            },
        };
        Some(ResourceLink { annotations, description, mime_type, name, size, title, uri })
    }
}

impl TextResourceContents {
    /// Encodes this resource body as an object.
    pub fn to_json(&self) -> (r: Json)
        ensures
            json_view(r) == JsonV::Obj(enc_text_resource_fields(self.deep_view())),
    {
        let mut fields: Vec<(String, Json)> = Vec::new();
        match &self.mime_type {
            Some(m) => push_field(&mut fields, "mimeType", Json::Str(m.clone())),
            None => {},
        }
        push_field(&mut fields, "text", Json::Str(self.text.clone()));
        push_field(&mut fields, "uri", Json::Str(self.uri.clone()));
        proof {
            assert(obj_views(fields@) =~= enc_text_resource_fields(self.deep_view()));
        }
        Json::Obj(fields)
    }

    /// Decodes this resource body's fields from an object.
    pub fn from_json(j: &Json) -> (r: Option<TextResourceContents>)
        ensures
            match r {
                Some(v) => dec_text_resource_fields(j.deep_view()) == Some(v.deep_view()),
                None => dec_text_resource_fields(j.deep_view()) is None,
            },
    {
        let mime_type = match j.get_opt_string("mimeType") {
            Ok(m) => m,
            Err(_) => {
                return None;
            },
        };
        let text = match j.get_string("text") {
            Some(t) => t,
            None => {
                return None;
            },
        };
        let uri = match j.get_string("uri") {
            Some(u) => u,
            None => {
                return None;
            },
        };
        Some(TextResourceContents { mime_type, text, uri })
    }
}

impl BlobResourceContents {
    /// Encodes this resource body as an object.
    pub fn to_json(&self) -> (r: Json)
        ensures
            json_view(r) == JsonV::Obj(enc_blob_resource_fields(self.deep_view())),
    {
        let mut fields: Vec<(String, Json)> = Vec::new();
        push_field(&mut fields, "blob", Json::Str(self.blob.clone()));
        match &self.mime_type {
            Some(m) => push_field(&mut fields, "mimeType", Json::Str(m.clone())),
            None => {},
        }
        push_field(&mut fields, "uri", Json::Str(self.uri.clone()));
        proof {
            assert(obj_views(fields@) =~= enc_blob_resource_fields(self.deep_view()));
        }
        Json::Obj(fields)
    }

    /// Decodes this resource body's fields from an object.
    pub fn from_json(j: &Json) -> (r: Option<BlobResourceContents>)
        ensures
            match r {
                Some(v) => dec_blob_resource_fields(j.deep_view()) == Some(v.deep_view()),
                None => dec_blob_resource_fields(j.deep_view()) is None,
            },
    {
        let blob = match j.get_string("blob") {
            Some(b) => b,
            None => {
                return None;
            },
        };
        let mime_type = match j.get_opt_string("mimeType") {
            Ok(m) => m,
            Err(_) => {
                return None;
            },
        };
        let uri = match j.get_string("uri") {
            Some(u) => u,
            None => {
                return None;
            },
        };
        Some(BlobResourceContents { blob, mime_type, uri })
    }
}

impl EmbeddedResourceResource {
    /// Encodes this untagged resource body.
    pub fn to_json(&self) -> (r: Json)
        ensures
            json_view(r) == enc_resource(self.deep_view()),
    {
        match self {
            EmbeddedResourceResource::TextResourceContents(t) => t.to_json(),
            EmbeddedResourceResource::BlobResourceContents(b) => b.to_json(),
        }
    }

    /// Decodes the untagged resource body, disambiguating structurally: a
    /// `text` field selects the text variant, a `blob` field the blob
    /// variant, and a body carrying both is rejected as ambiguous.
    pub fn from_json(j: &Json) -> (r: Option<EmbeddedResourceResource>)
        ensures
            match r {
                Some(v) => dec_resource(j.deep_view()) == Some(v.deep_view()),
                None => dec_resource(j.deep_view()) is None,
            },
    {
        match j {
            Json::Obj(_) => {},
            _ => {
                return None;
            },
        }
        let has_text = match j.get("text") {
            Some(_) => true,
            None => false,
        };
        let has_blob = match j.get("blob") {
            Some(_) => true,
            None => false,
        };
        if has_text && has_blob {
            None
        } else if has_text {
            match TextResourceContents::from_json(j) {
                Some(t) => Some(EmbeddedResourceResource::TextResourceContents(t)),
                None => None,
            }
        } else if has_blob {
            match BlobResourceContents::from_json(j) {
                Some(b) => Some(EmbeddedResourceResource::BlobResourceContents(b)),
                None => None,
            }
        } else {
            None
        }
    }
}

impl EmbeddedResource {
    /// Adds this block's own fields to an object under construction.
    pub fn push_fields(&self, fields: &mut Vec<(String, Json)>)
        ensures
            obj_views(final(fields)@) == obj_views(old(fields)@) + enc_embedded_fields(
                self.deep_view(),
            ),
    {
        push_annotations(&self.annotations, fields);
        let rj = self.resource.to_json();
        push_field(fields, "resource", rj);
        proof {
            assert(obj_views(fields@) =~= obj_views(old(fields)@) + enc_embedded_fields(
                self.deep_view(),
            ));
        }
    }

    /// Decodes this block's fields from an object, ignoring unknown fields.
    pub fn from_json(j: &Json) -> (r: Option<EmbeddedResource>)
        ensures
            match r {
                Some(v) => dec_embedded_fields(j.deep_view()) == Some(v.deep_view()),
                None => dec_embedded_fields(j.deep_view()) is None,
            },
    {
        let annotations = match decode_opt_annotations(j) {
            Ok(a) => a,
            Err(_) => {
                return None;
            },
        };
        let resource = match j.get("resource") {
            Some(rj) => match EmbeddedResourceResource::from_json(rj) {
                Some(res) => res,
                None => {
                    return None;
                },
            },
            None => {
                return None;
            },
        };
        Some(EmbeddedResource { annotations, resource })
    }
}

impl ContentBlock {
    /// Encodes this block as a `type`-tagged object.
    pub fn to_json(&self) -> (r: Json)
        ensures
            json_view(r) == enc_content_block(self.deep_view()),
    {
        let mut fields: Vec<(String, Json)> = Vec::new();
        match self {
            ContentBlock::Text(t) => {
                push_field(&mut fields, "type", Json::Str("text".to_owned()));
                t.push_fields(&mut fields);
                proof {
                    assert(obj_views(fields@) =~= seq![("type"@, JsonV::Str("text"@))]
                        + enc_text_fields(t.deep_view()));
                }
            },
            ContentBlock::Image(i) => {
                push_field(&mut fields, "type", Json::Str("image".to_owned()));
                i.push_fields(&mut fields);
                proof {
                    assert(obj_views(fields@) =~= seq![("type"@, JsonV::Str("image"@))]
                        + enc_image_fields(i.deep_view()));
                }
            },
            ContentBlock::Audio(a) => {
                push_field(&mut fields, "type", Json::Str("audio".to_owned()));
                a.push_fields(&mut fields);
                proof {
                    assert(obj_views(fields@) =~= seq![("type"@, JsonV::Str("audio"@))]
                        + enc_audio_fields(a.deep_view()));
                }
            },
            ContentBlock::ResourceLink(rl) => {
                push_field(&mut fields, "type", Json::Str("resource_link".to_owned()));
                rl.push_fields(&mut fields);
                proof {
                    assert(obj_views(fields@) =~= seq![("type"@, JsonV::Str("resource_link"@))]
                        + enc_resource_link_fields(rl.deep_view()));
                }
            },
            ContentBlock::Resource(e) => {
                push_field(&mut fields, "type", Json::Str("resource".to_owned()));
                e.push_fields(&mut fields);
                proof {
                    assert(obj_views(fields@) =~= seq![("type"@, JsonV::Str("resource"@))]
                        + enc_embedded_fields(e.deep_view()));
                }
            },
        }
        Json::Obj(fields)
    }

    /// Decodes a block from a `type`-tagged object, failing on an unknown or
    /// missing tag.
    pub fn from_json(j: &Json) -> (r: Option<ContentBlock>)
        ensures
            match r {
                Some(v) => dec_content_block(j.deep_view()) == Some(v.deep_view()),
                None => dec_content_block(j.deep_view()) is None,
            },
    {
        let tag = match j.get_string("type") {
            Some(t) => t,
            None => {
                return None;
            },
        };
        if str_eq(tag.as_str(), "text") {
            match TextContent::from_json(j) {
                Some(v) => Some(ContentBlock::Text(v)),
                None => None,
            }
        } else if str_eq(tag.as_str(), "image") {
            match ImageContent::from_json(j) {
                Some(v) => Some(ContentBlock::Image(v)),
                None => None,
            }
        } else if str_eq(tag.as_str(), "audio") {
            match AudioContent::from_json(j) {
                Some(v) => Some(ContentBlock::Audio(v)),
                None => None,
            }
        } else if str_eq(tag.as_str(), "resource_link") {
            match ResourceLink::from_json(j) {
                Some(v) => Some(ContentBlock::ResourceLink(v)),
                None => None,
            }
        } else if str_eq(tag.as_str(), "resource") {
            match EmbeddedResource::from_json(j) {
                Some(v) => Some(ContentBlock::Resource(v)),
                None => None,
            }
        } else {
            None
        }
    }
}

// ---------------------------------------------------------------------------
// Round-trip laws.
// ---------------------------------------------------------------------------

/// The lengths and distinguishing characters of the wire keys and tags of
/// this module, so that distinct keys are provably distinct.
proof fn lemma_key_facts()
    ensures
        "type"@.len() == 4 && "type"@[0] == 't' && "type"@[1] == 'y',
        "text"@.len() == 4 && "text"@[0] == 't' && "text"@[1] == 'e',
        "annotations"@.len() == 11 && "annotations"@[0] == 'a',
        "image"@.len() == 5 && "image"@[0] == 'i',
        "audio"@.len() == 5 && "audio"@[0] == 'a',
        "resource"@.len() == 8 && "resource"@[0] == 'r',
        "resource_link"@.len() == 13,
        "data"@.len() == 4 && "data"@[0] == 'd',
        "mimeType"@.len() == 8 && "mimeType"@[0] == 'm',
        "uri"@.len() == 3,
        "description"@.len() == 11 && "description"@[0] == 'd',
        "name"@.len() == 4 && "name"@[0] == 'n',
        "size"@.len() == 4 && "size"@[0] == 's',
        "title"@.len() == 5 && "title"@[0] == 't',
        "blob"@.len() == 4 && "blob"@[0] == 'b',
        "audience"@.len() == 8 && "audience"@[0] == 'a',
        "lastModified"@.len() == 12,
        "assistant"@.len() == 9,
        "user"@.len() == 4 && "user"@[0] == 'u',
{
    reveal_strlit("type");
    reveal_strlit("text");
    reveal_strlit("annotations");
    reveal_strlit("image");
    reveal_strlit("audio");
    reveal_strlit("resource");
    reveal_strlit("resource_link");
    reveal_strlit("data");
    reveal_strlit("mimeType");
    reveal_strlit("uri");
    reveal_strlit("description");
    reveal_strlit("name");
    reveal_strlit("size");
    reveal_strlit("title");
    reveal_strlit("blob");
    reveal_strlit("audience");
    reveal_strlit("lastModified");
    reveal_strlit("assistant");
    reveal_strlit("user");
}

/// Encoding a list of roles and decoding it back yields the same list.
pub proof fn lemma_roles_round_trip(s: Seq<Role>)
    ensures
        dec_roles(enc_roles(s)) == Some(s),
    decreases s.len(),
{
    lemma_key_facts();
    if s.len() == 0 {
        assert(enc_roles(s).len() == 0);
        assert(s =~= Seq::<Role>::empty());
    } else {
        lemma_roles_round_trip(s.drop_last());
        assert(enc_roles(s).drop_last() =~= enc_roles(s.drop_last()));
        assert(enc_roles(s).last() == enc_role(s.last()));
        assert(dec_role(enc_role(s.last())) == Some(s.last()));
        assert(s.drop_last().push(s.last()) =~= s);
    }
}

/// Encoding annotations and decoding them back yields the same annotations.
pub proof fn lemma_annotations_round_trip(v: AnnotationsV)
    ensures
        dec_annotations(enc_annotations(v)) == Some(v),
{
    broadcast use lemma_lookup_concat, lemma_lookup_opt_field, lemma_lookup_singleton;

    lemma_key_facts();
    match v.audience {
        Some(s) => lemma_roles_round_trip(s),
        None => {},
    }
}

/// A text block's fields decode back from any object that starts with
/// unrelated fields and ends with their encoding.
proof fn lemma_text_fields_round_trip(pre: Seq<(Seq<char>, JsonV)>, v: TextContentV)
    requires
        lookup_field(pre, "annotations"@) is None,
        lookup_field(pre, "text"@) is None,
    ensures
        dec_text_fields(JsonV::Obj(pre + enc_text_fields(v))) == Some(v),
{
    broadcast use lemma_lookup_concat, lemma_lookup_opt_field, lemma_lookup_singleton;

    lemma_key_facts();
    match v.annotations {
        Some(av) => lemma_annotations_round_trip(av),
        None => {},
    }
}

/// As [`lemma_text_fields_round_trip`], for an image block.
proof fn lemma_image_fields_round_trip(pre: Seq<(Seq<char>, JsonV)>, v: ImageContentV)
    requires
        lookup_field(pre, "annotations"@) is None,
        lookup_field(pre, "data"@) is None,
        lookup_field(pre, "mimeType"@) is None,
        lookup_field(pre, "uri"@) is None,
    ensures
        dec_image_fields(JsonV::Obj(pre + enc_image_fields(v))) == Some(v),
{
    broadcast use lemma_lookup_concat, lemma_lookup_opt_field, lemma_lookup_singleton;

    lemma_key_facts();
    match v.annotations {
        Some(av) => lemma_annotations_round_trip(av),
        None => {},
    }
}

/// As [`lemma_text_fields_round_trip`], for an audio block.
proof fn lemma_audio_fields_round_trip(pre: Seq<(Seq<char>, JsonV)>, v: AudioContentV)
    requires
        lookup_field(pre, "annotations"@) is None,
        lookup_field(pre, "data"@) is None,
        lookup_field(pre, "mimeType"@) is None,
    ensures
        dec_audio_fields(JsonV::Obj(pre + enc_audio_fields(v))) == Some(v),
{
    broadcast use lemma_lookup_concat, lemma_lookup_opt_field, lemma_lookup_singleton;

    lemma_key_facts();
    match v.annotations {
        Some(av) => lemma_annotations_round_trip(av),
        None => {},
    }
}

/// As [`lemma_text_fields_round_trip`], for a resource link.
proof fn lemma_resource_link_fields_round_trip(pre: Seq<(Seq<char>, JsonV)>, v: ResourceLinkV)
    requires
        lookup_field(pre, "annotations"@) is None,
        lookup_field(pre, "description"@) is None,
        lookup_field(pre, "mimeType"@) is None,
        lookup_field(pre, "name"@) is None,
        lookup_field(pre, "size"@) is None,
        lookup_field(pre, "title"@) is None,
        lookup_field(pre, "uri"@) is None,
    ensures
        dec_resource_link_fields(JsonV::Obj(pre + enc_resource_link_fields(v))) == Some(v),
{
    broadcast use lemma_lookup_concat, lemma_lookup_opt_field, lemma_lookup_singleton;

    lemma_key_facts();
    match v.annotations {
        Some(av) => lemma_annotations_round_trip(av),
        None => {},
    }
}

/// Encoding either resource body and decoding it back picks the same
/// variant: a text-shaped body decodes as a text resource and a blob-shaped
/// body as a blob resource.
pub proof fn lemma_resource_round_trip(r: EmbeddedResourceResourceV)
    ensures
        dec_resource(enc_resource(r)) == Some(r),
{
    broadcast use lemma_lookup_concat, lemma_lookup_opt_field, lemma_lookup_singleton;

    lemma_key_facts();
}

/// As [`lemma_text_fields_round_trip`], for an embedded resource.
proof fn lemma_embedded_fields_round_trip(pre: Seq<(Seq<char>, JsonV)>, v: EmbeddedResourceV)
    requires
        lookup_field(pre, "annotations"@) is None,
        lookup_field(pre, "resource"@) is None,
    ensures
        dec_embedded_fields(JsonV::Obj(pre + enc_embedded_fields(v))) == Some(v),
{
    broadcast use lemma_lookup_concat, lemma_lookup_opt_field, lemma_lookup_singleton;

    lemma_key_facts();
    match v.annotations {
        Some(av) => lemma_annotations_round_trip(av),
        None => {},
    }
    lemma_resource_round_trip(v.resource);
}

/// Round-trip fidelity of the content union: encoding any content block and
/// decoding it back yields the same block, for every variant.
pub proof fn lemma_content_block_round_trip(v: ContentBlockV)
    ensures
        dec_content_block(enc_content_block(v)) == Some(v),
{
    broadcast use lemma_lookup_concat, lemma_lookup_opt_field, lemma_lookup_singleton;

    lemma_key_facts();
    match v {
        ContentBlockV::Text(t) => {
            lemma_text_fields_round_trip(seq![("type"@, JsonV::Str("text"@))], t);
        },
        ContentBlockV::Image(i) => {
            lemma_image_fields_round_trip(seq![("type"@, JsonV::Str("image"@))], i);
        },
        ContentBlockV::Audio(a) => {
            lemma_audio_fields_round_trip(seq![("type"@, JsonV::Str("audio"@))], a);
        },
        ContentBlockV::ResourceLink(r) => {
            lemma_resource_link_fields_round_trip(
                seq![("type"@, JsonV::Str("resource_link"@))],
                r,
            );
        },
        ContentBlockV::Resource(e) => {
            lemma_embedded_fields_round_trip(seq![("type"@, JsonV::Str("resource"@))], e);
        },
    }
}

} // verus!
