//! The conversion between stored content and the parts of provider
//! messages: the request built from a prepared context, and what is stored
//! of a provider's reply.

use vstd::prelude::*;

use crate::domain::{
    copy_opt, duplicate_parts,    GenerationStreamEvent, GenerationStreamEventKind, ProviderChatEvent,
    ApiChannel, ApiChannelModel, ContentType, ContentWriteInput, MessageRole, ProviderChatMessage,
    ProviderChatRequest, ProviderChatResponse, ProviderMessagePart, ProviderMessagePartKind,
    StoredContent,
};
use crate::error::{fails_validation, AppError};
use crate::providers::common::{part_text, part_text_spec};
use crate::services::channel_service::opt_view;

verus! {

/// The kind of part that carries content of a given type.
pub open spec fn part_kind_for(t: ContentType) -> ProviderMessagePartKind {
    match t {
        ContentType::Text | ContentType::Markdown | ContentType::Html => ProviderMessagePartKind::Text,
        ContentType::Image => ProviderMessagePartKind::ImageRef,
        ContentType::Audio => ProviderMessagePartKind::AudioRef,
        ContentType::Video => ProviderMessagePartKind::VideoRef,
        ContentType::File | ContentType::Binary => ProviderMessagePartKind::FileRef,
        ContentType::Json => ProviderMessagePartKind::JsonPayload,
        ContentType::ToolRequest => ProviderMessagePartKind::ToolRequest,
        ContentType::ToolResponse => ProviderMessagePartKind::ToolResponse,
        ContentType::RagExcerpt => ProviderMessagePartKind::RagExcerpt,
        ContentType::McpPayload => ProviderMessagePartKind::McpPayload,
        ContentType::PluginPayload | ContentType::PluginState => ProviderMessagePartKind::PluginPayload,
        ContentType::ReasoningTrace => ProviderMessagePartKind::ReasoningTrace,
        ContentType::ProviderSignature => ProviderMessagePartKind::ProviderSignature,
    }
}

/// The content type that stores a part of a given kind.
pub open spec fn content_type_for(k: ProviderMessagePartKind) -> ContentType {
    match k {
        ProviderMessagePartKind::Text => ContentType::Text,
        ProviderMessagePartKind::ImageRef => ContentType::Image,
        ProviderMessagePartKind::AudioRef => ContentType::Audio,
        ProviderMessagePartKind::VideoRef => ContentType::Video,
        ProviderMessagePartKind::FileRef => ContentType::File,
        ProviderMessagePartKind::JsonPayload => ContentType::Json,
        ProviderMessagePartKind::ToolRequest => ContentType::ToolRequest,
        ProviderMessagePartKind::ToolResponse => ContentType::ToolResponse,
        ProviderMessagePartKind::RagExcerpt => ContentType::RagExcerpt,
        ProviderMessagePartKind::McpPayload => ContentType::McpPayload,
        ProviderMessagePartKind::PluginPayload => ContentType::PluginPayload,
        ProviderMessagePartKind::ReasoningTrace => ContentType::ReasoningTrace,
        ProviderMessagePartKind::ProviderSignature => ContentType::ProviderSignature,
    }
}

pub(crate) fn kind_for(t: ContentType) -> (k: ProviderMessagePartKind)
    ensures
        k == part_kind_for(t),
{
    match t {
        ContentType::Text | ContentType::Markdown | ContentType::Html => ProviderMessagePartKind::Text,
        ContentType::Image => ProviderMessagePartKind::ImageRef,
        ContentType::Audio => ProviderMessagePartKind::AudioRef,
        ContentType::Video => ProviderMessagePartKind::VideoRef,
        ContentType::File | ContentType::Binary => ProviderMessagePartKind::FileRef,
        ContentType::Json => ProviderMessagePartKind::JsonPayload,
        ContentType::ToolRequest => ProviderMessagePartKind::ToolRequest,
        ContentType::ToolResponse => ProviderMessagePartKind::ToolResponse,
        ContentType::RagExcerpt => ProviderMessagePartKind::RagExcerpt,
        ContentType::McpPayload => ProviderMessagePartKind::McpPayload,
        ContentType::PluginPayload | ContentType::PluginState => ProviderMessagePartKind::PluginPayload,
        ContentType::ReasoningTrace => ProviderMessagePartKind::ReasoningTrace,
        ContentType::ProviderSignature => ProviderMessagePartKind::ProviderSignature,
    }
}

fn type_for(k: ProviderMessagePartKind) -> (t: ContentType)
    ensures
        t == content_type_for(k),
{
    match k {
        ProviderMessagePartKind::Text => ContentType::Text,
        ProviderMessagePartKind::ImageRef => ContentType::Image,
        ProviderMessagePartKind::AudioRef => ContentType::Audio,
        ProviderMessagePartKind::VideoRef => ContentType::Video,
        ProviderMessagePartKind::FileRef => ContentType::File,
        ProviderMessagePartKind::JsonPayload => ContentType::Json,
        ProviderMessagePartKind::ToolRequest => ContentType::ToolRequest,
        ProviderMessagePartKind::ToolResponse => ContentType::ToolResponse,
        ProviderMessagePartKind::RagExcerpt => ContentType::RagExcerpt,
        ProviderMessagePartKind::McpPayload => ContentType::McpPayload,
        ProviderMessagePartKind::PluginPayload => ContentType::PluginPayload,
        ProviderMessagePartKind::ReasoningTrace => ContentType::ReasoningTrace,
        ProviderMessagePartKind::ProviderSignature => ContentType::ProviderSignature,
    }
}

fn clone_opt(o: &Option<String>) -> (r: Option<String>)
    ensures
        opt_view(r) == opt_view(*o),
{
    match o {
        Some(s) => Some(s.clone()),
        None => None,
    }
}

/// Whether `p` is the part that carries the stored content `c`.
pub open spec fn is_part_of(p: ProviderMessagePart, c: StoredContent) -> bool {
    &&& p.kind == part_kind_for(c.content_type)
    &&& opt_view(p.text) == opt_view(c.text_content)
    &&& p.content == Some(c)
    &&& p.metadata_json@ == c.config_json@
}

/// The part that carries a stored content: of the kind that matches its
/// type, with its text and its settings.
pub fn content_to_part(content: &StoredContent) -> (p: ProviderMessagePart)
    ensures
        is_part_of(p, *content),
{
    ProviderMessagePart {
        kind: kind_for(content.content_type),
        text: clone_opt(&content.text_content),
        content: Some(content.duplicate()),
        metadata_json: content.config_json.clone(),
    }
}

/// Whether `w` is what is stored of the part `p`: the content it refers to,
/// with its preview as text where it has no text; or else the part's own
/// text, as JSON for a JSON payload and plain text otherwise.
pub open spec fn is_write_input_of(w: ContentWriteInput, p: ProviderMessagePart) -> bool {
    &&& w.source_file_path is None
    &&& match p.content {
        Some(c) => {
            &&& w.content_type == c.content_type
            &&& opt_view(w.mime_type) == opt_view(c.mime_type)
            &&& opt_view(w.text_content) == match c.text_content {
                Some(t) => Some(t@),
                None => opt_view(c.preview_text),
            }
            &&& opt_view(w.primary_storage_uri) == opt_view(c.primary_storage_uri)
            &&& w.size_bytes_hint == Some(c.size_bytes)
            &&& opt_view(w.preview_text) == opt_view(c.preview_text)
            &&& w.config_json@ == c.config_json@
        },
        None => {
            &&& w.content_type == content_type_for(p.kind)
            &&& opt_view(w.mime_type) == Some(
                if content_type_for(p.kind) == ContentType::Json {
                    "application/json"@
                } else {
                    "text/plain"@
                },
            )
            &&& opt_view(w.text_content) == opt_view(p.text)
            &&& w.primary_storage_uri is None
            &&& w.size_bytes_hint is None
            &&& w.preview_text is None
            &&& w.config_json@ == p.metadata_json@
        },
    }
}

/// What is stored of a part of a provider's reply.
pub fn part_to_content_write_input(part: &ProviderMessagePart) -> (r: Option<ContentWriteInput>)
    ensures
        r matches Some(w) && is_write_input_of(w, *part),
{
    match &part.content {
        Some(content) => Some(
            ContentWriteInput {
                content_type: content.content_type,
                mime_type: clone_opt(&content.mime_type),
                text_content: match &content.text_content {
                    Some(t) => Some(t.clone()),
                    None => clone_opt(&content.preview_text),
                },
                source_file_path: None,
                primary_storage_uri: clone_opt(&content.primary_storage_uri),
                size_bytes_hint: Some(content.size_bytes),
                preview_text: clone_opt(&content.preview_text),
                config_json: content.config_json.clone(),
            },
        ),
        None => {
            let content_type = type_for(part.kind);
            let mime = match content_type {
                ContentType::Json => String::from_str("application/json"),
                _ => String::from_str("text/plain"),
            };
            Some(
                ContentWriteInput {
                    content_type,
                    mime_type: Some(mime),
                    text_content: clone_opt(&part.text),
                    source_file_path: None,
                    primary_storage_uri: None,
                    size_bytes_hint: None,
                    preview_text: None,
                    config_json: part.metadata_json.clone(),
                },
            )
        },
    }
}

/// The role under which a secondary part of a reply is kept.
pub open spec fn ref_role_for(k: ProviderMessagePartKind) -> Seq<char> {
    match k {
        ProviderMessagePartKind::ReasoningTrace => "reasoning_trace"@,
        ProviderMessagePartKind::ProviderSignature => "provider_signature"@,
        ProviderMessagePartKind::ToolRequest => "tool_request"@,
        ProviderMessagePartKind::ToolResponse => "tool_response"@,
        _ => "attachment"@,
    }
}

fn ref_role(k: ProviderMessagePartKind) -> (r: &'static str)
    ensures
        r@ == ref_role_for(k),
{
    match k {
        ProviderMessagePartKind::ReasoningTrace => "reasoning_trace",
        ProviderMessagePartKind::ProviderSignature => "provider_signature",
        ProviderMessagePartKind::ToolRequest => "tool_request",
        ProviderMessagePartKind::ToolResponse => "tool_response",
        _ => "attachment",
    }
}

/// What is stored of a provider's reply: its first part as the reply, and
/// each later part under the role its kind gives; a reply without parts is
/// rejected.
pub fn split_response_parts(response: &ProviderChatResponse) -> (r: Result<(ContentWriteInput, Vec<(String, ContentWriteInput)>), AppError>)
    ensures
        response.parts@.len() == 0 ==> fails_validation(
            r,
            "VALIDATION_ERROR"@,
            "provider response contained no usable content"@,
        ),
        response.parts@.len() > 0 ==> (r matches Ok(pair) && (is_write_input_of(pair.0, response.parts@[0])
            && pair.1@.len() == response.parts@.len() - 1 && forall|i: int|
            0 <= i < pair.1@.len() ==> (#[trigger] pair.1@[i]).0@ == ref_role_for(
                response.parts@[i + 1].kind,
            ) && is_write_input_of(pair.1@[i].1, response.parts@[i + 1]))),
{
    if response.parts.len() == 0 {
        return Err(AppError::validation("VALIDATION_ERROR", "provider response contained no usable content"));
    }
    let primary = match part_to_content_write_input(&response.parts[0]) {
        Some(w) => w,
        None => {
            return Err(AppError::validation("VALIDATION_ERROR", "provider response contained no usable content"));
        },
    };
    let mut refs: Vec<(String, ContentWriteInput)> = Vec::new();
    let mut i: usize = 1;
    while i < response.parts.len()
        invariant
            1 <= i <= response.parts@.len(),
            refs@.len() == i - 1,
            forall|j: int|
                0 <= j < refs@.len() ==> (#[trigger] refs@[j]).0@ == ref_role_for(response.parts@[j + 1].kind)
                    && is_write_input_of(refs@[j].1, response.parts@[j + 1]),
        decreases response.parts.len() - i,
    {
        let part = &response.parts[i];
        match part_to_content_write_input(part) {
            Some(w) => {
                refs.push((String::from_str(ref_role(part.kind)), w));
            },
            None => {},
        }
        i = i + 1;
    }
    Ok((primary, refs))
}

/// The texts of `parts` concatenated, each part's own text or that of its content.
pub open spec fn parts_text(parts: Seq<ProviderMessagePart>) -> Seq<char>
    decreases parts.len(),
{
    if parts.len() == 0 {
        Seq::empty()
    } else {
        parts_text(parts.drop_last()) + match part_text_spec(parts.last()) {
            Some(t) => t,
            None => Seq::empty(),
        }
    }
}

/// The texts of `parts` concatenated.
pub fn extract_text_from_parts(parts: &[ProviderMessagePart]) -> (r: String)
    ensures
        r@ == parts_text(parts@),
{
    let mut text = String::new();
    let mut i: usize = 0;
    while i < parts.len()
        invariant
            i <= parts@.len(),
            text@ == parts_text(parts@.take(i as int)),
        decreases parts.len() - i,
    {
        proof {
            assert(parts@.take(i + 1 as int).drop_last() =~= parts@.take(i as int));
        }
        match part_text(&parts[i]) {
            Some(delta) => {
                text.append(delta.as_str());
            },
            None => {
                assert(text@ + Seq::<char>::empty() =~= text@);
            },
        }
        i = i + 1;
    }
    assert(parts@.take(parts@.len() as int) =~= parts@);
    text
}

/// One prepared item of the context of a generation.
#[derive(Debug, Clone, PartialEq, Eq)]
pub struct BuiltContextItem {
    /// The role it is sent under.
    pub send_role: MessageRole,
    /// Its content as sent.
    pub rendered_content: StoredContent,
    /// Extra data, a JSON document.
    pub config_json: String,
}

/// The prepared context of a generation.
#[derive(Debug, Clone, PartialEq, Eq)]
pub struct BuiltGenerationContext {
    pub api_channel: ApiChannel,
    pub api_channel_model: ApiChannelModel,
    /// Request parameters, a JSON document.
    pub request_parameters_json: String,
    pub items: Vec<BuiltContextItem>,
}

/// Whether `m` is the message that sends the context item `item`.
pub open spec fn is_message_of(m: ProviderChatMessage, item: BuiltContextItem) -> bool {
    &&& m.role == item.send_role
    &&& m.name is None
    &&& m.parts@.len() == 1
    &&& is_part_of(m.parts@[0], item.rendered_content)
    &&& m.metadata_json@ == item.config_json@
}

/// The request that sends a prepared context: one message per item, in order.
pub fn build_provider_request(input: &BuiltGenerationContext) -> (r: ProviderChatRequest)
    ensures
        r.api_channel == input.api_channel,
        r.api_channel_model == input.api_channel_model,
        r.request_parameters_json@ == input.request_parameters_json@,
        r.messages@.len() == input.items@.len(),
        forall|i: int| 0 <= i < r.messages@.len() ==> is_message_of(#[trigger] r.messages@[i], input.items@[i]),
{
    let mut messages: Vec<ProviderChatMessage> = Vec::new();
    let mut i: usize = 0;
    while i < input.items.len()
        invariant
            i <= input.items@.len(),
            messages@.len() == i,
            forall|j: int| 0 <= j < i ==> is_message_of(#[trigger] messages@[j], input.items@[j]),
        decreases input.items.len() - i,
    {
        let item = &input.items[i];
        let mut parts = Vec::new();
        parts.push(content_to_part(&item.rendered_content));
        messages.push(
            ProviderChatMessage {
                role: item.send_role,
                name: None,
                parts,
                metadata_json: item.config_json.clone(),
            },
        );
        i = i + 1;
    }
    ProviderChatRequest {
        api_channel: input.api_channel.duplicate(),
        api_channel_model: input.api_channel_model.duplicate(),
        request_parameters_json: input.request_parameters_json.clone(),
        messages,
    }
}

/// `a` when it holds a value, else `b`.
pub open spec fn first_some<T>(a: Option<T>, b: Option<T>) -> Option<T> {
    match a {
        Some(x) => Some(x),
        None => b,
    }
}

fn first_some_text(a: &Option<String>, b: &Option<String>) -> (r: Option<String>)
    ensures
        opt_view(r) == first_some(opt_view(*a), opt_view(*b)),
{
    match a {
        Some(x) => Some(x.clone()),
        None => b.clone(),
    }
}

fn first_some_count(a: Option<i64>, b: Option<i64>) -> (r: Option<i64>)
    ensures
        r == first_some(a, b),
{
    match a {
        Some(x) => Some(x),
        None => b,
    }
}

/// What a streamed reply has brought so far: its text, and what the
/// provider reported at the end.
#[derive(Debug, Clone)]
pub struct StreamProgress {
    /// The text of all the deltas so far.
    pub accumulated_text: String,
    /// Why generation stopped, as reported.
    pub finish_reason: Option<String>,
    /// Tokens of the prompt, as reported.
    pub prompt_tokens: Option<i64>,
    /// Tokens of the reply, as reported.
    pub completion_tokens: Option<i64>,
    /// Tokens in all, as reported.
    pub total_tokens: Option<i64>,
}

/// Whether `e` is an event of `stream_id` of the given kind that carries
/// nothing but the texts, version and error given.
pub open spec fn event_is(
    e: GenerationStreamEvent,
    stream_id: Seq<char>,
    kind: GenerationStreamEventKind,
    delta: Option<Seq<char>>,
    accumulated: Option<Seq<char>>,
    version: Option<Seq<char>>,
    error: Option<Seq<char>>,
) -> bool {
    &&& e.stream_id@ == stream_id
    &&& e.kind == kind
    &&& opt_view(e.delta_text) == delta
    &&& opt_view(e.accumulated_text) == accumulated
    &&& opt_view(e.message_version_id) == version
    &&& opt_view(e.error_text) == error
}

impl StreamProgress {
    /// Nothing has come in yet.
    pub fn new() -> (p: Self)
        ensures
            p.accumulated_text@ == Seq::<char>::empty(),
            p.finish_reason is None,
            p.prompt_tokens is None,
            p.completion_tokens is None,
            p.total_tokens is None,
    {
        StreamProgress {
            accumulated_text: String::new(),
            finish_reason: None,
            prompt_tokens: None,
            completion_tokens: None,
            total_tokens: None,
        }
    }

    /// The event that opens a stream: no text yet.
    pub fn started_event(stream_id: &str) -> (e: GenerationStreamEvent)
        ensures
            event_is(e, stream_id@, GenerationStreamEventKind::Started, None, Some(Seq::empty()), None, None),
            e.finish_reason is None,
            e.prompt_tokens is None,
            e.completion_tokens is None,
            e.total_tokens is None,
    {
        GenerationStreamEvent {
            stream_id: String::from_str(stream_id),
            kind: GenerationStreamEventKind::Started,
            delta_text: None,
            accumulated_text: Some(String::new()),
            message_version_id: None,
            finish_reason: None,
            prompt_tokens: None,
            completion_tokens: None,
            total_tokens: None,
            error_text: None,
        }
    }

    /// Takes in what the provider reports. The text of a delta joins the
    /// accumulated text, and when it is not empty the listener gets a delta
    /// event with it and with all the text so far; the end report is kept.
    pub fn on_event(&mut self, stream_id: &str, event: ProviderChatEvent) -> (r: Option<GenerationStreamEvent>)
        ensures
            match event {
                ProviderChatEvent::Delta { parts, .. } => {
                    &&& final(self).accumulated_text@ == old(self).accumulated_text@ + parts_text(parts@)
                    &&& opt_view(final(self).finish_reason) == opt_view(old(self).finish_reason)
                    &&& final(self).prompt_tokens == old(self).prompt_tokens
                    &&& final(self).completion_tokens == old(self).completion_tokens
                    &&& final(self).total_tokens == old(self).total_tokens
                    &&& (r is Some) == (parts_text(parts@).len() > 0)
                    &&& r matches Some(e) ==> event_is(
                        e,
                        stream_id@,
                        GenerationStreamEventKind::Delta,
                        Some(parts_text(parts@)),
                        Some(final(self).accumulated_text@),
                        None,
                        None,
                    ) && (e.finish_reason is None) && (e.prompt_tokens is None) && (e.completion_tokens is None)
                        && (e.total_tokens is None)
                },
                ProviderChatEvent::Finished { finish_reason, prompt_tokens, completion_tokens, total_tokens, .. } => {
                    &&& final(self).accumulated_text@ == old(self).accumulated_text@
                    &&& opt_view(final(self).finish_reason) == opt_view(finish_reason)
                    &&& final(self).prompt_tokens == prompt_tokens
                    &&& final(self).completion_tokens == completion_tokens
                    &&& final(self).total_tokens == total_tokens
                    &&& r is None
                },
            },
    {
        match event {
            ProviderChatEvent::Delta { parts, .. } => {
                let delta = extract_text_from_parts(parts.as_slice());
                if delta.as_str().unicode_len() == 0 {
                    assert(old(self).accumulated_text@ + parts_text(parts@) =~= old(self).accumulated_text@);
                    return None;
                }
                self.accumulated_text.append(delta.as_str());
                Some(
                    GenerationStreamEvent {
                        stream_id: String::from_str(stream_id),
                        kind: GenerationStreamEventKind::Delta,
                        delta_text: Some(delta),
                        accumulated_text: Some(self.accumulated_text.clone()),
                        message_version_id: None,
                        finish_reason: None,
                        prompt_tokens: None,
                        completion_tokens: None,
                        total_tokens: None,
                        error_text: None,
                    },
                )
            },
            ProviderChatEvent::Finished { finish_reason, prompt_tokens, completion_tokens, total_tokens, .. } => {
                self.finish_reason = finish_reason;
                self.prompt_tokens = prompt_tokens;
                self.completion_tokens = completion_tokens;
                self.total_tokens = total_tokens;
                None
            },
        }
    }

    /// The event that closes a stream that succeeded: all the text, the
    /// stored version, and the counts of the final response, or those
    /// reported while streaming where the response has none.
    pub fn completed_event(&self, stream_id: &str, version_id: &str, response: &ProviderChatResponse) -> (e: GenerationStreamEvent)
        ensures
            event_is(
                e,
                stream_id@,
                GenerationStreamEventKind::Completed,
                None,
                Some(self.accumulated_text@),
                Some(version_id@),
                None,
            ),
            opt_view(e.finish_reason) == first_some(opt_view(response.finish_reason), opt_view(self.finish_reason)),
            e.prompt_tokens == first_some(response.prompt_tokens, self.prompt_tokens),
            e.completion_tokens == first_some(response.completion_tokens, self.completion_tokens),
            e.total_tokens == first_some(response.total_tokens, self.total_tokens),
    {
        GenerationStreamEvent {
            stream_id: String::from_str(stream_id),
            kind: GenerationStreamEventKind::Completed,
            delta_text: None,
            accumulated_text: Some(self.accumulated_text.clone()),
            message_version_id: Some(String::from_str(version_id)),
            finish_reason: first_some_text(&response.finish_reason, &self.finish_reason),
            prompt_tokens: first_some_count(response.prompt_tokens, self.prompt_tokens),
            completion_tokens: first_some_count(response.completion_tokens, self.completion_tokens),
            total_tokens: first_some_count(response.total_tokens, self.total_tokens),
            error_text: None,
        }
    }

    /// The event that closes a stream that failed: the text so far and the error.
    pub fn failed_event(&self, stream_id: &str, error_text: String) -> (e: GenerationStreamEvent)
        ensures
            event_is(
                e,
                stream_id@,
                GenerationStreamEventKind::Failed,
                None,
                Some(self.accumulated_text@),
                None,
                Some(error_text@),
            ),
            e.finish_reason is None,
            e.prompt_tokens is None,
            e.completion_tokens is None,
            e.total_tokens is None,
    {
        GenerationStreamEvent {
            stream_id: String::from_str(stream_id),
            kind: GenerationStreamEventKind::Failed,
            delta_text: None,
            accumulated_text: Some(self.accumulated_text.clone()),
            message_version_id: None,
            finish_reason: None,
            prompt_tokens: None,
            completion_tokens: None,
            total_tokens: None,
            error_text: Some(error_text),
        }
    }
}

/// The events of a reply that came whole, as an adapter without streaming
/// reports it: its parts, when it has any, then its end.
pub fn replay_as_events(response: &ProviderChatResponse) -> (events: Vec<ProviderChatEvent>)
    ensures
        events@.len() == if response.parts@.len() > 0 { 2int } else { 1int },
        response.parts@.len() > 0 ==> (events@[0] matches ProviderChatEvent::Delta { parts, raw_event_json } && parts@
            == response.parts@ && opt_view(raw_event_json) == opt_view(response.raw_response_json)),
        events@.last() matches ProviderChatEvent::Finished {
            finish_reason,
            prompt_tokens,
            completion_tokens,
            total_tokens,
            raw_event_json,
        } && opt_view(finish_reason) == opt_view(response.finish_reason) && prompt_tokens == response.prompt_tokens
            && completion_tokens == response.completion_tokens && total_tokens == response.total_tokens && opt_view(
            raw_event_json,
        ) == opt_view(response.raw_response_json),
{
    let mut events: Vec<ProviderChatEvent> = Vec::new();
    if response.parts.len() > 0 {
        events.push(
            ProviderChatEvent::Delta {
                parts: duplicate_parts(response.parts.as_slice()),
                raw_event_json: copy_opt(&response.raw_response_json),
            },
        );
    }
    events.push(
        ProviderChatEvent::Finished {
            finish_reason: copy_opt(&response.finish_reason),
            prompt_tokens: response.prompt_tokens,
            completion_tokens: response.completion_tokens,
            total_tokens: response.total_tokens,
            raw_event_json: copy_opt(&response.raw_response_json),
        },
    );
    events
}


/// How a streamed reply ended: stored as the version `version_id` from the
/// provider's final response, or failed with the error's text.
#[derive(Debug, Clone)]
pub enum ReplyEnd {
    Stored { response: ProviderChatResponse, version_id: String },
    Failed { error_text: String },
}

/// The texts of the deltas that carry text, in order.
pub open spec fn delta_texts(events: Seq<ProviderChatEvent>) -> Seq<Seq<char>>
    decreases events.len(),
{
    if events.len() == 0 {
        Seq::empty()
    } else {
        let before = delta_texts(events.drop_last());
        match events.last() {
            ProviderChatEvent::Delta { parts, .. } => if parts_text(parts@).len() > 0 {
                before.push(parts_text(parts@))
            } else {
                before
            },
            _ => before,
        }
    }
}

/// The texts one after the other.
pub open spec fn joined(texts: Seq<Seq<char>>) -> Seq<char>
    decreases texts.len(),
{
    if texts.len() == 0 {
        Seq::empty()
    } else {
        joined(texts.drop_last()) + texts.last()
    }
}

/// What the last end report among `events` says (reason and the three
/// counts), nothing when there is none.
pub open spec fn streamed_end(events: Seq<ProviderChatEvent>) -> (Option<Seq<char>>, Option<i64>, Option<i64>, Option<i64>)
    decreases events.len(),
{
    if events.len() == 0 {
        (None, None, None, None)
    } else {
        match events.last() {
            ProviderChatEvent::Finished { finish_reason, prompt_tokens, completion_tokens, total_tokens, .. } => (
                opt_view(finish_reason),
                prompt_tokens,
                completion_tokens,
                total_tokens,
            ),
            _ => streamed_end(events.drop_last()),
        }
    }
}

/// Whether `out` is what the listener of the stream `stream_id` is told
/// about a reply whose provider reported `events`, in order, and that
/// ended as `end`: one started event with no text; a delta event for each
/// delta that carries text, with that text and all the text so far; and
/// exactly one closing event, completed with all the text, the stored
/// version and the counts of the final response (those reported while
/// streaming where it has none), or failed with the text so far and the
/// error.
pub open spec fn reply_events_are(stream_id: Seq<char>, events: Seq<ProviderChatEvent>, end: ReplyEnd, out: Seq<GenerationStreamEvent>) -> bool {
    let texts = delta_texts(events);
    let all = joined(texts);
    let streamed = streamed_end(events);
    &&& out.len() == texts.len() + 2
    &&& event_is(out[0], stream_id, GenerationStreamEventKind::Started, None, Some(Seq::empty()), None, None)
    &&& forall|k: int|
        0 <= k < texts.len() ==> event_is(
            #[trigger] out[k + 1],
            stream_id,
            GenerationStreamEventKind::Delta,
            Some(texts[k]),
            Some(joined(texts.take(k + 1))),
            None,
            None,
        )
    &&& match end {
        ReplyEnd::Stored { response, version_id } => {
            &&& event_is(out.last(), stream_id, GenerationStreamEventKind::Completed, None, Some(all), Some(version_id@), None)
            &&& opt_view(out.last().finish_reason) == first_some(opt_view(response.finish_reason), streamed.0)
            &&& out.last().prompt_tokens == first_some(response.prompt_tokens, streamed.1)
            &&& out.last().completion_tokens == first_some(response.completion_tokens, streamed.2)
            &&& out.last().total_tokens == first_some(response.total_tokens, streamed.3)
        },
        ReplyEnd::Failed { error_text } => event_is(
            out.last(),
            stream_id,
            GenerationStreamEventKind::Failed,
            None,
            Some(all),
            None,
            Some(error_text@),
        ),
    }
}

/// What the listener of a streamed reply is told, in order, given what the
/// provider reported and how the reply ended.
pub fn reply_stream_events(stream_id: &str, events: Vec<ProviderChatEvent>, end: ReplyEnd) -> (out: Vec<GenerationStreamEvent>)
    ensures
        reply_events_are(stream_id@, events@, end, out@),
{
    let ghost all_events = events@;
    let mut rest = events;
    let mut out: Vec<GenerationStreamEvent> = Vec::new();
    out.push(StreamProgress::started_event(stream_id));
    let mut progress = StreamProgress::new();
    let mut i: usize = 0;
    let n = rest.len();
    while i < n
        invariant
            n == all_events.len(),
            i <= n,
            rest@ == all_events.skip(i as int),
            progress.accumulated_text@ == joined(delta_texts(all_events.take(i as int))),
            (opt_view(progress.finish_reason), progress.prompt_tokens, progress.completion_tokens, progress.total_tokens)
                == streamed_end(all_events.take(i as int)),
            out@.len() == delta_texts(all_events.take(i as int)).len() + 1,
            event_is(out@[0], stream_id@, GenerationStreamEventKind::Started, None, Some(Seq::empty()), None, None),
            forall|k: int|
                0 <= k < delta_texts(all_events.take(i as int)).len() ==> event_is(
                    #[trigger] out@[k + 1],
                    stream_id@,
                    GenerationStreamEventKind::Delta,
                    Some(delta_texts(all_events.take(i as int))[k]),
                    Some(joined(delta_texts(all_events.take(i as int)).take(k + 1))),
                    None,
                    None,
                ),
        decreases n - i,
    {
        let ghost before = all_events.take(i as int);
        let ghost texts = delta_texts(before);
        let event = rest.remove(0);
        proof {
            assert(event == all_events[i as int]);
            assert(all_events.take(i + 1 as int).drop_last() =~= before);
            assert(all_events.take(i + 1 as int).last() == event);
            assert(rest@ =~= all_events.skip(i + 1 as int));
        }
        let ghost out_before = out@;
        let emitted = progress.on_event(stream_id, event);
        match emitted {
            Some(e) => {
                out.push(e);
                proof {
                    let texts2 = delta_texts(all_events.take(i + 1 as int));
                    assert(texts2 == texts.push(texts2.last()));
                    assert(texts2.take(texts.len() + 1 as int) =~= texts2);
                    assert(texts2.drop_last() =~= texts);
                    assert forall|k: int| 0 <= k < texts2.len() implies event_is(
                        #[trigger] out@[k + 1],
                        stream_id@,
                        GenerationStreamEventKind::Delta,
                        Some(texts2[k]),
                        Some(joined(texts2.take(k + 1))),
                        None,
                        None,
                    ) by {
                        if k < texts.len() {
                            assert(out@[k + 1] == out_before[k + 1]);
                            assert(texts2.take(k + 1) =~= texts.take(k + 1));
                        }
                    }
                }
            },
            None => {},
        }
        i = i + 1;
    }
    proof {
        assert(all_events.take(n as int) =~= all_events);
    }
    let last = match end {
        ReplyEnd::Stored { response, version_id } => progress.completed_event(stream_id, version_id.as_str(), &response),
        ReplyEnd::Failed { error_text } => progress.failed_event(stream_id, error_text),
    };
    out.push(last);
    out
}

} // verus!
