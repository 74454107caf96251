//! The adapter for OpenAI-compatible providers, apart from the transport:
//! the endpoints it calls, the form its request messages take, the JSON
//! text of a request body, and what the JSON of a reply or of a streamed
//! chunk says.

use vstd::prelude::*;

use crate::domain::{
    ApiChannel, MessageRole, ProviderChatEvent, ProviderChatMessage, ProviderChatResponse,
    ProviderMessagePart, ProviderMessagePartKind,
};
use crate::services::channel_service::opt_view;
use crate::services::generation::{first_some, parts_text};
use crate::text::{push_signed_decimal, signed_decimal, str_eq, trim};
use crate::error::{fails_internal, is_internal, fails_validation, AppError};
use crate::providers::common::StreamRun;
use crate::support::{
    find_member, first_member, i64_in, i64_in_of, json_array_items, json_array_items_of, json_object_members, json_object_members_of,
    json_parse_of, json_string_text, json_quoted, json_value_array, json_value_array_of, json_value_object, json_value_object_of,
    member_json, member_json_of, parse_json_text, string_member, string_member_of, string_pairs_view, texts_view, then_member, then_member_of,
    MemberText,
};
use crate::providers::common::{binary_part_text_fallback, fallback_text, kind_name, part_text, part_text_spec, payload_part_text, payload_text};


verus! {

/// The role name an OpenAI-compatible provider expects.
pub open spec fn provider_role_name(role: MessageRole) -> Seq<char> {
    match role {
        MessageRole::System => "system"@,
        MessageRole::User => "user"@,
        MessageRole::Assistant => "assistant"@,
        MessageRole::Tool => "tool"@,
    }
}

/// The role name an OpenAI-compatible provider expects.
pub fn role_to_provider(role: MessageRole) -> (r: &'static str)
    ensures
        r@ == provider_role_name(role),
{
    match role {
        MessageRole::System => "system",
        MessageRole::User => "user",
        MessageRole::Assistant => "assistant",
        MessageRole::Tool => "tool",
    }
}

/// The endpoint that lists models: the channel's own, else `/models`.
pub fn models_endpoint(channel: &ApiChannel) -> (r: String)
    ensures
        r@ == match channel.models_endpoint {
            Some(e) => e@,
            None => "/models"@,
        },
{
    match &channel.models_endpoint {
        Some(e) => e.clone(),
        None => String::from_str("/models"),
    }
}

/// The endpoint of a chat request: when streaming the channel's stream
/// endpoint, else its chat endpoint, else `/chat/completions`.
pub fn chat_endpoint(channel: &ApiChannel, stream: bool) -> (r: String)
    ensures
        r@ == if stream && channel.stream_endpoint is Some {
            channel.stream_endpoint->0@
        } else if channel.chat_endpoint is Some {
            channel.chat_endpoint->0@
        } else {
            "/chat/completions"@
        },
{
    if stream {
        if let Some(e) = &channel.stream_endpoint {
            return e.clone();
        }
    }
    match &channel.chat_endpoint {
        Some(e) => e.clone(),
        None => String::from_str("/chat/completions"),
    }
}

/// One item of the content of a request message.
#[derive(Debug, Clone, PartialEq, Eq)]
pub enum OpenAiPart {
    /// `{"type": "text", "text": ...}`
    Text(String),
    /// `{"type": "image_url", "image_url": {"url": ...}}`
    ImageUrl(String),
}

/// The content of a request message: plain text, or a list of items.
#[derive(Debug, Clone, PartialEq, Eq)]
pub enum OpenAiContent {
    Plain(String),
    Parts(Vec<OpenAiPart>),
}

/// A request message: `{"role": ..., "content": ...}`.
#[derive(Debug, Clone, PartialEq, Eq)]
pub struct OpenAiMessage {
    pub role: String,
    pub content: OpenAiContent,
}

/// The text of a part, or empty when it has none.
pub open spec fn text_or_empty(part: ProviderMessagePart) -> Seq<char> {
    match part_text_spec(part) {
        Some(t) => t,
        None => Seq::empty(),
    }
}

/// The label a media part is described under when it is sent as text.
pub open spec fn media_label(k: ProviderMessagePartKind) -> Seq<char> {
    match k {
        ProviderMessagePartKind::AudioRef => "audio"@,
        ProviderMessagePartKind::VideoRef => "video"@,
        _ => "file"@,
    }
}

/// Whether `r` is the request item for `part`: text parts give their text
/// (empty when they have none); images give the address of their content,
/// which they must have; audio, video and files are described as text; the
/// other kinds give their text or their content's preview, which they must
/// have.
pub open spec fn is_openai_part(r: Result<OpenAiPart, AppError>, part: ProviderMessagePart) -> bool {
    match part.kind {
        ProviderMessagePartKind::Text => r matches Ok(OpenAiPart::Text(t)) && t@ == text_or_empty(part),
        ProviderMessagePartKind::ImageRef => match part.content {
            Some(c) if c.primary_storage_uri is Some => r matches Ok(OpenAiPart::ImageUrl(u)) && u@
                == c.primary_storage_uri->0@,
            _ => fails_validation(r, "VALIDATION_ERROR"@, "image_ref part requires primary_storage_uri"@),
        },
        ProviderMessagePartKind::AudioRef | ProviderMessagePartKind::VideoRef | ProviderMessagePartKind::FileRef => {
            match part_text_spec(part) {
                Some(t) => r matches Ok(OpenAiPart::Text(v)) && v@ == t,
                None => match part.content {
                    Some(c) => r matches Ok(OpenAiPart::Text(v)) && v@ == fallback_text(c, media_label(part.kind)),
                    None => fails_validation(
                        r,
                        "VALIDATION_ERROR"@,
                        media_label(part.kind) + " part requires content or explicit text representation"@,
                    ),
                },
            }
        },
        _ => match payload_text(part) {
            Some(t) => r matches Ok(OpenAiPart::Text(v)) && v@ == t,
            None => fails_validation(
                r,
                "VALIDATION_ERROR"@,
                "provider part "@ + kind_name(part.kind) + " requires textual representation"@,
            ),
        },
    }
}

/// The request item for a part.
pub fn part_to_openai_value(part: &ProviderMessagePart) -> (r: Result<OpenAiPart, AppError>)
    ensures
        is_openai_part(r, *part),
{
    match part.kind {
        ProviderMessagePartKind::Text => {
            let t = match part_text(part) {
                Some(t) => t,
                None => String::new(),
            };
            Ok(OpenAiPart::Text(t))
        },
        ProviderMessagePartKind::ImageRef => {
            let uri = match &part.content {
                Some(c) => match &c.primary_storage_uri {
                    Some(u) => Some(u.clone()),
                    None => None,
                },
                None => None,
            };
            match uri {
                Some(u) => Ok(OpenAiPart::ImageUrl(u)),
                None => Err(AppError::validation("VALIDATION_ERROR", "image_ref part requires primary_storage_uri")),
            }
        },
        ProviderMessagePartKind::AudioRef => match binary_part_text_fallback(part, "audio") {
            Ok(t) => Ok(OpenAiPart::Text(t)),
            Err(e) => Err(e),
        },
        ProviderMessagePartKind::VideoRef => match binary_part_text_fallback(part, "video") {
            Ok(t) => Ok(OpenAiPart::Text(t)),
            Err(e) => Err(e),
        },
        ProviderMessagePartKind::FileRef => match binary_part_text_fallback(part, "file") {
            Ok(t) => Ok(OpenAiPart::Text(t)),
            Err(e) => Err(e),
        },
        _ => match payload_part_text(part) {
            Ok(t) => Ok(OpenAiPart::Text(t)),
            Err(e) => Err(e),
        },
    }
}

/// Whether a part can be sent.
pub open spec fn sendable(part: ProviderMessagePart) -> bool {
    exists|x: OpenAiPart| is_openai_part(Ok(x), part)
}

/// Whether `r` is the request message for `message`: a single text part
/// goes as plain text (empty when it has none); any other list of parts
/// goes as a list of items, and the first part that cannot be sent refuses
/// the message.
pub open spec fn is_openai_message(r: Result<OpenAiMessage, AppError>, message: ProviderChatMessage) -> bool {
    let parts = message.parts@;
    if parts.len() == 1 && parts[0].kind == ProviderMessagePartKind::Text {
        r matches Ok(m) && m.role@ == provider_role_name(message.role) && (m.content matches OpenAiContent::Plain(t)
            && t@ == text_or_empty(parts[0]))
    } else {
        match r {
            Ok(m) => m.role@ == provider_role_name(message.role) && (m.content matches OpenAiContent::Parts(items)
                && items@.len() == parts.len() && forall|i: int|
                0 <= i < parts.len() ==> is_openai_part(Ok(#[trigger] items@[i]), parts[i])),
            Err(e) => exists|i: int|
                0 <= i < parts.len() && is_openai_part(Err(e), #[trigger] parts[i]) && forall|j: int|
                    0 <= j < i ==> sendable(#[trigger] parts[j]),
        }
    }
}

/// The request message for a message of the conversation.
pub fn message_to_openai_value(message: &ProviderChatMessage) -> (r: Result<OpenAiMessage, AppError>)
    ensures
        is_openai_message(r, *message),
{
    let role = String::from_str(role_to_provider(message.role));
    if message.parts.len() == 1 && message.parts[0].kind == ProviderMessagePartKind::Text {
        let t = match part_text(&message.parts[0]) {
            Some(t) => t,
            None => String::new(),
        };
        return Ok(OpenAiMessage { role, content: OpenAiContent::Plain(t) });
    }
    let mut items: Vec<OpenAiPart> = Vec::new();
    let mut i: usize = 0;
    while i < message.parts.len()
        invariant
            i <= message.parts@.len(),
            items@.len() == i,
            forall|k: int| 0 <= k < i ==> is_openai_part(Ok(#[trigger] items@[k]), message.parts@[k]),
        decreases message.parts.len() - i,
    {
        match part_to_openai_value(&message.parts[i]) {
            Ok(item) => items.push(item),
            Err(e) => {
                proof {
                    assert forall|j: int| 0 <= j < i implies sendable(#[trigger] message.parts@[j]) by {
                        assert(is_openai_part(Ok(items@[j]), message.parts@[j]));
                    }
                    assert(is_openai_part(Err(e), message.parts@[i as int]));
                }
                return Err(e);
            },
        }
        i = i + 1;
    }
    Ok(OpenAiMessage { role, content: OpenAiContent::Parts(items) })
}

/// Whether the data of a stream event is the end marker `[DONE]`, spaces aside.
pub fn is_done_marker(data: &str) -> (r: bool)
    ensures
        r == (crate::text::trim_seq(data@) == "[DONE]"@),
{
    let t = trim(data);
    str_eq(t.as_str(), "[DONE]")
}

/// What a decoded stream event of an OpenAI-compatible provider carries,
/// as read from its JSON.
#[derive(Debug, Clone)]
pub struct OpenAiStreamPayload {
    /// The event's JSON text.
    pub raw_json: String,
    /// The three counts of its `usage`, when it has one.
    pub usage: Option<(Option<i64>, Option<i64>, Option<i64>)>,
    /// Its first choice, when it has one: the finish reason, and the parts
    /// of its delta (`None` when it has no delta).
    pub choice: Option<(Option<String>, Option<Vec<ProviderMessagePart>>)>,
}

/// What a stream has brought so far.
#[derive(Debug, Clone)]
pub struct OpenAiStreamState {
    /// The text of all the parts so far.
    pub final_text: String,
    /// The last finish reason reported.
    pub finish_reason: Option<String>,
    pub prompt_tokens: Option<i64>,
    pub completion_tokens: Option<i64>,
    pub total_tokens: Option<i64>,
    /// How many events were decoded.
    pub chunk_count: i64,
}

/// The parts of the delta a payload carries, if any.
pub open spec fn delta_parts(p: OpenAiStreamPayload) -> Seq<ProviderMessagePart> {
    match p.choice {
        Some(c) => match c.1 {
            Some(parts) => parts@,
            None => Seq::empty(),
        },
        None => Seq::empty(),
    }
}

/// The summary of a finished stream: `{"chunk_count":N,"streamed":true}`.
pub open spec fn stream_summary_json(chunk_count: i64) -> Seq<char> {
    "{\"chunk_count\":"@ + signed_decimal(chunk_count as int) + ",\"streamed\":true}"@
}

impl OpenAiStreamState {
    /// Nothing has come yet.
    pub fn new() -> (s: Self)
        ensures
            s.final_text@ == Seq::<char>::empty(),
            s.finish_reason is None,
            s.prompt_tokens is None,
            s.completion_tokens is None,
            s.total_tokens is None,
            s.chunk_count == 0,
    {
        OpenAiStreamState {
            final_text: String::new(),
            finish_reason: None,
            prompt_tokens: None,
            completion_tokens: None,
            total_tokens: None,
            chunk_count: 0,
        }
    }

    /// Takes in a decoded event: it counts; its usage replaces the counts;
    /// its choice's finish reason, when it has one, replaces the last; the
    /// text of its delta's parts joins the final text; and when the delta
    /// has parts they are reported.
    pub fn on_payload(&mut self, payload: OpenAiStreamPayload) -> (r: Option<ProviderChatEvent>)
        requires
            old(self).chunk_count < i64::MAX,
        ensures
            final(self).chunk_count == old(self).chunk_count + 1,
            match payload.usage {
                Some(u) => final(self).prompt_tokens == u.0 && final(self).completion_tokens == u.1
                    && final(self).total_tokens == u.2,
                None => final(self).prompt_tokens == old(self).prompt_tokens && final(self).completion_tokens
                    == old(self).completion_tokens && final(self).total_tokens == old(self).total_tokens,
            },
            opt_view(final(self).finish_reason) == match payload.choice {
                Some(c) => first_some(opt_view(c.0), opt_view(old(self).finish_reason)),
                None => opt_view(old(self).finish_reason),
            },
            final(self).final_text@ == old(self).final_text@ + parts_text(delta_parts(payload)),
            delta_parts(payload).len() > 0 ==> (r matches Some(ProviderChatEvent::Delta { parts, raw_event_json })
                && parts@ == delta_parts(payload) && opt_view(raw_event_json) == Some(payload.raw_json@)),
            delta_parts(payload).len() == 0 ==> r is None,
    {
        self.chunk_count = self.chunk_count + 1;
        if let Some(u) = payload.usage {
            self.prompt_tokens = u.0;
            self.completion_tokens = u.1;
            self.total_tokens = u.2;
        }
        let mut parts: Vec<ProviderMessagePart> = Vec::new();
        match payload.choice {
            Some((reason, delta)) => {
                match reason {
                    Some(f) => self.finish_reason = Some(f),
                    None => {},
                }
                match delta {
                    Some(ps) => parts = ps,
                    None => {},
                }
            },
            None => {},
        }
        let text = crate::services::generation::extract_text_from_parts(parts.as_slice());
        self.final_text.append(text.as_str());
        if parts.len() == 0 {
            return None;
        }
        Some(ProviderChatEvent::Delta { parts, raw_event_json: Some(payload.raw_json) })
    }

    /// The failure when the body ends before the end marker `[DONE]`.
    pub fn ended_early(&self) -> (e: AppError)
        ensures
            is_internal(e, "provider stream ended before receiving [DONE]"@),
    {
        AppError::internal("provider stream ended before receiving [DONE]")
    }

    /// The end of the stream: the end event, with the counts and the
    /// summary of the stream, and the reply made of the final text.
    pub fn finish(&self) -> (r: (ProviderChatEvent, ProviderChatResponse))
        ensures
            r.0 matches ProviderChatEvent::Finished {
                finish_reason,
                prompt_tokens,
                completion_tokens,
                total_tokens,
                raw_event_json,
            } && opt_view(finish_reason) == opt_view(self.finish_reason) && prompt_tokens == self.prompt_tokens
                && completion_tokens == self.completion_tokens && total_tokens == self.total_tokens && opt_view(
                raw_event_json,
            ) == Some(stream_summary_json(self.chunk_count)),
            r.1.parts@.len() == 1,
            r.1.parts@[0].kind == ProviderMessagePartKind::Text,
            opt_view(r.1.parts@[0].text) == Some(self.final_text@),
            r.1.parts@[0].content is None,
            r.1.parts@[0].metadata_json@ == "{}"@,
            opt_view(r.1.finish_reason) == opt_view(self.finish_reason),
            r.1.prompt_tokens == self.prompt_tokens,
            r.1.completion_tokens == self.completion_tokens,
            r.1.total_tokens == self.total_tokens,
            opt_view(r.1.raw_response_json) == Some(stream_summary_json(self.chunk_count)),
    {
        let mut summary = String::from_str("{\"chunk_count\":");
        push_signed_decimal(&mut summary, self.chunk_count);
        summary.append(",\"streamed\":true}");
        let event = ProviderChatEvent::Finished {
            finish_reason: self.finish_reason.clone(),
            prompt_tokens: self.prompt_tokens,
            completion_tokens: self.completion_tokens,
            total_tokens: self.total_tokens,
            raw_event_json: Some(summary.clone()),
        };
        let part = ProviderMessagePart {
            kind: ProviderMessagePartKind::Text,
            text: Some(self.final_text.clone()),
            content: None,
            metadata_json: String::from_str("{}"),
        };
        let response = ProviderChatResponse {
            parts: vec![part],
            finish_reason: self.finish_reason.clone(),
            prompt_tokens: self.prompt_tokens,
            completion_tokens: self.completion_tokens,
            total_tokens: self.total_tokens,
            raw_response_json: Some(summary),
        };
        (event, response)
    }
}


/// Whether `p` is a text part holding `text`, with `meta` as its metadata.
pub open spec fn is_text_part(p: ProviderMessagePart, text: Seq<char>, meta: Seq<char>) -> bool {
    &&& p.kind == ProviderMessagePartKind::Text
    &&& opt_view(p.text) == Some(text)
    &&& p.content is None
    &&& p.metadata_json@ == meta
}

/// Whether `parts` are the text parts `expected` (text, metadata), in order.
pub open spec fn parts_are(parts: Seq<ProviderMessagePart>, expected: Seq<(Seq<char>, Seq<char>)>) -> bool {
    &&& parts.len() == expected.len()
    &&& forall|k: int| 0 <= k < parts.len() ==> #[trigger] is_text_part(parts[k], expected[k].0, expected[k].1)
}

fn text_part(text: &str, meta: String) -> (p: ProviderMessagePart)
    ensures
        is_text_part(p, text@, meta@),
{
    ProviderMessagePart {
        kind: ProviderMessagePartKind::Text,
        text: Some(String::from_str(text)),
        content: None,
        metadata_json: meta,
    }
}

/// The text of an item of an array content: the string under `text` when
/// the item has that member, else the string under `content`.
pub open spec fn item_text(item: Seq<char>) -> Option<Seq<char>> {
    match json_object_members_of(item) {
        Some(ms) => match first_member(ms, "text"@) {
            Some(m) => m.1,
            None => match first_member(ms, "content"@) {
                Some(m) => m.1,
                None => None,
            },
        },
        None => None,
    }
}

/// The text parts of the items that have a text, each with the item's own
/// JSON text as its metadata.
pub open spec fn item_parts(items: Seq<Seq<char>>) -> Seq<(Seq<char>, Seq<char>)>
    decreases items.len(),
{
    if items.len() == 0 {
        Seq::empty()
    } else {
        let before = item_parts(items.drop_last());
        match item_text(items.last()) {
            Some(t) => before.push((t, items.last())),
            None => before,
        }
    }
}

fn item_text_of(item: &str) -> (r: Option<String>)
    ensures
        opt_view(r) == item_text(item@),
{
    match json_object_members(item) {
        Some(ms) => match find_member(&ms, "text") {
            Some(j) => ms[j].1.clone(),
            None => match find_member(&ms, "content") {
                Some(j) => ms[j].1.clone(),
                None => None,
            },
        },
        None => None,
    }
}

fn item_parts_of(items: &Vec<String>) -> (r: Vec<ProviderMessagePart>)
    ensures
        parts_are(r@, item_parts(texts_view(items@))),
{
    let ghost all = texts_view(items@);
    let mut r: Vec<ProviderMessagePart> = Vec::new();
    let mut i: usize = 0;
    while i < items.len()
        invariant
            i <= items@.len(),
            all == texts_view(items@),
            parts_are(r@, item_parts(all.take(i as int))),
        decreases items.len() - i,
    {
        proof {
            assert(all.take(i + 1 as int).drop_last() =~= all.take(i as int));
            assert(all.take(i + 1 as int).last() == items@[i as int]@);
        }
        let ghost before = r@;
        match item_text_of(items[i].as_str()) {
            Some(t) => {
                r.push(text_part(t.as_str(), items[i].clone()));
                proof {
                    let e = item_parts(all.take(i + 1 as int));
                    assert forall|k: int| 0 <= k < r@.len() implies #[trigger] is_text_part(r@[k], e[k].0, e[k].1) by {
                        if k < before.len() {
                            assert(r@[k] == before[k]);
                        }
                    }
                }
            },
            None => {},
        }
        i = i + 1;
    }
    proof {
        assert(all.take(items@.len() as int) =~= all);
    }
    r
}

/// The parts of the delta `delta` of a streamed chunk: its `content` as
/// one text part when it is a string; the text parts of its items when it
/// is an array; none otherwise.
pub open spec fn delta_text_parts(delta: Seq<char>) -> Seq<(Seq<char>, Seq<char>)> {
    match string_member(delta, "content"@) {
        Some(t) => seq![(t, "{}"@)],
        None => match member_json(delta, "content"@) {
            Some(c) => match json_array_items_of(c) {
                Some(items) => item_parts(items),
                None => Seq::empty(),
            },
            None => Seq::empty(),
        },
    }
}

/// The parts of the delta of a streamed chunk, from its JSON text.
pub fn parse_stream_delta_parts(delta: &str) -> (r: Vec<ProviderMessagePart>)
    ensures
        parts_are(r@, delta_text_parts(delta@)),
{
    proof {
        reveal_strlit("{}");
    }
    match string_member_of(delta, "content") {
        Some(t) => {
            let r = vec![text_part(t.as_str(), String::from_str("{}"))];
            assert(r@.len() == 1);
            r
        },
        None => match member_json_of(delta, "content") {
            Some(c) => match json_array_items(c.as_str()) {
                Some(items) => item_parts_of(&items),
                None => Vec::new(),
            },
            None => Vec::new(),
        },
    }
}

/// The parts of a reply message with the JSON text `message`: one empty
/// text part when it has no `content` or a null one; its `content` as one
/// text part when that is a string; the text parts of its items when it is
/// an array that has some (else the message below); any other content is
/// refused with the message that shows it.
pub open spec fn response_parts(message: Seq<char>) -> Result<Seq<(Seq<char>, Seq<char>)>, Seq<char>> {
    match member_json(message, "content"@) {
        None => Ok(seq![(Seq::empty(), "{}"@)]),
        Some(c) => if c == "null"@ {
            Ok(seq![(Seq::empty(), "{}"@)])
        } else {
            match string_member(message, "content"@) {
                Some(t) => Ok(seq![(t, "{}"@)]),
                None => match json_array_items_of(c) {
                    Some(items) => if item_parts(items).len() == 0 {
                        Err("provider response array content did not contain textual items"@)
                    } else {
                        Ok(item_parts(items))
                    },
                    None => Err("unsupported provider response content shape: "@ + c),
                },
            }
        },
    }
}

/// The parts of a reply message, from its JSON text.
pub fn parse_response_parts(message: &str) -> (r: Result<Vec<ProviderMessagePart>, AppError>)
    ensures
        match response_parts(message@) {
            Ok(e) => r matches Ok(p) && parts_are(p@, e),
            Err(m) => fails_validation(r, "VALIDATION_ERROR"@, m),
        },
{
    proof {
        reveal_strlit("{}");
        reveal_strlit("null");
    }
    let content = match member_json_of(message, "content") {
        None => {
            let empty = String::new();
            return Ok(vec![text_part(empty.as_str(), String::from_str("{}"))]);
        },
        Some(c) => c,
    };
    if str_eq(content.as_str(), "null") {
        let empty = String::new();
        return Ok(vec![text_part(empty.as_str(), String::from_str("{}"))]);
    }
    match string_member_of(message, "content") {
        Some(t) => {
            return Ok(vec![text_part(t.as_str(), String::from_str("{}"))]);
        },
        None => {},
    }
    match json_array_items(content.as_str()) {
        Some(items) => {
            let parts = item_parts_of(&items);
            if parts.len() == 0 {
                return Err(
                    AppError::validation("VALIDATION_ERROR", "provider response array content did not contain textual items"),
                );
            }
            Ok(parts)
        },
        None => {
            let mut text = String::from_str("unsupported provider response content shape: ");
            text.append(content.as_str());
            Err(AppError::validation("VALIDATION_ERROR", text.as_str()))
        },
    }
}

/// The first choice of the chunk with the JSON text `data`, if it has one.
pub open spec fn first_choice(data: Seq<char>) -> Option<Seq<char>> {
    match member_json(data, "choices"@) {
        Some(c) => match json_array_items_of(c) {
            Some(items) => if items.len() > 0 {
                Some(items[0])
            } else {
                None
            },
            None => None,
        },
        None => None,
    }
}

/// Whether `p` is what the JSON chunk `data`, printed compactly as
/// `compact`, carries: its text, the three counts of its `usage` when it
/// has one, and the finish reason and delta parts of its first choice.
pub open spec fn payload_is(data: Seq<char>, compact: Seq<char>, p: OpenAiStreamPayload) -> bool {
    &&& p.raw_json@ == compact
    &&& match member_json(data, "usage"@) {
        None => p.usage is None,
        Some(u) => p.usage == Some(
            (
                i64_in(member_json(u, "prompt_tokens"@)),
                i64_in(member_json(u, "completion_tokens"@)),
                i64_in(member_json(u, "total_tokens"@)),
            ),
        ),
    }
    &&& match first_choice(data) {
        None => p.choice is None,
        Some(ch) => p.choice matches Some((reason, delta)) && opt_view(reason) == string_member(ch, "finish_reason"@)
            && match member_json(ch, "delta"@) {
            None => delta is None,
            Some(d) => delta matches Some(v) && parts_are(v@, delta_text_parts(d)),
        },
    }
}

/// Decodes the JSON text of one chunk of a stream; text that is not JSON
/// is an internal error that carries the parser's message.
pub fn decode_stream_payload(data: &str) -> (r: Result<OpenAiStreamPayload, AppError>)
    ensures
        match json_parse_of(data@) {
            Err(m) => fails_internal(r, "failed to decode provider stream event: "@ + m),
            Ok(compact) => r matches Ok(p) && payload_is(data@, compact, p),
        },
{
    let compact = match parse_json_text(data) {
        Ok(t) => t,
        Err(m) => {
            let mut message = String::from_str("failed to decode provider stream event: ");
            message.append(m.as_str());
            return Err(AppError::internal(message.as_str()));
        },
    };
    let usage = match member_json_of(data, "usage") {
        None => None,
        Some(u) => {
            let p = member_json_of(u.as_str(), "prompt_tokens");
            let c = member_json_of(u.as_str(), "completion_tokens");
            let t = member_json_of(u.as_str(), "total_tokens");
            Some((i64_in_of(&p), i64_in_of(&c), i64_in_of(&t)))
        },
    };
    let first = match member_json_of(data, "choices") {
        Some(c) => match json_array_items(c.as_str()) {
            Some(items) => if items.len() > 0 {
                Some(items[0].clone())
            } else {
                None
            },
            None => None,
        },
        None => None,
    };
    let choice = match first {
        None => None,
        Some(ch) => {
            let reason = string_member_of(ch.as_str(), "finish_reason");
            let delta = match member_json_of(ch.as_str(), "delta") {
                None => None,
                Some(d) => Some(parse_stream_delta_parts(d.as_str())),
            };
            Some((reason, delta))
        },
    };
    Ok(OpenAiStreamPayload { raw_json: compact, usage, choice })
}


/// Whether `r` is what an OpenAI-compatible provider's answer to a chat
/// request comes to, given its status and its body: a body that is not JSON
/// fails; a status outside 200..=299 is refused with the status and the
/// body; else the first choice's message gives the parts, the choice its
/// finish reason, the body's `usage` the counts, and the body is kept.
pub open spec fn chat_completion_is(status: u16, body: Seq<char>, r: Result<ProviderChatResponse, AppError>) -> bool {
    match json_parse_of(body) {
        Err(m) => fails_internal(r, "failed to decode provider response: "@ + m),
        Ok(compact) => if !(200 <= status && status <= 299) {
            fails_validation(r, "VALIDATION_ERROR"@, "API request failed ["@ + signed_decimal(status as int) + "]: "@ + compact)
        } else {
            match first_choice(body) {
                None => fails_validation(r, "VALIDATION_ERROR"@, "provider response missing choices[0]"@),
                Some(ch) => match member_json(ch, "message"@) {
                    None => fails_validation(r, "VALIDATION_ERROR"@, "provider response missing message"@),
                    Some(m) => match response_parts(m) {
                        Err(msg) => fails_validation(r, "VALIDATION_ERROR"@, msg),
                        Ok(e) => r matches Ok(resp) && parts_are(resp.parts@, e)
                            && opt_view(resp.finish_reason) == string_member(ch, "finish_reason"@)
                            && resp.prompt_tokens == i64_in(then_member(member_json(body, "usage"@), "prompt_tokens"@))
                            && resp.completion_tokens == i64_in(then_member(member_json(body, "usage"@), "completion_tokens"@))
                            && resp.total_tokens == i64_in(then_member(member_json(body, "usage"@), "total_tokens"@))
                            && opt_view(resp.raw_response_json) == Some(compact),
                    },
                },
            }
        },
    }
}

/// What an OpenAI-compatible provider's answer to a (not streamed) chat
/// request comes to, from its status and its body.
pub fn parse_chat_completion(status: u16, body: &str) -> (r: Result<ProviderChatResponse, AppError>)
    ensures
        chat_completion_is(status, body@, r),
{
    let compact = match parse_json_text(body) {
        Ok(t) => t,
        Err(m) => {
            let mut message = String::from_str("failed to decode provider response: ");
            message.append(m.as_str());
            return Err(AppError::internal(message.as_str()));
        },
    };
    if !(200 <= status && status <= 299) {
        let mut message = String::from_str("API request failed [");
        push_signed_decimal(&mut message, status as i64);
        message.append("]: ");
        message.append(compact.as_str());
        return Err(AppError::validation("VALIDATION_ERROR", message.as_str()));
    }
    let first = match member_json_of(body, "choices") {
        Some(c) => match json_array_items(c.as_str()) {
            Some(items) => if items.len() > 0 {
                Some(items[0].clone())
            } else {
                None
            },
            None => None,
        },
        None => None,
    };
    let choice = match first {
        Some(ch) => ch,
        None => return Err(AppError::validation("VALIDATION_ERROR", "provider response missing choices[0]")),
    };
    let message = match member_json_of(choice.as_str(), "message") {
        Some(m) => m,
        None => return Err(AppError::validation("VALIDATION_ERROR", "provider response missing message")),
    };
    let parts = match parse_response_parts(message.as_str()) {
        Ok(p) => p,
        Err(e) => return Err(e),
    };
    let usage = member_json_of(body, "usage");
    let prompt = then_member_of(&usage, "prompt_tokens");
    let completion = then_member_of(&usage, "completion_tokens");
    let total = then_member_of(&usage, "total_tokens");
    Ok(ProviderChatResponse {
        parts,
        finish_reason: string_member_of(choice.as_str(), "finish_reason"),
        prompt_tokens: i64_in_of(&prompt),
        completion_tokens: i64_in_of(&completion),
        total_tokens: i64_in_of(&total),
        raw_response_json: Some(compact),
    })
}


/// The JSON text of a request item.
pub open spec fn part_json_text(part: OpenAiPart) -> Seq<char> {
    match part {
        OpenAiPart::Text(t) => json_value_object_of(seq![("type"@, json_quoted("text"@)), ("text"@, json_quoted(t@))]),
        OpenAiPart::ImageUrl(u) => json_value_object_of(
            seq![
                ("type"@, json_quoted("image_url"@)),
                ("image_url"@, json_value_object_of(seq![("url"@, json_quoted(u@))])),
            ],
        ),
    }
}

/// The JSON text of a request message: its role and its content, a string
/// or the array of its items.
pub open spec fn message_json_text(m: OpenAiMessage) -> Seq<char> {
    let content = match m.content {
        OpenAiContent::Plain(t) => json_quoted(t@),
        OpenAiContent::Parts(ps) => json_value_array_of(ps@.map_values(|p: OpenAiPart| part_json_text(p))),
    };
    json_value_object_of(seq![("role"@, json_quoted(m.role@)), ("content"@, content)])
}

fn part_json(part: &OpenAiPart) -> (r: String)
    ensures
        r@ == part_json_text(*part),
{
    match part {
        OpenAiPart::Text(t) => {
            let pairs = vec![
                (String::from_str("type"), json_string_text("text")),
                (String::from_str("text"), json_string_text(t.as_str())),
            ];
            proof {
                assert(string_pairs_view(pairs@) =~= seq![("type"@, json_quoted("text"@)), ("text"@, json_quoted(t@))]);
            }
            json_value_object(pairs.as_slice())
        },
        OpenAiPart::ImageUrl(u) => {
            let inner = vec![(String::from_str("url"), json_string_text(u.as_str()))];
            proof {
                assert(string_pairs_view(inner@) =~= seq![("url"@, json_quoted(u@))]);
            }
            let pairs = vec![
                (String::from_str("type"), json_string_text("image_url")),
                (String::from_str("image_url"), json_value_object(inner.as_slice())),
            ];
            proof {
                assert(string_pairs_view(pairs@) =~= seq![
                    ("type"@, json_quoted("image_url"@)),
                    ("image_url"@, json_value_object_of(seq![("url"@, json_quoted(u@))])),
                ]);
            }
            json_value_object(pairs.as_slice())
        },
    }
}

/// The JSON text of a request message.
pub fn message_json(message: &OpenAiMessage) -> (r: String)
    ensures
        r@ == message_json_text(*message),
{
    let content = match &message.content {
        OpenAiContent::Plain(t) => json_string_text(t.as_str()),
        OpenAiContent::Parts(ps) => {
            let mut items: Vec<String> = Vec::new();
            let mut i: usize = 0;
            while i < ps.len()
                invariant
                    i <= ps@.len(),
                    texts_view(items@) == ps@.take(i as int).map_values(|p: OpenAiPart| part_json_text(p)),
                decreases ps.len() - i,
            {
                let ghost prev = items@;
                let item = part_json(&ps[i]);
                let ghost item_text = item@;
                items.push(item);
                proof {
                    assert(texts_view(items@) =~= texts_view(prev).push(item_text));
                    assert(ps@.take(i + 1 as int).map_values(|p: OpenAiPart| part_json_text(p)) =~= ps@.take(i as int).map_values(
                        |p: OpenAiPart| part_json_text(p),
                    ).push(part_json_text(ps@[i as int])));
                }
                i = i + 1;
            }
            proof {
                assert(ps@.take(ps@.len() as int) =~= ps@);
            }
            json_value_array(items.as_slice())
        },
    };
    let pairs = vec![(String::from_str("role"), json_string_text(message.role.as_str())), (String::from_str("content"), content)];
    proof {
        assert(string_pairs_view(pairs@) =~= seq![("role"@, json_quoted(message.role@)), ("content"@, pairs@[1].1@)]);
    }
    json_value_object(pairs.as_slice())
}

/// The members of the request parameters, as (key, JSON text of the value);
/// none when the parameters are not an object.
pub open spec fn parameter_pairs(params: Seq<char>) -> Seq<(Seq<char>, Seq<char>)> {
    match json_object_members_of(params) {
        Some(ms) => ms.map_values(|m: MemberText| (m.0, m.2)),
        None => Seq::empty(),
    }
}

/// The members of a chat request body, in the order they are put in the
/// object (a later one replaces an earlier one under the same key): the
/// model, the messages and the stream flag, then every request parameter.
pub open spec fn chat_body_pairs(model_id: Seq<char>, messages: Seq<Seq<char>>, params: Seq<char>, stream: bool) -> Seq<(Seq<char>, Seq<char>)> {
    seq![
        ("model"@, json_quoted(model_id)),
        ("messages"@, json_value_array_of(messages)),
        ("stream"@, if stream { "true"@ } else { "false"@ }),
    ] + parameter_pairs(params)
}

/// The members of the request parameters, as (key, JSON text of the value);
/// none when the parameters are not an object.
pub fn parameter_pairs_of(params: &str) -> (r: Vec<(String, String)>)
    ensures
        string_pairs_view(r@) == parameter_pairs(params@),
{
    let mut r: Vec<(String, String)> = Vec::new();
    match json_object_members(params) {
        Some(ms) => {
            let ghost all = crate::support::members_view(ms@);
            let mut i: usize = 0;
            while i < ms.len()
                invariant
                    i <= ms@.len(),
                    all == crate::support::members_view(ms@),
                    string_pairs_view(r@) == all.take(i as int).map_values(|m: MemberText| (m.0, m.2)),
                decreases ms.len() - i,
            {
                let ghost prev = r@;
                let key = ms[i].0.clone();
                let value = ms[i].2.clone();
                let ghost pair = (key@, value@);
                r.push((key, value));
                proof {
                    assert(pair == (all[i as int].0, all[i as int].2));
                    assert(string_pairs_view(r@) =~= string_pairs_view(prev).push(pair));
                    assert(all.take(i + 1 as int).map_values(|m: MemberText| (m.0, m.2)) =~= all.take(i as int).map_values(
                        |m: MemberText| (m.0, m.2),
                    ).push((all[i as int].0, all[i as int].2)));
                }
                i = i + 1;
            }
            proof {
                assert(all.take(ms@.len() as int) =~= all);
            }
        },
        None => {},
    }
    r
}

/// The body of a chat request, as JSON text: the model, the messages (each
/// given as its JSON text) and the stream flag, then every member of the
/// request parameters, which win over the first three.
pub fn build_chat_request_body(model_id: &str, messages_json: &[String], request_parameters_json: &str, stream: bool) -> (r: String)
    ensures
        r@ == json_value_object_of(chat_body_pairs(model_id@, texts_view(messages_json@), request_parameters_json@, stream)),
{
    let mut pairs: Vec<(String, String)> = vec![
        (String::from_str("model"), json_string_text(model_id)),
        (String::from_str("messages"), json_value_array(messages_json)),
        (String::from_str("stream"), String::from_str(if stream { "true" } else { "false" })),
    ];
    let ghost head = string_pairs_view(pairs@);
    let mut params = parameter_pairs_of(request_parameters_json);
    pairs.append(&mut params);
    proof {
        assert(head =~= seq![
            ("model"@, json_quoted(model_id@)),
            ("messages"@, json_value_array_of(texts_view(messages_json@))),
            ("stream"@, if stream { "true"@ } else { "false"@ }),
        ]);
        assert(string_pairs_view(pairs@) =~= chat_body_pairs(model_id@, texts_view(messages_json@), request_parameters_json@, stream));
    }
    json_value_object(pairs.as_slice())
}

/// The members of the body of a streamed chat request: those of any chat
/// request, and a request for usage counts unless the parameters say
/// otherwise.
pub open spec fn stream_body_pairs(model_id: Seq<char>, messages: Seq<Seq<char>>, params: Seq<char>) -> Seq<(Seq<char>, Seq<char>)> {
    let base = chat_body_pairs(model_id, messages, params, true);
    match json_object_members_of(params) {
        Some(ms) => if first_member(ms, "stream_options"@) is Some {
            base
        } else {
            base.push(("stream_options"@, "{\"include_usage\":true}"@))
        },
        None => base.push(("stream_options"@, "{\"include_usage\":true}"@)),
    }
}

/// The body of a streamed chat request, as JSON text.
pub fn build_stream_request_body(model_id: &str, messages_json: &[String], request_parameters_json: &str) -> (r: String)
    ensures
        r@ == json_value_object_of(stream_body_pairs(model_id@, texts_view(messages_json@), request_parameters_json@)),
{
    let mut pairs: Vec<(String, String)> = vec![
        (String::from_str("model"), json_string_text(model_id)),
        (String::from_str("messages"), json_value_array(messages_json)),
        (String::from_str("stream"), String::from_str("true")),
    ];
    let ghost head = string_pairs_view(pairs@);
    let mut params = parameter_pairs_of(request_parameters_json);
    pairs.append(&mut params);
    let has_options = match json_object_members(request_parameters_json) {
        Some(ms) => find_member(&ms, "stream_options").is_some(),
        None => false,
    };
    let ghost base = string_pairs_view(pairs@);
    if !has_options {
        pairs.push((String::from_str("stream_options"), String::from_str("{\"include_usage\":true}")));
        proof {
            assert(string_pairs_view(pairs@) =~= base.push(("stream_options"@, "{\"include_usage\":true}"@)));
        }
    }
    proof {
        assert(head =~= seq![
            ("model"@, json_quoted(model_id@)),
            ("messages"@, json_value_array_of(texts_view(messages_json@))),
            ("stream"@, "true"@),
        ]);
        assert(base =~= chat_body_pairs(model_id@, texts_view(messages_json@), request_parameters_json@, true));
    }
    json_value_object(pairs.as_slice())
}


/// The adapter of OpenAI-compatible providers. The HTTP client it sends with stays at
/// the edge; the adapter itself holds nothing.
#[derive(Debug, Clone, Copy, PartialEq, Eq)]
pub struct OpenAiCompatibleProvider;

impl OpenAiCompatibleProvider {
    /// The adapter.
    pub fn new() -> (p: Self)
        ensures
            p == (OpenAiCompatibleProvider {  }),
    {
        OpenAiCompatibleProvider
    }
}

impl crate::providers::registry::ChatProvider for OpenAiCompatibleProvider {
    open spec fn family(&self) -> Seq<char> {
        "openai_compatible"@
    }

    fn provider_type(&self) -> (r: &'static str) {
        "openai_compatible"
    }
}


/// One event of an OpenAI-compatible stream: the end marker, or a chunk as
/// decoded from its JSON.
#[derive(Debug)]
pub enum OpenAiStreamItem {
    Done,
    Chunk(Result<OpenAiStreamPayload, AppError>),
}

/// What the data of one stream event is: the end marker `[DONE]` (spaces
/// aside), else the chunk its JSON decodes to.
pub fn openai_stream_item(data: &str) -> (r: OpenAiStreamItem)
    ensures
        crate::text::trim_seq(data@) == "[DONE]"@ ==> r is Done,
        crate::text::trim_seq(data@) != "[DONE]"@ ==> (r matches OpenAiStreamItem::Chunk(c) && match json_parse_of(data@) {
            Err(m) => fails_internal(c, "failed to decode provider stream event: "@ + m),
            Ok(compact) => c matches Ok(p) && payload_is(data@, compact, p),
        }),
{
    if is_done_marker(data) {
        OpenAiStreamItem::Done
    } else {
        OpenAiStreamItem::Chunk(decode_stream_payload(data))
    }
}

/// Whether an item ends the stream: the end marker, or a chunk that could
/// not be decoded.
pub open spec fn ends_openai_stream(item: OpenAiStreamItem) -> bool {
    item is Done || item matches OpenAiStreamItem::Chunk(Err(_))
}

/// Where the stream ends among the items: the first that ends it.
pub open spec fn openai_stop(items: Seq<OpenAiStreamItem>) -> Option<int>
    decreases items.len(),
{
    if items.len() == 0 {
        None
    } else {
        match openai_stop(items.drop_last()) {
            Some(k) => Some(k),
            None => if ends_openai_stream(items.last()) {
                Some(items.len() - 1)
            } else {
                None
            },
        }
    }
}

/// The deltas reported for the chunks, in order: the parts of each delta
/// that has some, with the chunk's JSON.
pub open spec fn openai_reports(items: Seq<OpenAiStreamItem>) -> Seq<(Seq<ProviderMessagePart>, Seq<char>)>
    decreases items.len(),
{
    if items.len() == 0 {
        Seq::empty()
    } else {
        let before = openai_reports(items.drop_last());
        match items.last() {
            OpenAiStreamItem::Chunk(Ok(p)) => if delta_parts(p).len() > 0 {
                before.push((delta_parts(p), p.raw_json@))
            } else {
                before
            },
            _ => before,
        }
    }
}

/// The text of all the chunks' deltas, one after the other.
pub open spec fn openai_text(items: Seq<OpenAiStreamItem>) -> Seq<char>
    decreases items.len(),
{
    if items.len() == 0 {
        Seq::empty()
    } else {
        openai_text(items.drop_last()) + match items.last() {
            OpenAiStreamItem::Chunk(Ok(p)) => parts_text(delta_parts(p)),
            _ => Seq::empty(),
        }
    }
}

/// What the chunks report of the reply: the last finish reason given, and
/// the counts of the last usage.
pub open spec fn openai_counts(items: Seq<OpenAiStreamItem>) -> (Option<Seq<char>>, Option<i64>, Option<i64>, Option<i64>)
    decreases items.len(),
{
    if items.len() == 0 {
        (None, None, None, None)
    } else {
        let c = openai_counts(items.drop_last());
        match items.last() {
            OpenAiStreamItem::Chunk(Ok(p)) => {
                let reason = match p.choice {
                    Some(ch) => first_some(opt_view(ch.0), c.0),
                    None => c.0,
                };
                match p.usage {
                    Some(u) => (reason, u.0, u.1, u.2),
                    None => (reason, c.1, c.2, c.3),
                }
            },
            _ => c,
        }
    }
}

/// Whether `reported` are the delta events `deltas` (parts, chunk JSON).
pub open spec fn reports_parts(reported: Seq<ProviderChatEvent>, deltas: Seq<(Seq<ProviderMessagePart>, Seq<char>)>) -> bool {
    &&& reported.len() == deltas.len()
    &&& forall|k: int|
        0 <= k < reported.len() ==> (#[trigger] reported[k] matches ProviderChatEvent::Delta { parts, raw_event_json }
            && parts@ == deltas[k].0 && opt_view(raw_event_json) == Some(deltas[k].1))
}

/// Whether `run` is what a whole OpenAI-compatible stream whose events are
/// `items` (in order, to the end of the body) comes to: each delta with
/// parts before the end is reported in order; at the end marker one end
/// event is reported last and the reply holds the text of all the deltas,
/// with the last finish reason and usage; a chunk that could not be
/// decoded fails with its error; a body that ends first fails, and no end
/// event is reported.
pub open spec fn openai_run_is(items: Seq<OpenAiStreamItem>, run: StreamRun) -> bool {
    match openai_stop(items) {
        None => reports_parts(run.reported@, openai_reports(items)) && (run.result matches Err(e) && is_internal(
            e,
            "provider stream ended before receiving [DONE]"@,
        )),
        Some(k) => {
            let deltas = openai_reports(items.take(k));
            match items[k] {
                OpenAiStreamItem::Chunk(Err(e)) => reports_parts(run.reported@, deltas)
                    && run.result == Err::<ProviderChatResponse, AppError>(e),
                _ => {
                    let c = openai_counts(items.take(k));
                    let summary = stream_summary_json(k as i64);
                    &&& run.reported@.len() == deltas.len() + 1
                    &&& reports_parts(run.reported@.take(deltas.len() as int), deltas)
                    &&& run.reported@.last() matches ProviderChatEvent::Finished {
                        finish_reason,
                        prompt_tokens,
                        completion_tokens,
                        total_tokens,
                        raw_event_json,
                    } && opt_view(finish_reason) == c.0 && prompt_tokens == c.1 && completion_tokens == c.2
                        && total_tokens == c.3 && opt_view(raw_event_json) == Some(summary)
                    &&& run.result matches Ok(resp) && resp.parts@.len() == 1 && is_text_part(
                        resp.parts@[0],
                        openai_text(items.take(k)),
                        "{}"@,
                    ) && opt_view(resp.finish_reason) == c.0 && resp.prompt_tokens == c.1 && resp.completion_tokens == c.2
                        && resp.total_tokens == c.3 && opt_view(resp.raw_response_json) == Some(summary)
                },
            }
        },
    }
}

proof fn lemma_openai_stop_kept(items: Seq<OpenAiStreamItem>, k: int)
    requires
        0 <= k < items.len(),
        openai_stop(items.take(k + 1)) == Some(k),
    ensures
        openai_stop(items) == Some(k),
    decreases items.len() - k,
{
    if items.len() == k + 1 {
        assert(items.take(k + 1) =~= items);
    } else {
        assert(items.drop_last().take(k + 1) =~= items.take(k + 1));
        lemma_openai_stop_kept(items.drop_last(), k);
    }
}

/// What a whole OpenAI-compatible stream comes to, from its events to the
/// end of the body.
pub fn run_openai_stream(items: Vec<OpenAiStreamItem>) -> (run: StreamRun)
    requires
        items@.len() < i64::MAX,
    ensures
        openai_run_is(items@, run),
{
    let ghost all = items@;
    let n = items.len();
    let mut rest = items;
    let mut state = OpenAiStreamState::new();
    let mut reported: Vec<ProviderChatEvent> = Vec::new();
    let mut i: usize = 0;
    while i < n
        invariant
            n == all.len(),
            all == items@,
            n < i64::MAX,
            i <= n,
            rest@ == all.skip(i as int),
            openai_stop(all.take(i as int)) is None,
            state.chunk_count == i,
            state.final_text@ == openai_text(all.take(i as int)),
            (opt_view(state.finish_reason), state.prompt_tokens, state.completion_tokens, state.total_tokens)
                == openai_counts(all.take(i as int)),
            reports_parts(reported@, openai_reports(all.take(i as int))),
        decreases n - i,
    {
        let ghost before = all.take(i as int);
        let item = rest.remove(0);
        proof {
            assert(item == all[i as int]);
            assert(all.take(i + 1 as int).drop_last() =~= before);
            assert(all.take(i + 1 as int).last() == item);
            assert(rest@ =~= all.skip(i + 1 as int));
        }
        let payload = match item {
            OpenAiStreamItem::Done => {
                proof {
                    assert(openai_stop(all.take(i + 1 as int)) == Some(i as int));
                    lemma_openai_stop_kept(all, i as int);
                }
                let (end, resp) = state.finish();
                let ghost old_reported = reported@;
                reported.push(end);
                proof {
                    assert(reported@.take(old_reported.len() as int) =~= old_reported);
                }
                return StreamRun { reported, result: Ok(resp) };
            },
            OpenAiStreamItem::Chunk(Err(e)) => {
                proof {
                    assert(openai_stop(all.take(i + 1 as int)) == Some(i as int));
                    lemma_openai_stop_kept(all, i as int);
                }
                return StreamRun { reported, result: Err(e) };
            },
            OpenAiStreamItem::Chunk(Ok(p)) => p,
        };
        let ghost old_reported = reported@;
        let ghost deltas = openai_reports(before);
        match state.on_payload(payload) {
            Some(d) => {
                reported.push(d);
                proof {
                    let d2 = openai_reports(all.take(i + 1 as int));
                    assert(d2.drop_last() =~= deltas);
                    assert forall|k: int| 0 <= k < reported@.len() implies (#[trigger] reported@[k] matches ProviderChatEvent::Delta {
                        parts,
                        raw_event_json,
                    } && parts@ == d2[k].0 && opt_view(raw_event_json) == Some(d2[k].1)) by {
                        if k < old_reported.len() {
                            assert(reported@[k] == old_reported[k]);
                        }
                    }
                }
            },
            None => {},
        }
        i = i + 1;
    }
    proof {
        assert(all.take(n as int) =~= all);
    }
    let e = state.ended_early();
    StreamRun { reported, result: Err(e) }
}

} // verus!
