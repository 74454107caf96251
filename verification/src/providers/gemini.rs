//! The adapter for Gemini providers, apart from the transport: the address
//! of a generation, the request messages and the system instruction sent
//! beside them, the headers and the JSON body of a request, what the JSON
//! of each chunk of a streamed reply says, and what the chunks add up to.

use vstd::prelude::*;

use crate::domain::{
    ApiChannel, ProviderChatEvent, ProviderChatMessage, ProviderChatResponse, ProviderMessagePart, ProviderMessagePartKind,
};
use crate::error::{fails_internal, fails_validation, AppError};
use crate::providers::common::{reports_deltas, text_item_json, text_items_json, text_message_json, text_messages_json, texts_joined, StreamRun};
use crate::providers::openai_compatible::{is_text_part, parameter_pairs};
use crate::support::{
    find_member, first_member, i64_in, i64_in_of, json_array_items, json_array_items_of, json_object_members, json_object_members_of,
    json_parse_of, json_string_text, json_quoted, json_value_array, json_value_array_of, json_value_object,
    json_value_object_of, member_json, member_json_of, parse_json_text, string_member, string_member_of, string_pairs_view,
    texts_view, then_member, then_member_of, then_string, then_string_of, MemberText,
};
use crate::providers::common::{
    build_headers as channel_headers, header_value, header_value_ok, headers_spec, headers_view, put_header,
    put_header_spec, validation_error,
};
use crate::providers::openai_compatible::stream_summary_json;
use crate::services::channel_service::opt_view;
use crate::services::generation::first_some;
use crate::text::{push_signed_decimal, signed_decimal};
use crate::providers::common::{
    build_endpoint_url, endpoint_url_text, message_to_text_message, split_error, split_spec, split_text_messages,
    string_views, text_messages_view, text_role, texts_error, texts_spec, url_parse_of, TextMessage,
};
use crate::text::{replace_all, replace_text};

verus! {

/// The request message for a message of the conversation: the assistant
/// speaks as `model`, every other role as `user`; each part as text.
pub fn message_to_gemini_value(message: &ProviderChatMessage) -> (r: Result<TextMessage, AppError>)
    ensures
        match texts_spec(message.parts@) {
            Some(ts) => r matches Ok(m) && m.role@ == text_role(message.role, "model"@) && string_views(m.texts@)
                == ts,
            None => fails_validation(r, "VALIDATION_ERROR"@, texts_error(message.parts@)),
        },
{
    message_to_text_message(message, "model")
}

/// The parts of the system instruction and the other messages of a
/// request to a Gemini provider; the first message that cannot be sent
/// refuses the request.
pub fn gemini_request_messages(messages: &[ProviderChatMessage]) -> (r: Result<(Vec<String>, Vec<TextMessage>), AppError>)
    ensures
        match split_spec(messages@, "model"@) {
            Some(p) => r matches Ok(v) && string_views(v.0@) == p.0 && text_messages_view(v.1@) == p.1,
            None => fails_validation(r, "VALIDATION_ERROR"@, split_error(messages@, "model"@)),
        },
{
    split_text_messages(messages, "model")
}

/// The endpoint of a generation: the channel's own (stream or chat), else
/// the standard path for the model; `{model}` in it stands for the model.
pub open spec fn generate_endpoint(channel: ApiChannel, model_id: Seq<char>, stream: bool) -> Seq<char> {
    let raw = if stream {
        match channel.stream_endpoint {
            Some(e) => e@,
            None => "/v1beta/models/"@ + model_id + ":streamGenerateContent?alt=sse"@,
        }
    } else {
        match channel.chat_endpoint {
            Some(e) => e@,
            None => "/v1beta/models/"@ + model_id + ":generateContent"@,
        }
    };
    replace_all(raw, "{model}"@, model_id)
}

/// The URL of a generation with `model_id`, streamed or not.
pub fn build_generate_url(channel: &ApiChannel, model_id: &str, stream: bool) -> (r: Result<String, AppError>)
    ensures
        match url_parse_of(endpoint_url_text(channel.base_url@, generate_endpoint(*channel, model_id@, stream))) {
            Ok(u) => r matches Ok(v) && v@ == u,
            Err(e) => fails_validation(r, "VALIDATION_ERROR"@, "invalid provider url: "@ + e),
        },
{
    let raw = if stream {
        match &channel.stream_endpoint {
            Some(e) => e.clone(),
            None => {
                let mut p = String::from_str("/v1beta/models/");
                p.append(model_id);
                p.append(":streamGenerateContent?alt=sse");
                p
            },
        }
    } else {
        match &channel.chat_endpoint {
            Some(e) => e.clone(),
            None => {
                let mut p = String::from_str("/v1beta/models/");
                p.append(model_id);
                p.append(":generateContent");
                p
            },
        }
    };
    proof {
        reveal_strlit("{model}");
    }
    let endpoint = replace_text(raw.as_str(), "{model}", model_id);
    build_endpoint_url(channel, endpoint.as_str())
}

/// The headers of a request to a Gemini channel: those of any channel,
/// then the key again under `x-goog-api-key` when there is one.
pub open spec fn gemini_headers_spec(auth_type: Seq<char>, api_key: Option<Seq<char>>, config: Seq<char>) -> Result<
    Seq<(Seq<char>, Seq<char>)>,
    Seq<char>,
> {
    match headers_spec(auth_type, api_key, config) {
        Ok(h) => match api_key {
            Some(k) => if header_value_ok(k) {
                Ok(put_header_spec(h, "x-goog-api-key"@, k))
            } else {
                Err("invalid x-goog-api-key header: failed to parse header value"@)
            },
            None => Ok(h),
        },
        Err(e) => Err(e),
    }
}

/// The headers of a request to a Gemini channel: those that any channel
/// sends, and its key under `x-goog-api-key`.
pub fn build_headers(channel: &ApiChannel) -> (r: Result<Vec<(String, String)>, AppError>)
    ensures
        match gemini_headers_spec(channel.auth_type@, opt_view(channel.api_key), channel.config_json@) {
            Ok(h) => r matches Ok(v) && headers_view(v@) == h,
            Err(e) => fails_validation(r, "VALIDATION_ERROR"@, e),
        },
{
    let headers = match channel_headers(channel) {
        Ok(h) => h,
        Err(e) => return Err(e),
    };
    match &channel.api_key {
        Some(key) => match header_value(key.as_str()) {
            Ok(()) => Ok(put_header(headers, String::from_str("x-goog-api-key"), key.clone())),
            Err(e) => {
                let mut message = String::from_str("invalid x-goog-api-key header: ");
                message.append(e.as_str());
                proof {
                    reveal_strlit("failed to parse header value");
                    reveal_strlit("invalid x-goog-api-key header: ");
                    reveal_strlit("invalid x-goog-api-key header: failed to parse header value");
                    assert(message@ =~= "invalid x-goog-api-key header: failed to parse header value"@);
                }
                Err(validation_error(message))
            },
        },
        None => Ok(headers),
    }
}

/// What a decoded stream event of a Gemini provider carries, as read from
/// its JSON.
#[derive(Debug, Clone)]
pub struct GeminiStreamPayload {
    /// The event's JSON text.
    pub raw_json: String,
    /// The texts of the parts of its first candidate's content, when it has
    /// such a list of parts.
    pub candidate_texts: Option<Vec<String>>,
    /// The three counts of its `usageMetadata`, when it has one.
    pub usage: Option<(Option<i64>, Option<i64>, Option<i64>)>,
    /// The finish reason of its first candidate, if any.
    pub finish_reason: Option<String>,
}

/// Texts one after another.
pub open spec fn concat_texts(ts: Seq<Seq<char>>) -> Seq<char>
    decreases ts.len(),
{
    if ts.len() == 0 {
        Seq::empty()
    } else {
        concat_texts(ts.drop_last()) + ts.last()
    }
}

/// The text of an event: its candidate's part texts one after another,
/// when that makes any text.
pub open spec fn candidate_text(p: GeminiStreamPayload) -> Option<Seq<char>> {
    match p.candidate_texts {
        Some(ts) => if concat_texts(string_views(ts@)).len() > 0 {
            Some(concat_texts(string_views(ts@)))
        } else {
            None
        },
        None => None,
    }
}

/// The text of an event, when it makes any.
pub fn extract_candidate_text(payload: &GeminiStreamPayload) -> (r: Option<String>)
    ensures
        opt_view(r) == candidate_text(*payload),
{
    match &payload.candidate_texts {
        Some(ts) => {
            let mut text = String::new();
            let mut i: usize = 0;
            while i < ts.len()
                invariant
                    i <= ts@.len(),
                    text@ == concat_texts(string_views(ts@.take(i as int))),
                decreases ts.len() - i,
            {
                proof {
                    assert(string_views(ts@.take(i + 1 as int)).drop_last() =~= string_views(ts@.take(i as int)));
                    assert(string_views(ts@.take(i + 1 as int)).last() == ts@[i as int]@);
                }
                text.append(ts[i].as_str());
                i = i + 1;
            }
            proof {
                assert(ts@.take(ts@.len() as int) =~= ts@);
            }
            if text.as_str().unicode_len() > 0 {
                Some(text)
            } else {
                None
            }
        },
        None => None,
    }
}

/// What a Gemini stream has brought so far.
#[derive(Debug, Clone)]
pub struct GeminiStreamState {
    /// The text of all the events so far.
    pub final_text: String,
    /// The last finish reason reported.
    pub finish_reason: Option<String>,
    pub prompt_tokens: Option<i64>,
    pub completion_tokens: Option<i64>,
    pub total_tokens: Option<i64>,
    /// How many events were decoded.
    pub chunk_count: i64,
}

impl GeminiStreamState {
    /// Nothing has come yet.
    pub fn new() -> (s: Self)
        ensures
            s.final_text@ == Seq::<char>::empty(),
            s.finish_reason is None,
            s.prompt_tokens is None,
            s.completion_tokens is None,
            s.total_tokens is None,
            s.chunk_count == 0,
    {
        GeminiStreamState {
            final_text: String::new(),
            finish_reason: None,
            prompt_tokens: None,
            completion_tokens: None,
            total_tokens: None,
            chunk_count: 0,
        }
    }

    /// Takes in a decoded event, which counts: its text, when it makes any,
    /// joins the final text and is reported as a text part carrying the
    /// event; each count of its usage, and its finish reason, replace the
    /// last when given.
    pub fn on_payload(&mut self, payload: GeminiStreamPayload) -> (r: Option<ProviderChatEvent>)
        requires
            old(self).chunk_count < i64::MAX,
        ensures
            final(self).chunk_count == old(self).chunk_count + 1,
            final(self).final_text@ == old(self).final_text@ + match candidate_text(payload) {
                Some(t) => t,
                None => Seq::empty(),
            },
            match payload.usage {
                Some(u) => final(self).prompt_tokens == first_some(u.0, old(self).prompt_tokens)
                    && final(self).completion_tokens == first_some(u.1, old(self).completion_tokens)
                    && final(self).total_tokens == first_some(u.2, old(self).total_tokens),
                None => final(self).prompt_tokens == old(self).prompt_tokens && final(self).completion_tokens
                    == old(self).completion_tokens && final(self).total_tokens == old(self).total_tokens,
            },
            opt_view(final(self).finish_reason) == first_some(
                opt_view(payload.finish_reason),
                opt_view(old(self).finish_reason),
            ),
            match candidate_text(payload) {
                Some(t) => r matches Some(ProviderChatEvent::Delta { parts, raw_event_json }) && parts@.len() == 1
                    && parts@[0].kind == ProviderMessagePartKind::Text && opt_view(parts@[0].text) == Some(t)
                    && parts@[0].content is None && parts@[0].metadata_json@ == payload.raw_json@ && opt_view(
                    raw_event_json,
                ) == Some(payload.raw_json@),
                None => r is None,
            },
    {
        self.chunk_count = self.chunk_count + 1;
        let text = extract_candidate_text(&payload);
        let event = match text {
            Some(t) => {
                self.final_text.append(t.as_str());
                let part = ProviderMessagePart {
                    kind: ProviderMessagePartKind::Text,
                    text: Some(t),
                    content: None,
                    metadata_json: payload.raw_json.clone(),
                };
                Some(ProviderChatEvent::Delta { parts: vec![part], raw_event_json: Some(payload.raw_json.clone()) })
            },
            None => None,
        };
        if let Some(u) = payload.usage {
            if u.0.is_some() {
                self.prompt_tokens = u.0;
            }
            if u.1.is_some() {
                self.completion_tokens = u.1;
            }
            if u.2.is_some() {
                self.total_tokens = u.2;
            }
        }
        if let Some(reason) = payload.finish_reason {
            self.finish_reason = Some(reason);
        }
        event
    }

    /// The end of the stream: the end event, with the counts and the
    /// summary of the stream, and the reply made of the final text.
    pub fn finish(&self) -> (r: (ProviderChatEvent, ProviderChatResponse))
        ensures
            r.0 matches ProviderChatEvent::Finished {
                finish_reason,
                prompt_tokens,
                completion_tokens,
                total_tokens,
                raw_event_json,
            } && opt_view(finish_reason) == opt_view(self.finish_reason) && prompt_tokens == self.prompt_tokens
                && completion_tokens == self.completion_tokens && total_tokens == self.total_tokens && opt_view(
                raw_event_json,
            ) == Some(stream_summary_json(self.chunk_count)),
            r.1.parts@.len() == 1,
            r.1.parts@[0].kind == ProviderMessagePartKind::Text,
            opt_view(r.1.parts@[0].text) == Some(self.final_text@),
            r.1.parts@[0].content is None,
            r.1.parts@[0].metadata_json@ == "{}"@,
            opt_view(r.1.finish_reason) == opt_view(self.finish_reason),
            r.1.prompt_tokens == self.prompt_tokens,
            r.1.completion_tokens == self.completion_tokens,
            r.1.total_tokens == self.total_tokens,
            opt_view(r.1.raw_response_json) == Some(stream_summary_json(self.chunk_count)),
    {
        let mut summary = String::from_str("{\"chunk_count\":");
        push_signed_decimal(&mut summary, self.chunk_count);
        summary.append(",\"streamed\":true}");
        let event = ProviderChatEvent::Finished {
            finish_reason: self.finish_reason.clone(),
            prompt_tokens: self.prompt_tokens,
            completion_tokens: self.completion_tokens,
            total_tokens: self.total_tokens,
            raw_event_json: Some(summary.clone()),
        };
        let part = ProviderMessagePart {
            kind: ProviderMessagePartKind::Text,
            text: Some(self.final_text.clone()),
            content: None,
            metadata_json: String::from_str("{}"),
        };
        let response = ProviderChatResponse {
            parts: vec![part],
            finish_reason: self.finish_reason.clone(),
            prompt_tokens: self.prompt_tokens,
            completion_tokens: self.completion_tokens,
            total_tokens: self.total_tokens,
            raw_response_json: Some(summary),
        };
        (event, response)
    }
}


/// The members of the body of a request to a Gemini provider, in order:
/// the contents; the system instruction when there are system texts; the
/// request parameters as the generation config when they are an object
/// with members.
pub open spec fn gemini_body_pairs(system: Seq<Seq<char>>, messages: Seq<(Seq<char>, Seq<Seq<char>>)>, params: Seq<char>) -> Seq<(Seq<char>, Seq<char>)> {
    let contents = seq![
        ("contents"@, json_value_array_of(messages.map_values(|m: (Seq<char>, Seq<Seq<char>>)| text_message_json(m.0, m.1, false)))),
    ];
    let with_system = if system.len() > 0 {
        contents.push(
            (
                "systemInstruction"@,
                json_value_object_of(
                    seq![
                        ("role"@, json_quoted("system"@)),
                        ("parts"@, json_value_array_of(system.map_values(|t: Seq<char>| text_item_json(t, false)))),
                    ],
                ),
            ),
        )
    } else {
        contents
    };
    if parameter_pairs(params).len() > 0 {
        with_system.push(("generationConfig"@, json_value_object_of(parameter_pairs(params))))
    } else {
        with_system
    }
}

/// The body of a request to a Gemini provider, as JSON text.
pub fn gemini_request_body(system: &Vec<String>, messages: &[TextMessage], request_parameters_json: &str) -> (r: String)
    ensures
        r@ == json_value_object_of(gemini_body_pairs(string_views(system@), text_messages_view(messages@), request_parameters_json@)),
{
    let items = text_messages_json(messages, false);
    let mut pairs: Vec<(String, String)> = vec![(String::from_str("contents"), json_value_array(items.as_slice()))];
    let ghost p0 = string_pairs_view(pairs@);
    if system.len() > 0 {
        let parts = text_items_json(system, false);
        let inner = vec![
            (String::from_str("role"), json_string_text("system")),
            (String::from_str("parts"), json_value_array(parts.as_slice())),
        ];
        proof {
            assert(string_pairs_view(inner@) =~= seq![
                ("role"@, json_quoted("system"@)),
                ("parts"@, json_value_array_of(string_views(system@).map_values(|t: Seq<char>| text_item_json(t, false)))),
            ]);
        }
        let ghost before = string_pairs_view(pairs@);
        let value = json_value_object(inner.as_slice());
        let ghost vt = value@;
        pairs.push((String::from_str("systemInstruction"), value));
        proof {
            assert(string_pairs_view(pairs@) =~= before.push(("systemInstruction"@, vt)));
        }
    }
    let ghost p1 = string_pairs_view(pairs@);
    let params = crate::providers::openai_compatible::parameter_pairs_of(request_parameters_json);
    if params.len() > 0 {
        let value = json_value_object(params.as_slice());
        let ghost vt = value@;
        pairs.push((String::from_str("generationConfig"), value));
        proof {
            assert(string_pairs_view(pairs@) =~= p1.push(("generationConfig"@, vt)));
        }
    }
    proof {
        assert(p0 =~= seq![
            ("contents"@, json_value_array_of(text_messages_view(messages@).map_values(|m: (Seq<char>, Seq<Seq<char>>)| text_message_json(m.0, m.1, false)))),
        ]);
        assert(string_pairs_view(pairs@) =~= gemini_body_pairs(string_views(system@), text_messages_view(messages@), request_parameters_json@));
    }
    json_value_object(pairs.as_slice())
}

/// The system instruction of a Gemini request body, as its second member
/// after the contents, holds the role `system` and one `{"text": t}` part
/// for each system text, in order; without system texts there is none. The
/// contents come first, one item for each message, in order.
pub proof fn law_gemini_system_parts(
    system: &Vec<String>,
    messages: &[TextMessage],
    request_parameters_json: &str,
    r: String,
)
    requires
        call_ensures(gemini_request_body, (system, messages, request_parameters_json), r),
    ensures
        system@.len() > 0 ==> exists|pairs: Seq<(Seq<char>, Seq<char>)>|
            #[trigger] json_value_object_of(pairs) == r@ && pairs.len() >= 2 && pairs[0].0 == "contents"@
                && pairs[1] == (
                "systemInstruction"@,
                json_value_object_of(
                    seq![
                        ("role"@, json_quoted("system"@)),
                        ("parts"@, json_value_array_of(Seq::new(system@.len(), |i: int| text_item_json(system@[i]@, false)))),
                    ],
                ),
            ),
        system@.len() == 0 ==> exists|pairs: Seq<(Seq<char>, Seq<char>)>|
            #[trigger] json_value_object_of(pairs) == r@ && forall|k: int|
                0 <= k < pairs.len() ==> (#[trigger] pairs[k]).0 != "systemInstruction"@,
        exists|pairs: Seq<(Seq<char>, Seq<char>)>|
            #[trigger] json_value_object_of(pairs) == r@ && pairs.len() >= 1 && pairs[0] == (
                "contents"@,
                json_value_array_of(
                    Seq::new(
                        messages@.len(),
                        |i: int| text_message_json(text_messages_view(messages@)[i].0, text_messages_view(messages@)[i].1, false),
                    ),
                ),
            ),
{
    let pairs = gemini_body_pairs(string_views(system@), text_messages_view(messages@), request_parameters_json@);
    assert(json_value_object_of(pairs) == r@);
    assert(text_messages_view(messages@).map_values(
        |m: (Seq<char>, Seq<Seq<char>>)| text_message_json(m.0, m.1, false),
    ) =~= Seq::new(
        messages@.len(),
        |i: int| text_message_json(text_messages_view(messages@)[i].0, text_messages_view(messages@)[i].1, false),
    ));
    reveal_strlit("systemInstruction");
    reveal_strlit("contents");
    reveal_strlit("generationConfig");
    if system@.len() > 0 {
        assert(string_views(system@).map_values(|t: Seq<char>| text_item_json(t, false)) =~= Seq::new(
            system@.len(),
            |i: int| text_item_json(system@[i]@, false),
        ));
    } else {
        assert("contents"@[0] != "systemInstruction"@[0]);
        assert("generationConfig"@[0] != "systemInstruction"@[0]);
    }
}

/// The first item of the array under `key` in the object `data`, if any.
pub open spec fn first_item(data: Seq<char>, key: Seq<char>) -> Option<Seq<char>> {
    match member_json(data, key) {
        Some(c) => match json_array_items_of(c) {
            Some(items) => if items.len() > 0 {
                Some(items[0])
            } else {
                None
            },
            None => None,
        },
        None => None,
    }
}

fn first_item_of(data: &str, key: &str) -> (r: Option<String>)
    ensures
        opt_view(r) == first_item(data@, key@),
{
    match member_json_of(data, key) {
        Some(c) => match json_array_items(c.as_str()) {
            Some(items) => if items.len() > 0 {
                Some(items[0].clone())
            } else {
                None
            },
            None => None,
        },
        None => None,
    }
}

/// The strings under `text` of the items that have one, in order.
pub open spec fn part_texts(items: Seq<Seq<char>>) -> Seq<Seq<char>>
    decreases items.len(),
{
    if items.len() == 0 {
        Seq::empty()
    } else {
        let before = part_texts(items.drop_last());
        match string_member(items.last(), "text"@) {
            Some(t) => before.push(t),
            None => before,
        }
    }
}

/// Whether `p` is what the JSON chunk `data`, printed compactly as
/// `compact`, carries: its text; the texts of the parts of the content of
/// its first candidate, when that is a list; the three counts of its
/// `usageMetadata` when it has one; the finish reason of its first candidate.
pub open spec fn gemini_payload_is(data: Seq<char>, compact: Seq<char>, p: GeminiStreamPayload) -> bool {
    let candidate = first_item(data, "candidates"@);
    &&& p.raw_json@ == compact
    &&& match then_member(then_member(candidate, "content"@), "parts"@) {
        Some(ps) => match json_array_items_of(ps) {
            Some(items) => p.candidate_texts matches Some(v) && string_views(v@) == part_texts(items),
            None => p.candidate_texts is None,
        },
        None => p.candidate_texts is None,
    }
    &&& match member_json(data, "usageMetadata"@) {
        None => p.usage is None,
        Some(u) => p.usage == Some(
            (
                i64_in(member_json(u, "promptTokenCount"@)),
                i64_in(member_json(u, "candidatesTokenCount"@)),
                i64_in(member_json(u, "totalTokenCount"@)),
            ),
        ),
    }
    &&& opt_view(p.finish_reason) == then_string(candidate, "finishReason"@)
}

fn part_texts_of(items: &Vec<String>) -> (r: Vec<String>)
    ensures
        string_views(r@) == part_texts(texts_view(items@)),
{
    let ghost all = texts_view(items@);
    let mut r: Vec<String> = Vec::new();
    let mut i: usize = 0;
    while i < items.len()
        invariant
            i <= items@.len(),
            all == texts_view(items@),
            string_views(r@) == part_texts(all.take(i as int)),
        decreases items.len() - i,
    {
        proof {
            assert(all.take(i + 1 as int).drop_last() =~= all.take(i as int));
            assert(all.take(i + 1 as int).last() == items@[i as int]@);
        }
        let ghost prev = r@;
        match string_member_of(items[i].as_str(), "text") {
            Some(t) => {
                let ghost tt = t@;
                r.push(t);
                proof {
                    assert(string_views(r@) =~= string_views(prev).push(tt));
                }
            },
            None => {},
        }
        i = i + 1;
    }
    proof {
        assert(all.take(items@.len() as int) =~= all);
    }
    r
}

/// Decodes the JSON text of one chunk of a Gemini stream; text that is not
/// JSON is an internal error that carries the parser's message.
pub fn decode_gemini_payload(data: &str) -> (r: Result<GeminiStreamPayload, AppError>)
    ensures
        match json_parse_of(data@) {
            Err(m) => fails_internal(r, "failed to decode provider stream event: "@ + m),
            Ok(compact) => r matches Ok(p) && gemini_payload_is(data@, compact, p),
        },
{
    let compact = match parse_json_text(data) {
        Ok(t) => t,
        Err(m) => {
            let mut message = String::from_str("failed to decode provider stream event: ");
            message.append(m.as_str());
            return Err(AppError::internal(message.as_str()));
        },
    };
    let candidate = first_item_of(data, "candidates");
    let content = then_member_of(&candidate, "content");
    let parts = then_member_of(&content, "parts");
    let candidate_texts = match &parts {
        Some(ps) => match json_array_items(ps.as_str()) {
            Some(items) => Some(part_texts_of(&items)),
            None => None,
        },
        None => None,
    };
    let usage = match member_json_of(data, "usageMetadata") {
        None => None,
        Some(u) => {
            let p = member_json_of(u.as_str(), "promptTokenCount");
            let c = member_json_of(u.as_str(), "candidatesTokenCount");
            let t = member_json_of(u.as_str(), "totalTokenCount");
            Some((i64_in_of(&p), i64_in_of(&c), i64_in_of(&t)))
        },
    };
    let finish_reason = then_string_of(&candidate, "finishReason");
    Ok(GeminiStreamPayload { raw_json: compact, candidate_texts, usage, finish_reason })
}


/// Whether `r` is what a Gemini provider's answer to a (not streamed)
/// request comes to, given its status and its body: a body that is not JSON
/// fails; a status outside 200..=299 is refused with the status and the
/// body; else one text part with the text of the first candidate (empty
/// when it has none), its finish reason, the counts of `usageMetadata`, and
/// the body kept.
pub open spec fn gemini_chat_is(status: u16, body: Seq<char>, r: Result<ProviderChatResponse, AppError>) -> bool {
    match json_parse_of(body) {
        Err(m) => fails_internal(r, "failed to decode provider response: "@ + m),
        Ok(compact) => if !(200 <= status && status <= 299) {
            fails_validation(r, "VALIDATION_ERROR"@, "API request failed ["@ + signed_decimal(status as int) + "]: "@ + compact)
        } else {
            r matches Ok(resp) && exists|p: GeminiStreamPayload|
                #[trigger] gemini_payload_is(body, compact, p) && resp.parts@.len() == 1 && is_text_part(
                    resp.parts@[0],
                    match candidate_text(p) {
                        Some(t) => t,
                        None => Seq::empty(),
                    },
                    "{}"@,
                ) && opt_view(resp.finish_reason) == opt_view(p.finish_reason) && match p.usage {
                    Some((a, b, c)) => resp.prompt_tokens == a && resp.completion_tokens == b && resp.total_tokens == c,
                    None => resp.prompt_tokens is None && resp.completion_tokens is None && resp.total_tokens is None,
                } && opt_view(resp.raw_response_json) == Some(compact)
        },
    }
}

/// What a Gemini provider's answer to a (not streamed) request comes to,
/// from its status and its body.
pub fn parse_chat_response(status: u16, body: &str) -> (r: Result<ProviderChatResponse, AppError>)
    ensures
        gemini_chat_is(status, body@, r),
{
    let compact = match parse_json_text(body) {
        Ok(t) => t,
        Err(m) => {
            let mut message = String::from_str("failed to decode provider response: ");
            message.append(m.as_str());
            return Err(AppError::internal(message.as_str()));
        },
    };
    if !(200 <= status && status <= 299) {
        let mut message = String::from_str("API request failed [");
        push_signed_decimal(&mut message, status as i64);
        message.append("]: ");
        message.append(compact.as_str());
        return Err(AppError::validation("VALIDATION_ERROR", message.as_str()));
    }
    let payload = match decode_gemini_payload(body) {
        Ok(p) => p,
        Err(e) => return Err(e),
    };
    let text = match extract_candidate_text(&payload) {
        Some(t) => t,
        None => String::new(),
    };
    proof {
        reveal_strlit("{}");
    }
    let part = ProviderMessagePart {
        kind: ProviderMessagePartKind::Text,
        text: Some(text),
        content: None,
        metadata_json: String::from_str("{}"),
    };
    let (prompt_tokens, completion_tokens, total_tokens) = match payload.usage {
        Some((a, b, c)) => (a, b, c),
        None => (None, None, None),
    };
    let finish_reason = payload.finish_reason.clone();
    let parts = vec![part];
    Ok(ProviderChatResponse { parts, finish_reason, prompt_tokens, completion_tokens, total_tokens, raw_response_json: Some(compact) })
}


/// The adapter of Gemini providers. The HTTP client it sends with stays at
/// the edge; the adapter itself holds nothing.
#[derive(Debug, Clone, Copy, PartialEq, Eq)]
pub struct GeminiProvider;

impl GeminiProvider {
    /// The adapter.
    pub fn new() -> (p: Self)
        ensures
            p == (GeminiProvider {  }),
    {
        GeminiProvider
    }
}

impl crate::providers::registry::ChatProvider for GeminiProvider {
    open spec fn family(&self) -> Seq<char> {
        "gemini"@
    }

    fn provider_type(&self) -> (r: &'static str) {
        "gemini"
    }
}


/// Where a Gemini stream fails among its decoded chunks: the first that
/// could not be decoded.
pub open spec fn gemini_stop(items: Seq<Result<GeminiStreamPayload, AppError>>) -> Option<int>
    decreases items.len(),
{
    if items.len() == 0 {
        None
    } else {
        match gemini_stop(items.drop_last()) {
            Some(k) => Some(k),
            None => if items.last() is Err {
                Some(items.len() - 1)
            } else {
                None
            },
        }
    }
}

/// The texts of the chunks that make any, with the chunks' JSON, in order.
pub open spec fn gemini_texts(items: Seq<Result<GeminiStreamPayload, AppError>>) -> Seq<(Seq<char>, Seq<char>)>
    decreases items.len(),
{
    if items.len() == 0 {
        Seq::empty()
    } else {
        let before = gemini_texts(items.drop_last());
        match items.last() {
            Ok(p) => match candidate_text(p) {
                Some(t) => before.push((t, p.raw_json@)),
                None => before,
            },
            Err(_) => before,
        }
    }
}

/// What the chunks report of the reply: the last finish reason and the
/// last of each count given.
pub open spec fn gemini_counts(items: Seq<Result<GeminiStreamPayload, AppError>>) -> (Option<Seq<char>>, Option<i64>, Option<i64>, Option<i64>)
    decreases items.len(),
{
    if items.len() == 0 {
        (None, None, None, None)
    } else {
        let c = gemini_counts(items.drop_last());
        match items.last() {
            Ok(p) => {
                let reason = first_some(opt_view(p.finish_reason), c.0);
                match p.usage {
                    Some(u) => (reason, first_some(u.0, c.1), first_some(u.1, c.2), first_some(u.2, c.3)),
                    None => (reason, c.1, c.2, c.3),
                }
            },
            Err(_) => c,
        }
    }
}

/// Whether `run` is what a whole Gemini stream whose chunks decoded to
/// `items` (one per event with data, in order, to the end of the body)
/// comes to: each chunk's text is reported in order; a chunk that could
/// not be decoded fails with its error; else at the end of the body one
/// end event is reported last and the reply holds all the text, with the
/// last finish reason and counts.
pub open spec fn gemini_run_is(items: Seq<Result<GeminiStreamPayload, AppError>>, run: StreamRun) -> bool {
    match gemini_stop(items) {
        Some(k) => reports_deltas(run.reported@, gemini_texts(items.take(k))) && run.result == Err::<
            ProviderChatResponse,
            AppError,
        >(items[k]->Err_0),
        None => {
            let texts = gemini_texts(items);
            let c = gemini_counts(items);
            let summary = stream_summary_json(items.len() as i64);
            &&& run.reported@.len() == texts.len() + 1
            &&& reports_deltas(run.reported@.take(texts.len() as int), texts)
            &&& run.reported@.last() matches ProviderChatEvent::Finished {
                finish_reason,
                prompt_tokens,
                completion_tokens,
                total_tokens,
                raw_event_json,
            } && opt_view(finish_reason) == c.0 && prompt_tokens == c.1 && completion_tokens == c.2
                && total_tokens == c.3 && opt_view(raw_event_json) == Some(summary)
            &&& run.result matches Ok(resp) && resp.parts@.len() == 1 && is_text_part(resp.parts@[0], texts_joined(texts), "{}"@)
                && opt_view(resp.finish_reason) == c.0 && resp.prompt_tokens == c.1 && resp.completion_tokens == c.2
                && resp.total_tokens == c.3 && opt_view(resp.raw_response_json) == Some(summary)
        },
    }
}

proof fn lemma_gemini_stop_kept(items: Seq<Result<GeminiStreamPayload, AppError>>, k: int)
    requires
        0 <= k < items.len(),
        gemini_stop(items.take(k + 1)) == Some(k),
    ensures
        gemini_stop(items) == Some(k),
    decreases items.len() - k,
{
    if items.len() == k + 1 {
        assert(items.take(k + 1) =~= items);
    } else {
        assert(items.drop_last().take(k + 1) =~= items.take(k + 1));
        lemma_gemini_stop_kept(items.drop_last(), k);
    }
}

/// What a whole Gemini stream comes to, from its decoded chunks to the end
/// of the body.
pub fn run_gemini_stream(items: Vec<Result<GeminiStreamPayload, AppError>>) -> (run: StreamRun)
    requires
        items@.len() < i64::MAX,
    ensures
        gemini_run_is(items@, run),
{
    let ghost all = items@;
    let n = items.len();
    let mut rest = items;
    let mut state = GeminiStreamState::new();
    let mut reported: Vec<ProviderChatEvent> = Vec::new();
    let mut i: usize = 0;
    while i < n
        invariant
            n == all.len(),
            all == items@,
            n < i64::MAX,
            i <= n,
            rest@ == all.skip(i as int),
            gemini_stop(all.take(i as int)) is None,
            state.chunk_count == i,
            state.final_text@ == texts_joined(gemini_texts(all.take(i as int))),
            (opt_view(state.finish_reason), state.prompt_tokens, state.completion_tokens, state.total_tokens)
                == gemini_counts(all.take(i as int)),
            reports_deltas(reported@, gemini_texts(all.take(i as int))),
        decreases n - i,
    {
        let ghost before = all.take(i as int);
        let item = rest.remove(0);
        proof {
            assert(item == all[i as int]);
            assert(all.take(i + 1 as int).drop_last() =~= before);
            assert(all.take(i + 1 as int).last() == item);
            assert(rest@ =~= all.skip(i + 1 as int));
        }
        let payload = match item {
            Err(e) => {
                proof {
                    assert(gemini_stop(all.take(i + 1 as int)) == Some(i as int));
                    lemma_gemini_stop_kept(all, i as int);
                }
                return StreamRun { reported, result: Err(e) };
            },
            Ok(p) => p,
        };
        let ghost old_reported = reported@;
        let ghost texts = gemini_texts(before);
        match state.on_payload(payload) {
            Some(d) => {
                reported.push(d);
                proof {
                    let t2 = gemini_texts(all.take(i + 1 as int));
                    assert(t2.drop_last() =~= texts);
                    assert forall|k: int| 0 <= k < reported@.len() implies (#[trigger] reported@[k] matches ProviderChatEvent::Delta {
                        parts,
                        raw_event_json,
                    } && parts@.len() == 1 && is_text_part(parts@[0], t2[k].0, t2[k].1) && opt_view(raw_event_json) == Some(
                        t2[k].1,
                    )) by {
                        if k < old_reported.len() {
                            assert(reported@[k] == old_reported[k]);
                        }
                    }
                }
            },
            None => {},
        }
        i = i + 1;
    }
    proof {
        assert(all.take(n as int) =~= all);
    }
    let (end, resp) = state.finish();
    let ghost old_reported = reported@;
    reported.push(end);
    proof {
        assert(reported@.take(old_reported.len() as int) =~= old_reported);
    }
    StreamRun { reported, result: Ok(resp) }
}

} // verus!
