//! The adapter for Anthropic providers, apart from the transport: the
//! request messages and the system text sent beside them, the headers, the
//! output limit and the JSON body of a request, what the JSON of each event
//! of a streamed reply says, and what the events add up to.

use vstd::prelude::*;

use crate::domain::{
    ApiChannel, ProviderChatEvent, ProviderChatMessage, ProviderChatResponse, ProviderMessagePart, ProviderMessagePartKind,
};
use crate::providers::openai_compatible::stream_summary_json;
use crate::services::generation::first_some;
use crate::error::{fails_internal, fails_validation, is_internal, AppError};
use crate::support::{
    first_member, i64_in, i64_in_of, json_object_members, json_object_members_of, json_parse_of, find_member, member_json, member_json_of,
    parse_json_text, string_member, string_member_of, then_member, then_member_of, then_string, then_string_of,
};
use crate::support::{json_array_items, json_array_items_of, json_string_text, json_quoted, json_value_array, json_value_array_of, json_value_object, json_value_object_of, string_pairs_view, texts_view, MemberText};
use crate::providers::common::{reports_deltas, text_message_json, text_messages_json, texts_joined, StreamRun};
use crate::providers::openai_compatible::{is_text_part, parameter_pairs, parts_are};
use crate::text::{push_signed_decimal, signed_decimal, str_eq};
use crate::services::channel_service::opt_view;
use crate::providers::common::{
    message_to_text_message, split_error, split_spec, split_text_messages, string_views, text_messages_view,
    text_role, texts_error, texts_spec, TextMessage, build_headers as channel_headers, header_value, header_value_ok,
    headers_spec, headers_view, put_header, put_header_spec, validation_error,
};

verus! {

/// The request message for a message of the conversation: the assistant
/// speaks as `assistant`, every other role as `user`; each part as text.
pub fn message_to_anthropic_value(message: &ProviderChatMessage) -> (r: Result<TextMessage, AppError>)
    ensures
        match texts_spec(message.parts@) {
            Some(ts) => r matches Ok(m) && m.role@ == text_role(message.role, "assistant"@) && string_views(
                m.texts@,
            ) == ts,
            None => fails_validation(r, "VALIDATION_ERROR"@, texts_error(message.parts@)),
        },
{
    message_to_text_message(message, "assistant")
}

/// Texts joined with a blank line between two.
pub open spec fn join_blank_lines(parts: Seq<Seq<char>>) -> Seq<char>
    decreases parts.len(),
{
    if parts.len() == 0 {
        Seq::empty()
    } else if parts.len() == 1 {
        parts[0]
    } else {
        join_blank_lines(parts.drop_last()) + "\n\n"@ + parts.last()
    }
}

/// The system text of a request, when its system messages have any part:
/// the texts of their parts joined with blank lines.
pub open spec fn system_text_of(lines: Seq<Seq<char>>) -> Option<Seq<char>> {
    if lines.len() == 0 {
        None
    } else {
        Some(join_blank_lines(lines))
    }
}

/// The system text and the other messages of a request to an Anthropic
/// provider; the first message that cannot be sent refuses the request.
pub fn anthropic_request_messages(messages: &[ProviderChatMessage]) -> (r: Result<(Option<String>, Vec<TextMessage>), AppError>)
    ensures
        match split_spec(messages@, "assistant"@) {
            Some(p) => r matches Ok(v) && opt_view(v.0) == system_text_of(p.0) && text_messages_view(v.1@) == p.1,
            None => fails_validation(r, "VALIDATION_ERROR"@, split_error(messages@, "assistant"@)),
        },
{
    let (lines, out) = match split_text_messages(messages, "assistant") {
        Ok(v) => v,
        Err(e) => return Err(e),
    };
    if lines.len() == 0 {
        return Ok((None, out));
    }
    let mut text = lines[0].clone();
    let mut i: usize = 1;
    assert(string_views(lines@).take(1) =~= seq![lines@[0]@]);
    while i < lines.len()
        invariant
            1 <= i <= lines@.len(),
            text@ == join_blank_lines(string_views(lines@).take(i as int)),
        decreases lines.len() - i,
    {
        assert(string_views(lines@).take(i + 1 as int).drop_last() =~= string_views(lines@).take(i as int));
        assert(string_views(lines@).take(i + 1 as int).last() == lines@[i as int]@);
        text.append("\n\n");
        text.append(lines[i].as_str());
        proof {
            reveal_strlit("\n\n");
        }
        i = i + 1;
    }
    assert(string_views(lines@).take(lines@.len() as int) =~= string_views(lines@));
    Ok((Some(text), out))
}

/// The `anthropic-version` of a channel: the string member of that name of
/// its settings, else "2023-06-01".
pub open spec fn anthropic_version_of(config: Seq<char>) -> Seq<char> {
    match string_member(config, "anthropic_version"@) {
        Some(v) => v,
        None => "2023-06-01"@,
    }
}

/// The headers of a request to an Anthropic channel: those of any channel,
/// then `anthropic-version`.
pub open spec fn anthropic_headers_spec(auth_type: Seq<char>, api_key: Option<Seq<char>>, config: Seq<char>) -> Result<
    Seq<(Seq<char>, Seq<char>)>,
    Seq<char>,
> {
    match headers_spec(auth_type, api_key, config) {
        Ok(h) => if header_value_ok(anthropic_version_of(config)) {
            Ok(put_header_spec(h, "anthropic-version"@, anthropic_version_of(config)))
        } else {
            Err("invalid anthropic-version header: failed to parse header value"@)
        },
        Err(e) => Err(e),
    }
}

/// The headers of a request to an Anthropic channel: those that any
/// channel sends, and the API version its settings name (by default
/// "2023-06-01").
pub fn build_headers(channel: &ApiChannel) -> (r: Result<Vec<(String, String)>, AppError>)
    ensures
        match anthropic_headers_spec(channel.auth_type@, opt_view(channel.api_key), channel.config_json@) {
            Ok(h) => r matches Ok(v) && headers_view(v@) == h,
            Err(e) => fails_validation(r, "VALIDATION_ERROR"@, e),
        },
{
    let headers = match channel_headers(channel) {
        Ok(h) => h,
        Err(e) => return Err(e),
    };
    let version = match string_member_of(channel.config_json.as_str(), "anthropic_version") {
        Some(v) => v,
        None => String::from_str("2023-06-01"),
    };
    proof {
        reveal_strlit("2023-06-01");
    }
    match header_value(version.as_str()) {
        Ok(()) => Ok(put_header(headers, String::from_str("anthropic-version"), version)),
        Err(e) => {
            let mut message = String::from_str("invalid anthropic-version header: ");
            message.append(e.as_str());
            proof {
                reveal_strlit("failed to parse header value");
                reveal_strlit("invalid anthropic-version header: ");
                reveal_strlit("invalid anthropic-version header: failed to parse header value");
                assert(message@ =~= "invalid anthropic-version header: failed to parse header value"@);
            }
            Err(validation_error(message))
        },
    }
}

/// The `max_tokens` of a request, as JSON text: the member of that name of
/// the request parameters, else the model's output limit, else 1024.
pub open spec fn max_tokens_text(params: Seq<char>, max_output_tokens: Option<i64>) -> Seq<char> {
    let fallback = match max_output_tokens {
        Some(n) => signed_decimal(n as int),
        None => "1024"@,
    };
    match json_object_members_of(params) {
        Some(ms) => match first_member(ms, "max_tokens"@) {
            Some(m) => m.2,
            None => fallback,
        },
        None => fallback,
    }
}

/// The `max_tokens` of a request to an Anthropic provider, as JSON text:
/// the request parameters' own, else the model's output limit, else 1024.
pub fn max_tokens_json(request_parameters_json: &str, max_output_tokens: Option<i64>) -> (r: String)
    ensures
        r@ == max_tokens_text(request_parameters_json@, max_output_tokens),
{
    proof {
        reveal_strlit("1024");
    }
    if let Some(ms) = json_object_members(request_parameters_json) {
        if let Some(j) = find_member(&ms, "max_tokens") {
            return ms[j].2.clone();
        }
    }
    match max_output_tokens {
        Some(n) => {
            let mut out = String::new();
            push_signed_decimal(&mut out, n);
            proof {
                assert(out@ =~= signed_decimal(n as int));
            }
            out
        },
        None => String::from_str("1024"),
    }
}

/// What a decoded stream event of an Anthropic provider carries, by its
/// `type`, as read from its JSON.
#[derive(Debug, Clone)]
pub enum AnthropicStreamEvent {
    /// `message_start`: the input token count of its message's usage.
    MessageStart { input_tokens: Option<i64> },
    /// `content_block_delta`: the text of its delta, and the event's JSON text.
    ContentBlockDelta { text: Option<String>, raw_json: String },
    /// `message_delta`: the stop reason of its delta and the output token
    /// count of its usage.
    MessageDelta { stop_reason: Option<String>, output_tokens: Option<i64> },
    /// `message_stop`: the end of the reply.
    MessageStop,
    /// Any other type.
    Other,
}

/// What an Anthropic stream has brought so far.
#[derive(Debug, Clone)]
pub struct AnthropicStreamState {
    /// The text of all the deltas so far.
    pub final_text: String,
    /// The last stop reason reported.
    pub finish_reason: Option<String>,
    pub prompt_tokens: Option<i64>,
    pub completion_tokens: Option<i64>,
    pub total_tokens: Option<i64>,
    /// How many events were decoded.
    pub chunk_count: i64,
}

/// What one event leads to.
pub enum AnthropicStreamStep {
    /// Nothing to report yet.
    Continue,
    /// New text to report.
    Delta(ProviderChatEvent),
    /// The end: the end event to report, and the reply.
    Finished(ProviderChatEvent, ProviderChatResponse),
}

/// Whether the counts add up within the range of the count type.
pub open spec fn counts_fit(prompt: Option<i64>, completion: Option<i64>) -> bool {
    match (prompt, completion) {
        (Some(i), Some(o)) => i64::MIN <= i + o <= i64::MAX,
        _ => true,
    }
}

/// The total at the end of a stream: the sum of the two counts when both
/// came, else the total so far.
pub open spec fn final_total(prompt: Option<i64>, completion: Option<i64>, total: Option<i64>) -> Option<i64> {
    match (prompt, completion) {
        (Some(i), Some(o)) => Some((i + o) as i64),
        _ => total,
    }
}

/// Whether `ev` and `resp` end a stream whose state is `s` after
/// `chunk_count` events: the end event with the stop reason, the counts and
/// the summary of the stream, and the reply made of the final text.
pub open spec fn ends_stream(ev: ProviderChatEvent, resp: ProviderChatResponse, s: AnthropicStreamState, chunk_count: i64) -> bool {
    let total = final_total(s.prompt_tokens, s.completion_tokens, s.total_tokens);
    &&& ev matches ProviderChatEvent::Finished {
        finish_reason,
        prompt_tokens,
        completion_tokens,
        total_tokens,
        raw_event_json,
    } && opt_view(finish_reason) == opt_view(s.finish_reason) && prompt_tokens == s.prompt_tokens
        && completion_tokens == s.completion_tokens && total_tokens == total && opt_view(raw_event_json) == Some(
        stream_summary_json(chunk_count),
    )
    &&& resp.parts@.len() == 1
    &&& resp.parts@[0].kind == ProviderMessagePartKind::Text
    &&& opt_view(resp.parts@[0].text) == Some(s.final_text@)
    &&& resp.parts@[0].content is None
    &&& resp.parts@[0].metadata_json@ == "{}"@
    &&& opt_view(resp.finish_reason) == opt_view(s.finish_reason)
    &&& resp.prompt_tokens == s.prompt_tokens
    &&& resp.completion_tokens == s.completion_tokens
    &&& resp.total_tokens == total
    &&& opt_view(resp.raw_response_json) == Some(stream_summary_json(chunk_count))
}

/// Whether two states hold the same text, stop reason and counts.
pub open spec fn same_progress(a: AnthropicStreamState, b: AnthropicStreamState) -> bool {
    &&& a.final_text@ == b.final_text@
    &&& opt_view(a.finish_reason) == opt_view(b.finish_reason)
    &&& a.prompt_tokens == b.prompt_tokens
    &&& a.completion_tokens == b.completion_tokens
    &&& a.total_tokens == b.total_tokens
}

impl AnthropicStreamState {
    /// The failure when the body ends before a `message_stop` event.
    pub fn ended_early(&self) -> (e: AppError)
        ensures
            is_internal(e, "provider stream ended before receiving message_stop"@),
    {
        AppError::internal("provider stream ended before receiving message_stop")
    }

    /// Nothing has come yet.
    pub fn new() -> (s: Self)
        ensures
            s.final_text@ == Seq::<char>::empty(),
            s.finish_reason is None,
            s.prompt_tokens is None,
            s.completion_tokens is None,
            s.total_tokens is None,
            s.chunk_count == 0,
    {
        AnthropicStreamState {
            final_text: String::new(),
            finish_reason: None,
            prompt_tokens: None,
            completion_tokens: None,
            total_tokens: None,
            chunk_count: 0,
        }
    }

    /// Takes in a decoded event, which counts: `message_start` sets the
    /// prompt count; a `content_block_delta` with text adds it to the final
    /// text and reports it as a text part carrying the event; a
    /// `message_delta` keeps the last stop reason and output count given;
    /// `message_stop` ends the stream, the total being the sum of the two
    /// counts when both came; other events change nothing else.
    pub fn on_event(&mut self, event: AnthropicStreamEvent) -> (r: AnthropicStreamStep)
        requires
            old(self).chunk_count < i64::MAX,
            event is MessageStop ==> counts_fit(old(self).prompt_tokens, old(self).completion_tokens),
        ensures
            final(self).chunk_count == old(self).chunk_count + 1,
            match event {
                AnthropicStreamEvent::MessageStart { input_tokens } => {
                    &&& final(self).prompt_tokens == input_tokens
                    &&& final(self).final_text@ == old(self).final_text@
                    &&& opt_view(final(self).finish_reason) == opt_view(old(self).finish_reason)
                    &&& final(self).completion_tokens == old(self).completion_tokens
                    &&& final(self).total_tokens == old(self).total_tokens
                    &&& r is Continue
                },
                AnthropicStreamEvent::ContentBlockDelta { text, raw_json } => match text {
                    Some(t) => {
                        &&& final(self).final_text@ == old(self).final_text@ + t@
                        &&& opt_view(final(self).finish_reason) == opt_view(old(self).finish_reason)
                        &&& final(self).prompt_tokens == old(self).prompt_tokens
                        &&& final(self).completion_tokens == old(self).completion_tokens
                        &&& final(self).total_tokens == old(self).total_tokens
                        &&& r matches AnthropicStreamStep::Delta(ProviderChatEvent::Delta { parts, raw_event_json })
                            && parts@.len() == 1 && parts@[0].kind == ProviderMessagePartKind::Text && opt_view(
                            parts@[0].text,
                        ) == Some(t@) && parts@[0].content is None && parts@[0].metadata_json@ == raw_json@
                            && opt_view(raw_event_json) == Some(raw_json@)
                    },
                    None => same_progress(*final(self), *old(self)) && r is Continue,
                },
                AnthropicStreamEvent::MessageDelta { stop_reason, output_tokens } => {
                    &&& opt_view(final(self).finish_reason) == first_some(
                        opt_view(stop_reason),
                        opt_view(old(self).finish_reason),
                    )
                    &&& final(self).completion_tokens == first_some(output_tokens, old(self).completion_tokens)
                    &&& final(self).final_text@ == old(self).final_text@
                    &&& final(self).prompt_tokens == old(self).prompt_tokens
                    &&& final(self).total_tokens == old(self).total_tokens
                    &&& r is Continue
                },
                AnthropicStreamEvent::MessageStop => {
                    &&& final(self).final_text@ == old(self).final_text@
                    &&& opt_view(final(self).finish_reason) == opt_view(old(self).finish_reason)
                    &&& final(self).prompt_tokens == old(self).prompt_tokens
                    &&& final(self).completion_tokens == old(self).completion_tokens
                    &&& final(self).total_tokens == final_total(
                        old(self).prompt_tokens,
                        old(self).completion_tokens,
                        old(self).total_tokens,
                    )
                    &&& r matches AnthropicStreamStep::Finished(ev, resp) && ends_stream(ev, resp, *old(self), final(self).chunk_count)
                        && resp.total_tokens == final(self).total_tokens
                },
                AnthropicStreamEvent::Other => same_progress(*final(self), *old(self)) && r is Continue,
            },
    {
        self.chunk_count = self.chunk_count + 1;
        match event {
            AnthropicStreamEvent::MessageStart { input_tokens } => {
                self.prompt_tokens = input_tokens;
                AnthropicStreamStep::Continue
            },
            AnthropicStreamEvent::ContentBlockDelta { text, raw_json } => match text {
                Some(t) => {
                    self.final_text.append(t.as_str());
                    let part = ProviderMessagePart {
                        kind: ProviderMessagePartKind::Text,
                        text: Some(t),
                        content: None,
                        metadata_json: raw_json.clone(),
                    };
                    AnthropicStreamStep::Delta(ProviderChatEvent::Delta { parts: vec![part], raw_event_json: Some(raw_json) })
                },
                None => AnthropicStreamStep::Continue,
            },
            AnthropicStreamEvent::MessageDelta { stop_reason, output_tokens } => {
                if let Some(reason) = stop_reason {
                    self.finish_reason = Some(reason);
                }
                if let Some(count) = output_tokens {
                    self.completion_tokens = Some(count);
                }
                AnthropicStreamStep::Continue
            },
            AnthropicStreamEvent::MessageStop => {
                self.total_tokens = match (self.prompt_tokens, self.completion_tokens) {
                    (Some(input), Some(output)) => Some(input + output),
                    _ => self.total_tokens,
                };
                let mut summary = String::from_str("{\"chunk_count\":");
                push_signed_decimal(&mut summary, self.chunk_count);
                summary.append(",\"streamed\":true}");
                let event = ProviderChatEvent::Finished {
                    finish_reason: self.finish_reason.clone(),
                    prompt_tokens: self.prompt_tokens,
                    completion_tokens: self.completion_tokens,
                    total_tokens: self.total_tokens,
                    raw_event_json: Some(summary.clone()),
                };
                let part = ProviderMessagePart {
                    kind: ProviderMessagePartKind::Text,
                    text: Some(self.final_text.clone()),
                    content: None,
                    metadata_json: String::from_str("{}"),
                };
                let response = ProviderChatResponse {
                    parts: vec![part],
                    finish_reason: self.finish_reason.clone(),
                    prompt_tokens: self.prompt_tokens,
                    completion_tokens: self.completion_tokens,
                    total_tokens: self.total_tokens,
                    raw_response_json: Some(summary),
                };
                AnthropicStreamStep::Finished(event, response)
            },
            AnthropicStreamEvent::Other => AnthropicStreamStep::Continue,
        }
    }
}


/// Whether `e` is what the event text `data`, which is JSON, decodes to.
pub open spec fn decoded_event_is(data: Seq<char>, compact: Seq<char>, e: AnthropicStreamEvent) -> bool {
    let kind = string_member(data, "type"@);
    if kind == Some("message_start"@) {
        e matches AnthropicStreamEvent::MessageStart { input_tokens }
            && input_tokens == i64_in(then_member(then_member(member_json(data, "message"@), "usage"@), "input_tokens"@))
    } else if kind == Some("content_block_delta"@) {
        e matches AnthropicStreamEvent::ContentBlockDelta { text, raw_json }
            && opt_view(text) == then_string(member_json(data, "delta"@), "text"@) && raw_json@ == compact
    } else if kind == Some("message_delta"@) {
        e matches AnthropicStreamEvent::MessageDelta { stop_reason, output_tokens }
            && opt_view(stop_reason) == then_string(member_json(data, "delta"@), "stop_reason"@)
            && output_tokens == i64_in(then_member(member_json(data, "usage"@), "output_tokens"@))
    } else if kind == Some("message_stop"@) {
        e is MessageStop
    } else {
        e is Other
    }
}

/// Decodes the JSON text of one event of an Anthropic stream; text that is
/// not JSON is an internal error that carries the parser's message.
pub fn decode_anthropic_event(data: &str) -> (r: Result<AnthropicStreamEvent, AppError>)
    ensures
        match json_parse_of(data@) {
            Err(m) => fails_internal(r, "failed to decode provider stream event: "@ + m),
            Ok(compact) => r matches Ok(e) && decoded_event_is(data@, compact, e),
        },
{
    let compact = match parse_json_text(data) {
        Ok(t) => t,
        Err(m) => {
            let mut message = String::from_str("failed to decode provider stream event: ");
            message.append(m.as_str());
            return Err(AppError::internal(message.as_str()));
        },
    };
    let kind = string_member_of(data, "type");
    let kind_text = match &kind {
        Some(k) => k.as_str(),
        None => "",
    };
    proof {
        reveal_strlit("message_start");
        reveal_strlit("content_block_delta");
        reveal_strlit("message_delta");
        reveal_strlit("message_stop");
    }
    if kind.is_some() && str_eq(kind_text, "message_start") {
        let message = member_json_of(data, "message");
        let usage = then_member_of(&message, "usage");
        let count = then_member_of(&usage, "input_tokens");
        Ok(AnthropicStreamEvent::MessageStart { input_tokens: i64_in_of(&count) })
    } else if kind.is_some() && str_eq(kind_text, "content_block_delta") {
        let delta = member_json_of(data, "delta");
        Ok(AnthropicStreamEvent::ContentBlockDelta { text: then_string_of(&delta, "text"), raw_json: compact })
    } else if kind.is_some() && str_eq(kind_text, "message_delta") {
        let delta = member_json_of(data, "delta");
        let usage = member_json_of(data, "usage");
        let count = then_member_of(&usage, "output_tokens");
        Ok(AnthropicStreamEvent::MessageDelta { stop_reason: then_string_of(&delta, "stop_reason"), output_tokens: i64_in_of(&count) })
    } else if kind.is_some() && str_eq(kind_text, "message_stop") {
        Ok(AnthropicStreamEvent::MessageStop)
    } else {
        Ok(AnthropicStreamEvent::Other)
    }
}


/// The request parameters other than `max_tokens`.
pub open spec fn other_parameters(params: Seq<char>) -> Seq<(Seq<char>, Seq<char>)> {
    parameter_pairs(params).filter(|p: (Seq<char>, Seq<char>)| p.0 != "max_tokens"@)
}

/// The members of the body of a request to an Anthropic provider, in the
/// order they are put in the object (a later one replaces an earlier one
/// under the same key): the model, `max_tokens`, the messages, the stream
/// flag, the system text when there is one, then every request parameter
/// but `max_tokens`.
pub open spec fn anthropic_body_pairs(
    model_id: Seq<char>,
    max_output_tokens: Option<i64>,
    system: Option<Seq<char>>,
    messages: Seq<(Seq<char>, Seq<Seq<char>>)>,
    params: Seq<char>,
    stream: bool,
) -> Seq<(Seq<char>, Seq<char>)> {
    let head = seq![
        ("model"@, json_quoted(model_id)),
        ("max_tokens"@, max_tokens_text(params, max_output_tokens)),
        ("messages"@, json_value_array_of(messages.map_values(|m: (Seq<char>, Seq<Seq<char>>)| text_message_json(m.0, m.1, true)))),
        ("stream"@, if stream { "true"@ } else { "false"@ }),
    ];
    let with_system = match system {
        Some(t) => head.push(("system"@, json_quoted(t))),
        None => head,
    };
    with_system + other_parameters(params)
}

/// The body of a request to an Anthropic provider, as JSON text.
pub fn anthropic_request_body(
    model_id: &str,
    max_output_tokens: Option<i64>,
    system: Option<String>,
    messages: &[TextMessage],
    request_parameters_json: &str,
    stream: bool,
) -> (r: String)
    ensures
        r@ == json_value_object_of(
            anthropic_body_pairs(
                model_id@,
                max_output_tokens,
                opt_view(system),
                text_messages_view(messages@),
                request_parameters_json@,
                stream,
            ),
        ),
{
    let items = text_messages_json(messages, true);
    let mut pairs: Vec<(String, String)> = vec![
        (String::from_str("model"), json_string_text(model_id)),
        (String::from_str("max_tokens"), max_tokens_json(request_parameters_json, max_output_tokens)),
        (String::from_str("messages"), json_value_array(items.as_slice())),
        (String::from_str("stream"), String::from_str(if stream { "true" } else { "false" })),
    ];
    match &system {
        Some(t) => {
            pairs.push((String::from_str("system"), json_string_text(t.as_str())));
        },
        None => {},
    }
    let ghost head = string_pairs_view(pairs@);
    let ghost params = parameter_pairs(request_parameters_json@);
    let ghost mut kept: Seq<(Seq<char>, Seq<char>)> = Seq::empty();
    match json_object_members(request_parameters_json) {
        Some(ms) => {
            let ghost all = crate::support::members_view(ms@);
            let mut i: usize = 0;
            while i < ms.len()
                invariant
                    i <= ms@.len(),
                    all == crate::support::members_view(ms@),
                    params == all.map_values(|m: MemberText| (m.0, m.2)),
                    string_pairs_view(pairs@) == head + all.take(i as int).map_values(|m: MemberText| (m.0, m.2)).filter(
                        |p: (Seq<char>, Seq<char>)| p.0 != "max_tokens"@,
                    ),
                decreases ms.len() - i,
            {
                let ghost before = all.take(i as int).map_values(|m: MemberText| (m.0, m.2));
                let ghost prev = string_pairs_view(pairs@);
                proof {
                    assert(all.take(i + 1 as int).map_values(|m: MemberText| (m.0, m.2)) =~= before.push((all[i as int].0, all[i as int].2)));
                    before.lemma_filter_push((all[i as int].0, all[i as int].2), |p: (Seq<char>, Seq<char>)| p.0 != "max_tokens"@);
                }
                proof {
                    reveal_strlit("max_tokens");
                }
                if !str_eq(ms[i].0.as_str(), "max_tokens") {
                    let key = ms[i].0.clone();
                    let value = ms[i].2.clone();
                    let ghost pair = (key@, value@);
                    pairs.push((key, value));
                    proof {
                        assert(string_pairs_view(pairs@) =~= prev.push(pair));
                    }
                }
                i = i + 1;
            }
            proof {
                assert(all.take(ms@.len() as int) =~= all);
            }
        },
        None => {
            proof {
                assert(params =~= Seq::<(Seq<char>, Seq<char>)>::empty());
                assert(params.filter(|p: (Seq<char>, Seq<char>)| p.0 != "max_tokens"@) =~= Seq::<(Seq<char>, Seq<char>)>::empty());
                assert(string_pairs_view(pairs@) =~= head + params.filter(|p: (Seq<char>, Seq<char>)| p.0 != "max_tokens"@));
            }
        },
    }
    proof {
        assert(string_pairs_view(pairs@) =~= anthropic_body_pairs(
            model_id@,
            max_output_tokens,
            opt_view(system),
            text_messages_view(messages@),
            request_parameters_json@,
            stream,
        ));
    }
    json_value_object(pairs.as_slice())
}


/// The usage count under `key` of the body of an answer.
pub open spec fn usage_count(body: Seq<char>, key: Seq<char>) -> Option<i64> {
    i64_in(then_member(member_json(body, "usage"@), key))
}

/// Whether the two usage counts of the body, when both are there, add up
/// to a count that fits in 64 bits.
pub open spec fn answer_counts_fit(body: Seq<char>) -> bool {
    match (usage_count(body, "input_tokens"@), usage_count(body, "output_tokens"@)) {
        (Some(a), Some(b)) => i64::MIN <= a + b && a + b <= i64::MAX,
        _ => true,
    }
}

/// The items of a content array that have a string `text`, as (text, the
/// item's JSON text).
pub open spec fn text_items(items: Seq<Seq<char>>) -> Seq<(Seq<char>, Seq<char>)>
    decreases items.len(),
{
    if items.len() == 0 {
        Seq::empty()
    } else {
        let before = text_items(items.drop_last());
        match string_member(items.last(), "text"@) {
            Some(t) => before.push((t, items.last())),
            None => before,
        }
    }
}

/// The parts of an answer: its content items that have a text, or one
/// empty text part when there are none.
pub open spec fn answer_parts(body: Seq<char>) -> Seq<(Seq<char>, Seq<char>)> {
    let found = match member_json(body, "content"@) {
        Some(c) => match json_array_items_of(c) {
            Some(items) => text_items(items),
            None => Seq::empty(),
        },
        None => Seq::empty(),
    };
    if found.len() > 0 {
        found
    } else {
        seq![(Seq::empty(), "{}"@)]
    }
}

/// Whether `r` is what an Anthropic provider's answer to a (not streamed)
/// request comes to, given its status and its body: a body that is not JSON
/// fails; a status outside 200..=299 is refused with the status and the
/// body; else the parts, the stop reason, the two counts and their sum
/// when both are there, and the body kept.
pub open spec fn anthropic_chat_is(status: u16, body: Seq<char>, r: Result<ProviderChatResponse, AppError>) -> bool {
    match json_parse_of(body) {
        Err(m) => fails_internal(r, "failed to decode provider response: "@ + m),
        Ok(compact) => if !(200 <= status && status <= 299) {
            fails_validation(r, "VALIDATION_ERROR"@, "API request failed ["@ + signed_decimal(status as int) + "]: "@ + compact)
        } else {
            r matches Ok(resp) && parts_are(resp.parts@, answer_parts(body))
                && opt_view(resp.finish_reason) == string_member(body, "stop_reason"@)
                && resp.prompt_tokens == usage_count(body, "input_tokens"@)
                && resp.completion_tokens == usage_count(body, "output_tokens"@)
                && resp.total_tokens == match (usage_count(body, "input_tokens"@), usage_count(body, "output_tokens"@)) {
                (Some(a), Some(b)) => Some((a + b) as i64),
                _ => None,
            } && opt_view(resp.raw_response_json) == Some(compact)
        },
    }
}

fn text_items_of(items: &Vec<String>) -> (r: Vec<ProviderMessagePart>)
    ensures
        parts_are(r@, text_items(texts_view(items@))),
{
    let ghost all = texts_view(items@);
    let mut r: Vec<ProviderMessagePart> = Vec::new();
    let mut i: usize = 0;
    while i < items.len()
        invariant
            i <= items@.len(),
            all == texts_view(items@),
            parts_are(r@, text_items(all.take(i as int))),
        decreases items.len() - i,
    {
        proof {
            assert(all.take(i + 1 as int).drop_last() =~= all.take(i as int));
            assert(all.take(i + 1 as int).last() == items@[i as int]@);
        }
        let ghost before = r@;
        match string_member_of(items[i].as_str(), "text") {
            Some(t) => {
                r.push(ProviderMessagePart { kind: ProviderMessagePartKind::Text, text: Some(t), content: None, metadata_json: items[i].clone() });
                proof {
                    let e = text_items(all.take(i + 1 as int));
                    assert forall|k: int| 0 <= k < r@.len() implies #[trigger] is_text_part(r@[k], e[k].0, e[k].1) by {
                        if k < before.len() {
                            assert(r@[k] == before[k]);
                        }
                    }
                }
            },
            None => {},
        }
        i = i + 1;
    }
    proof {
        assert(all.take(items@.len() as int) =~= all);
    }
    r
}

/// What an Anthropic provider's answer to a (not streamed) request comes
/// to, from its status and its body, whose two usage counts add up within
/// 64 bits.
pub fn parse_chat_response(status: u16, body: &str) -> (r: Result<ProviderChatResponse, AppError>)
    requires
        answer_counts_fit(body@),
    ensures
        anthropic_chat_is(status, body@, r),
{
    let compact = match parse_json_text(body) {
        Ok(t) => t,
        Err(m) => {
            let mut message = String::from_str("failed to decode provider response: ");
            message.append(m.as_str());
            return Err(AppError::internal(message.as_str()));
        },
    };
    if !(200 <= status && status <= 299) {
        let mut message = String::from_str("API request failed [");
        push_signed_decimal(&mut message, status as i64);
        message.append("]: ");
        message.append(compact.as_str());
        return Err(AppError::validation("VALIDATION_ERROR", message.as_str()));
    }
    let mut parts = match member_json_of(body, "content") {
        Some(c) => match json_array_items(c.as_str()) {
            Some(items) => text_items_of(&items),
            None => Vec::new(),
        },
        None => Vec::new(),
    };
    if parts.len() == 0 {
        proof {
            reveal_strlit("{}");
        }
        let empty = String::new();
        parts.push(ProviderMessagePart { kind: ProviderMessagePartKind::Text, text: Some(empty), content: None, metadata_json: String::from_str("{}") });
        proof {
            assert(parts@.len() == 1);
        }
    }
    let usage = member_json_of(body, "usage");
    let input = then_member_of(&usage, "input_tokens");
    let output = then_member_of(&usage, "output_tokens");
    let prompt_tokens = i64_in_of(&input);
    let completion_tokens = i64_in_of(&output);
    let total_tokens = match (prompt_tokens, completion_tokens) {
        (Some(a), Some(b)) => Some(a + b),
        _ => None,
    };
    Ok(ProviderChatResponse {
        parts,
        finish_reason: string_member_of(body, "stop_reason"),
        prompt_tokens,
        completion_tokens,
        total_tokens,
        raw_response_json: Some(compact),
    })
}

/// Whether the usage counts of the body add up within 64 bits, as read.
pub fn usage_counts_fit(body: &str) -> (r: bool)
    ensures
        r == answer_counts_fit(body@),
{
    let usage = member_json_of(body, "usage");
    let input = then_member_of(&usage, "input_tokens");
    let output = then_member_of(&usage, "output_tokens");
    match (i64_in_of(&input), i64_in_of(&output)) {
        (Some(a), Some(b)) => a.checked_add(b).is_some(),
        _ => true,
    }
}

/// The answer, or `None` when its two usage counts do not add up within
/// 64 bits.
pub fn read_chat_response(status: u16, body: &str) -> (r: Option<Result<ProviderChatResponse, AppError>>)
    ensures
        answer_counts_fit(body@) ==> (r matches Some(a) && anthropic_chat_is(status, body@, a)),
        !answer_counts_fit(body@) ==> r is None,
{
    if usage_counts_fit(body) {
        Some(parse_chat_response(status, body))
    } else {
        None
    }
}


/// The adapter of Anthropic providers. The HTTP client it sends with stays at
/// the edge; the adapter itself holds nothing.
#[derive(Debug, Clone, Copy, PartialEq, Eq)]
pub struct AnthropicProvider;

impl AnthropicProvider {
    /// The adapter.
    pub fn new() -> (p: Self)
        ensures
            p == (AnthropicProvider {  }),
    {
        AnthropicProvider
    }
}

impl crate::providers::registry::ChatProvider for AnthropicProvider {
    open spec fn family(&self) -> Seq<char> {
        "anthropic"@
    }

    fn provider_type(&self) -> (r: &'static str) {
        "anthropic"
    }
}


/// Whether a decoded item ends the stream: an event that could not be
/// decoded, or `message_stop`.
pub open spec fn ends_anthropic_stream(item: Result<AnthropicStreamEvent, AppError>) -> bool {
    item is Err || item matches Ok(AnthropicStreamEvent::MessageStop)
}

/// Where the stream ends among the decoded items: the first that ends it.
pub open spec fn anthropic_stop(items: Seq<Result<AnthropicStreamEvent, AppError>>) -> Option<int>
    decreases items.len(),
{
    if items.len() == 0 {
        None
    } else {
        match anthropic_stop(items.drop_last()) {
            Some(k) => Some(k),
            None => if ends_anthropic_stream(items.last()) {
                Some(items.len() - 1)
            } else {
                None
            },
        }
    }
}

/// The texts of the `content_block_delta` events that carry one, with the
/// events' JSON, in order.
pub open spec fn anthropic_texts(items: Seq<Result<AnthropicStreamEvent, AppError>>) -> Seq<(Seq<char>, Seq<char>)>
    decreases items.len(),
{
    if items.len() == 0 {
        Seq::empty()
    } else {
        let before = anthropic_texts(items.drop_last());
        match items.last() {
            Ok(AnthropicStreamEvent::ContentBlockDelta { text: Some(t), raw_json }) => before.push((t@, raw_json@)),
            _ => before,
        }
    }
}

/// What the events report of the reply: the last stop reason given, the
/// input count of the last `message_start`, and the last output count given.
pub open spec fn anthropic_counts(items: Seq<Result<AnthropicStreamEvent, AppError>>) -> (Option<Seq<char>>, Option<i64>, Option<i64>)
    decreases items.len(),
{
    if items.len() == 0 {
        (None, None, None)
    } else {
        let c = anthropic_counts(items.drop_last());
        match items.last() {
            Ok(AnthropicStreamEvent::MessageStart { input_tokens }) => (c.0, input_tokens, c.2),
            Ok(AnthropicStreamEvent::MessageDelta { stop_reason, output_tokens }) => (
                first_some(opt_view(stop_reason), c.0),
                c.1,
                first_some(output_tokens, c.2),
            ),
            _ => c,
        }
    }
}

/// Whether the two counts reported before the end add up within 64 bits.
pub open spec fn anthropic_run_fits(items: Seq<Result<AnthropicStreamEvent, AppError>>) -> bool {
    match anthropic_stop(items) {
        Some(k) => {
            let c = anthropic_counts(items.take(k));
            counts_fit(c.1, c.2)
        },
        None => true,
    }
}

/// Whether `run` is what a whole Anthropic stream whose events decoded to
/// `items` (one per event with data, in order, to the end of the body)
/// comes to: every text delta before the end is reported in order; at
/// `message_stop` one end event is reported last and the reply holds all
/// their text, with the stop reason, the counts and their sum; an event
/// that could not be decoded fails with its error; a body that ends first
/// fails, and no end event is reported.
pub open spec fn anthropic_run_is(items: Seq<Result<AnthropicStreamEvent, AppError>>, run: StreamRun) -> bool {
    match anthropic_stop(items) {
        None => reports_deltas(run.reported@, anthropic_texts(items)) && (run.result matches Err(e) && is_internal(
            e,
            "provider stream ended before receiving message_stop"@,
        )),
        Some(k) => {
            let texts = anthropic_texts(items.take(k));
            match items[k] {
                Err(e) => reports_deltas(run.reported@, texts) && run.result == Err::<ProviderChatResponse, AppError>(e),
                Ok(_) => {
                    let c = anthropic_counts(items.take(k));
                    let total = final_total(c.1, c.2, None);
                    let summary = stream_summary_json((k + 1) as i64);
                    &&& run.reported@.len() == texts.len() + 1
                    &&& reports_deltas(run.reported@.take(texts.len() as int), texts)
                    &&& run.reported@.last() matches ProviderChatEvent::Finished {
                        finish_reason,
                        prompt_tokens,
                        completion_tokens,
                        total_tokens,
                        raw_event_json,
                    } && opt_view(finish_reason) == c.0 && prompt_tokens == c.1 && completion_tokens == c.2
                        && total_tokens == total && opt_view(raw_event_json) == Some(summary)
                    &&& run.result matches Ok(resp) && resp.parts@.len() == 1 && is_text_part(
                        resp.parts@[0],
                        texts_joined(texts),
                        "{}"@,
                    ) && opt_view(resp.finish_reason) == c.0 && resp.prompt_tokens == c.1 && resp.completion_tokens == c.2
                        && resp.total_tokens == total && opt_view(resp.raw_response_json) == Some(summary)
                },
            }
        },
    }
}

/// What a whole Anthropic stream comes to, from its decoded events to the
/// end of the body.
pub fn run_anthropic_stream(items: Vec<Result<AnthropicStreamEvent, AppError>>) -> (run: StreamRun)
    requires
        items@.len() < i64::MAX,
        anthropic_run_fits(items@),
    ensures
        anthropic_run_is(items@, run),
{
    let ghost all = items@;
    let n = items.len();
    let mut rest = items;
    let mut state = AnthropicStreamState::new();
    let mut reported: Vec<ProviderChatEvent> = Vec::new();
    let mut i: usize = 0;
    while i < n
        invariant
            n == all.len(),
            all == items@,
            n < i64::MAX,
            i <= n,
            rest@ == all.skip(i as int),
            anthropic_run_fits(all),
            anthropic_stop(all.take(i as int)) is None,
            state.chunk_count == i,
            state.final_text@ == texts_joined(anthropic_texts(all.take(i as int))),
            (opt_view(state.finish_reason), state.prompt_tokens, state.completion_tokens) == anthropic_counts(all.take(i as int)),
            state.total_tokens is None,
            reports_deltas(reported@, anthropic_texts(all.take(i as int))),
        decreases n - i,
    {
        let ghost before = all.take(i as int);
        let item = rest.remove(0);
        proof {
            assert(item == all[i as int]);
            assert(all.take(i + 1 as int).drop_last() =~= before);
            assert(all.take(i + 1 as int).last() == item);
            assert(rest@ =~= all.skip(i + 1 as int));
        }
        let event = match item {
            Ok(ev) => ev,
            Err(e) => {
                proof {
                    assert(anthropic_stop(all.take(i + 1 as int)) == Some(i as int));
                    lemma_stop_kept(all, i as int);
                    assert(all.take(i as int) =~= before);
                }
                return StreamRun { reported, result: Err(e) };
            },
        };
        let ghost ev = event;
        let ghost old_reported = reported@;
        let ghost texts = anthropic_texts(before);
        proof {
            if ev is MessageStop {
                assert(anthropic_stop(all.take(i + 1 as int)) == Some(i as int));
                lemma_stop_kept(all, i as int);
            }
        }
        match state.on_event(event) {
            AnthropicStreamStep::Continue => {},
            AnthropicStreamStep::Delta(d) => {
                reported.push(d);
                proof {
                    let t2 = anthropic_texts(all.take(i + 1 as int));
                    assert(t2.drop_last() =~= texts);
                    assert forall|k: int| 0 <= k < reported@.len() implies (#[trigger] reported@[k] matches ProviderChatEvent::Delta {
                        parts,
                        raw_event_json,
                    } && parts@.len() == 1 && is_text_part(parts@[0], t2[k].0, t2[k].1) && opt_view(raw_event_json) == Some(
                        t2[k].1,
                    )) by {
                        if k < old_reported.len() {
                            assert(reported@[k] == old_reported[k]);
                        }
                    }
                }
            },
            AnthropicStreamStep::Finished(ev_end, resp) => {
                let ghost delta_count = reported@.len();
                reported.push(ev_end);
                proof {
                    assert(reported@.take(delta_count as int) =~= old_reported);
                    assert(all.take(i as int) =~= before);
                }
                return StreamRun { reported, result: Ok(resp) };
            },
        }
        i = i + 1;
    }
    proof {
        assert(all.take(n as int) =~= all);
    }
    let e = state.ended_early();
    StreamRun { reported, result: Err(e) }
}

/// Once the stream has ended at `k`, it ended there for every longer list
/// of events.
proof fn lemma_stop_kept(items: Seq<Result<AnthropicStreamEvent, AppError>>, k: int)
    requires
        0 <= k < items.len(),
        anthropic_stop(items.take(k + 1)) == Some(k),
    ensures
        anthropic_stop(items) == Some(k),
    decreases items.len() - k,
{
    if items.len() == k + 1 {
        assert(items.take(k + 1) =~= items);
    } else {
        assert(items.drop_last().take(k + 1) =~= items.take(k + 1));
        lemma_stop_kept(items.drop_last(), k);
    }
}

} // verus!
