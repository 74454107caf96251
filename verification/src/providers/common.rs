//! Pieces shared by the provider adapters: the address of an endpoint, the
//! server-sent events framing of streamed responses, and the text form of
//! message parts.

use vstd::prelude::*;

use crate::domain::{ApiChannel, MessageRole, ProviderChatMessage, ProviderMessagePart, ProviderMessagePartKind, StoredContent};
use crate::support::{
    json_parse_of, json_string_text, json_quoted, json_value_array, json_value_array_of, json_value_object, json_value_object_of,
    parse_json_text, members_view, member_view, nested_members, nested_object_members, string_pairs_view, texts_view, JsonMember,
    MemberText,
};
use crate::error::{fails_validation, is_validation, AppError};
use crate::services::channel_service::opt_view;
use crate::text::{concat3, find, find_from, lemma_find_first, lemma_find_none, lemma_find_sound, lemma_first_extend, push_decimal, starts_with, str_eq, strip_trailing, trim, trim_end_char, trim_seq, decimal};

verus! {

/// One event of a server-sent events stream.
#[derive(Debug, Clone)]
pub struct SseEvent {
    /// The name from its `event:` line, if any.
    pub event: Option<String>,
    /// Its `data:` lines, joined with line feeds.
    pub data: String,
}

/// The name and the data lines of an event so far.
pub type SseFields = (Option<Seq<char>>, Seq<Seq<char>>);

/// What one line adds: an `event:` line sets the name, a `data:` line adds
/// a data line; each value is trimmed; other lines are ignored.
pub open spec fn apply_sse_line(acc: SseFields, line: Seq<char>) -> SseFields {
    if "event:"@.is_prefix_of(line) {
        (Some(trim_seq(line.subrange("event:"@.len() as int, line.len() as int))), acc.1)
    } else if "data:"@.is_prefix_of(line) {
        (acc.0, acc.1.push(trim_seq(line.subrange("data:"@.len() as int, line.len() as int))))
    } else {
        acc
    }
}

/// The fields after reading the lines of `raw`, which are separated by line feeds.
pub open spec fn read_sse_lines(acc: SseFields, raw: Seq<char>) -> SseFields
    decreases raw.len(),
{
    match find_from(raw, seq!['\n'], 0) {
        Some(i) => if 0 <= i < raw.len() {
            read_sse_lines(apply_sse_line(acc, raw.subrange(0, i)), raw.subrange(i + 1, raw.len() as int))
        } else {
            apply_sse_line(acc, raw)
        },
        None => apply_sse_line(acc, raw),
    }
}

/// `parts` joined with line feeds.
pub open spec fn join_lines(parts: Seq<Seq<char>>) -> Seq<char>
    decreases parts.len(),
{
    if parts.len() == 0 {
        Seq::empty()
    } else if parts.len() == 1 {
        parts[0]
    } else {
        join_lines(parts.drop_last()) + seq!['\n'] + parts.last()
    }
}

/// The name and the data of the event whose text is `raw`.
pub open spec fn sse_event_of(raw: Seq<char>) -> (Option<Seq<char>>, Seq<char>) {
    let f = read_sse_lines((None, Seq::empty()), raw);
    (f.0, join_lines(f.1))
}

/// The texts of a list of strings.
pub open spec fn string_views(v: Seq<String>) -> Seq<Seq<char>> {
    v.map_values(|s: String| s@)
}

fn apply_line(event: &mut Option<String>, data_lines: &mut Vec<String>, line: &str)
    ensures
        (opt_view(*final(event)), string_views(final(data_lines)@)) == apply_sse_line(
            (opt_view(*old(event)), string_views(old(data_lines)@)),
            line@,
        ),
{
    let n = line.unicode_len();
    proof {
        reveal_strlit("event:");
        reveal_strlit("data:");
    }
    if starts_with(line, "event:") {
        *event = Some(trim(line.substring_char(6, n)));
    } else if starts_with(line, "data:") {
        data_lines.push(trim(line.substring_char(5, n)));
        proof {
            assert(string_views(data_lines@) =~= string_views(old(data_lines)@).push(
                data_lines@.last()@,
            ));
        }
    }
}

fn join_with_newlines(parts: &Vec<String>) -> (r: String)
    ensures
        r@ == join_lines(string_views(parts@)),
{
    let mut out = String::new();
    let mut i: usize = 0;
    while i < parts.len()
        invariant
            i <= parts@.len(),
            out@ == join_lines(string_views(parts@.take(i as int))),
        decreases parts.len() - i,
    {
        let ghost before = parts@.take(i as int);
        proof {
            reveal_strlit("\n");
        }
        if i > 0 {
            out.append("\n");
        }
        out.append(parts[i].as_str());
        proof {
            let now = parts@.take(i + 1 as int);
            assert(now.drop_last() =~= before);
            assert(string_views(now).drop_last() =~= string_views(before));
            if i == 0 {
                assert(string_views(now).len() == 1);
                assert(out@ =~= string_views(now)[0]);
            } else {
                assert(string_views(now).last() == parts@[i as int]@);
            }
        }
        i = i + 1;
    }
    assert(parts@.take(parts@.len() as int) =~= parts@);
    out
}

/// The name and the data of the event whose text is `raw`.
pub fn parse_sse_event(raw: &str) -> (r: (Option<String>, String))
    ensures
        (opt_view(r.0), r.1@) == sse_event_of(raw@),
{
    let mut event: Option<String> = None;
    let mut data_lines: Vec<String> = Vec::new();
    let mut remaining = String::from_str(raw);
    assert(string_views(data_lines@) =~= Seq::<Seq<char>>::empty());
    loop
        invariant
            sse_event_of(raw@).0 == read_sse_lines(
                (opt_view(event), string_views(data_lines@)),
                remaining@,
            ).0,
            sse_event_of(raw@).1 == join_lines(
                read_sse_lines((opt_view(event), string_views(data_lines@)), remaining@).1,
            ),
        decreases remaining@.len(),
    {
        proof {
            reveal_strlit("\n");
            assert("\n"@ =~= seq!['\n']);
            lemma_find_sound(remaining@, seq!['\n']);
        }
        let len = remaining.as_str().unicode_len();
        match find(remaining.as_str(), "\n") {
            Some(i) => {
                proof {
                    lemma_find_first(remaining@, seq!['\n'], i as int);
                }
                let line = String::from_str(remaining.as_str().substring_char(0, i));
                apply_line(&mut event, &mut data_lines, line.as_str());
                remaining = String::from_str(remaining.as_str().substring_char(i + 1, len));
            },
            None => {
                proof {
                    lemma_find_none(remaining@, seq!['\n']);
                }
                apply_line(&mut event, &mut data_lines, remaining.as_str());
                let data = join_with_newlines(&data_lines);
                return (event, data);
            },
        }
    }
}

/// Takes the first complete event, one that ends with a blank line, out of
/// the front of `buffer`; the text after it stays for the next call.
pub fn take_next_sse_event(buffer: &mut String) -> (r: Option<SseEvent>)
    ensures
        match find_from(old(buffer)@, "\n\n"@, 0) {
            None => r is None && final(buffer)@ == old(buffer)@,
            Some(i) => r matches Some(ev) && (final(buffer)@ == old(buffer)@.subrange(
                i + 2,
                old(buffer)@.len() as int,
            ) && (opt_view(ev.event), ev.data@) == sse_event_of(old(buffer)@.subrange(0, i))),
        },
{
    proof {
        reveal_strlit("\n\n");
        reveal_strlit("\n");
        lemma_find_sound(buffer@, "\n\n"@);
    }
    let idx = match find(buffer.as_str(), "\n\n") {
        Some(i) => i,
        None => {
            proof {
                lemma_find_none(buffer@, "\n\n"@);
            }
            return None;
        },
    };
    proof {
        lemma_find_first(buffer@, "\n\n"@, idx as int);
    }
    let n = buffer.as_str().unicode_len();
    let raw = String::from_str(buffer.as_str().substring_char(0, idx));
    let rest = String::from_str(buffer.as_str().substring_char(idx + 2, n));
    *buffer = rest;
    let (event, data) = parse_sse_event(raw.as_str());
    Some(SseEvent { event, data })
}

/// An event that is already complete in the buffer is not changed by the
/// text that arrives after it, and that text stays behind it in the buffer.
pub proof fn law_complete_event_unaffected(buffer: Seq<char>, more: Seq<char>)
    requires
        find_from(buffer, "\n\n"@, 0) is Some,
    ensures
        find_from(buffer + more, "\n\n"@, 0) == find_from(buffer, "\n\n"@, 0),
        ({
            let i = find_from(buffer, "\n\n"@, 0)->0;
            &&& (buffer + more).subrange(0, i) == buffer.subrange(0, i)
            &&& (buffer + more).subrange(i + 2, (buffer + more).len() as int) == buffer.subrange(
                i + 2,
                buffer.len() as int,
            ) + more
        }),
{
    reveal_strlit("\n\n");
    lemma_find_sound(buffer, "\n\n"@);
    let i = find_from(buffer, "\n\n"@, 0)->0;
    lemma_first_extend(buffer, more, "\n\n"@, i);
    lemma_find_first(buffer + more, "\n\n"@, i);
    assert((buffer + more).subrange(0, i) =~= buffer.subrange(0, i));
    assert((buffer + more).subrange(i + 2, (buffer + more).len() as int) =~= buffer.subrange(
        i + 2,
        buffer.len() as int,
    ) + more);
}

/// The text of a part: its own, or that of the content it refers to.
pub open spec fn part_text_spec(part: ProviderMessagePart) -> Option<Seq<char>> {
    match part.text {
        Some(t) => Some(t@),
        None => match part.content {
            Some(c) => opt_view(c.text_content),
            None => None,
        },
    }
}

/// The text of a part, if it has one.
pub fn part_text(part: &ProviderMessagePart) -> (r: Option<String>)
    ensures
        opt_view(r) == part_text_spec(*part),
{
    match &part.text {
        Some(t) => Some(t.clone()),
        None => match &part.content {
            Some(content) => match &content.text_content {
                Some(t) => Some(t.clone()),
                None => None,
            },
            None => None,
        },
    }
}

/// The address of an endpoint: the base URL without its trailing slashes,
/// then the endpoint, with a slash put in front when it has none.
pub open spec fn endpoint_url_text(base: Seq<char>, endpoint: Seq<char>) -> Seq<char> {
    strip_trailing(base, '/') + if "/"@.is_prefix_of(endpoint) {
        endpoint
    } else {
        "/"@ + endpoint
    }
}

/// What `url` makes of a text: the URL in its normal form, or the message
/// of the error.
pub uninterp spec fn url_parse_of(text: Seq<char>) -> Result<Seq<char>, Seq<char>>;

/// Parses `text` with `reqwest::Url::parse` (the `url` crate) and hands
/// back the parsed URL in its normal form (`Url::to_string`), or the
/// error's message. The claim is that the outcome is a function of the text
/// alone.
#[verifier::external_body]
fn parse_url(text: &str) -> (r: Result<String, String>)
    ensures
        match r {
            Ok(u) => url_parse_of(text@) == Ok::<Seq<char>, Seq<char>>(u@),
            Err(e) => url_parse_of(text@) == Err::<Seq<char>, Seq<char>>(e@),
        },
{
    match reqwest::Url::parse(text) {
        Ok(url) => Ok(url.to_string()),
        Err(err) => Err(err.to_string()),
    }
}

/// The URL of an endpoint of a channel, in its normal form; an address
/// that does not parse is refused.
pub fn build_endpoint_url(channel: &ApiChannel, endpoint: &str) -> (r: Result<String, AppError>)
    ensures
        match url_parse_of(endpoint_url_text(channel.base_url@, endpoint@)) {
            Ok(u) => r matches Ok(v) && v@ == u,
            Err(e) => fails_validation(r, "VALIDATION_ERROR"@, "invalid provider url: "@ + e),
        },
{
    let mut text = trim_end_char(channel.base_url.as_str(), '/');
    if !starts_with(endpoint, "/") {
        text.append("/");
    }
    text.append(endpoint);
    proof {
        reveal_strlit("/");
        assert(text@ =~= endpoint_url_text(channel.base_url@, endpoint@));
    }
    match parse_url(text.as_str()) {
        Ok(u) => Ok(u),
        Err(e) => {
            let mut message = String::from_str("invalid provider url: ");
            message.append(e.as_str());
            Err(AppError::validation("VALIDATION_ERROR", message.as_str()))
        },
    }
}

/// A line `label` + value when the value is there, after a line feed.
pub open spec fn optional_line(label: Seq<char>, value: Option<String>) -> Seq<char> {
    match value {
        Some(v) => "\n"@ + label + v@,
        None => Seq::empty(),
    }
}

/// The settings of a content as a line, when they hold an object that is
/// not empty: the object in its compact form.
pub open spec fn metadata_line(config_json: Seq<char>) -> Seq<char> {
    match json_parse_of(config_json) {
        Ok(t) => if t.len() > 0 && t[0] == '{' && t != "{}"@ {
            "\nmetadata: "@ + t
        } else {
            Seq::empty()
        },
        Err(_) => Seq::empty(),
    }
}

/// The text that stands for a piece of content a provider cannot take in
/// its own form: its label, then its address, type, size, preview and
/// settings, one per line, each when it is there.
pub open spec fn fallback_text(c: StoredContent, label: Seq<char>) -> Seq<char> {
    "["@ + label + "]"@ + optional_line("uri: "@, c.primary_storage_uri) + optional_line("mime: "@, c.mime_type)
        + "\nsize_bytes: "@ + decimal(c.size_bytes as nat) + optional_line("preview: "@, c.preview_text)
        + metadata_line(c.config_json@)
}

fn push_optional_line(out: &mut String, label: &str, value: &Option<String>)
    ensures
        final(out)@ == old(out)@ + optional_line(label@, *value),
{
    match value {
        Some(v) => {
            out.append("\n");
            out.append(label);
            out.append(v.as_str());
            proof {
                reveal_strlit("\n");
                assert(final(out)@ =~= old(out)@ + optional_line(label@, *value));
            }
        },
        None => {
            assert(out@ =~= old(out)@ + optional_line(label@, *value));
        },
    }
}

/// The text of a part for a provider that takes only text: the part's own
/// text when it has one, else the description of its content; a part with
/// neither is refused.
pub fn binary_part_text_fallback(part: &ProviderMessagePart, label: &str) -> (r: Result<String, AppError>)
    ensures
        match part_text_spec(*part) {
            Some(t) => r matches Ok(v) && v@ == t,
            None => match part.content {
                Some(c) => r matches Ok(v) && v@ == fallback_text(c, label@),
                None => fails_validation(
                    r,
                    "VALIDATION_ERROR"@,
                    label@ + " part requires content or explicit text representation"@,
                ),
            },
        },
{
    if let Some(text) = part_text(part) {
        return Ok(text);
    }
    let content = match &part.content {
        Some(c) => c,
        None => {
            let mut message = String::from_str(label);
            message.append(" part requires content or explicit text representation");
            return Err(AppError::validation("VALIDATION_ERROR", message.as_str()));
        },
    };
    let mut text = concat3("[", label, "]");
    push_optional_line(&mut text, "uri: ", &content.primary_storage_uri);
    push_optional_line(&mut text, "mime: ", &content.mime_type);
    text.append("\nsize_bytes: ");
    push_decimal(&mut text, content.size_bytes);
    push_optional_line(&mut text, "preview: ", &content.preview_text);
    let ghost before = text@;
    match parse_json_text(content.config_json.as_str()) {
        Ok(t) => {
            let n = t.as_str().unicode_len();
            if n > 0 && t.as_str().get_char(0) == '{' && !str_eq(t.as_str(), "{}") {
                text.append("\nmetadata: ");
                text.append(t.as_str());
            }
        },
        Err(_) => {},
    }
    proof {
        reveal_strlit("\nsize_bytes: ");
        reveal_strlit("\nmetadata: ");
        assert(text@ =~= fallback_text(*content, label@));
    }
    Ok(text)
}

/// The label a part that is not text is described under.
pub open spec fn part_label(k: ProviderMessagePartKind) -> Seq<char> {
    match k {
        ProviderMessagePartKind::ImageRef => "image"@,
        ProviderMessagePartKind::AudioRef => "audio"@,
        ProviderMessagePartKind::VideoRef => "video"@,
        _ => "file"@,
    }
}

/// The name a part kind prints under.
pub open spec fn kind_name(k: ProviderMessagePartKind) -> Seq<char> {
    match k {
        ProviderMessagePartKind::Text => "Text"@,
        ProviderMessagePartKind::ImageRef => "ImageRef"@,
        ProviderMessagePartKind::AudioRef => "AudioRef"@,
        ProviderMessagePartKind::VideoRef => "VideoRef"@,
        ProviderMessagePartKind::FileRef => "FileRef"@,
        ProviderMessagePartKind::JsonPayload => "JsonPayload"@,
        ProviderMessagePartKind::ToolRequest => "ToolRequest"@,
        ProviderMessagePartKind::ToolResponse => "ToolResponse"@,
        ProviderMessagePartKind::RagExcerpt => "RagExcerpt"@,
        ProviderMessagePartKind::McpPayload => "McpPayload"@,
        ProviderMessagePartKind::PluginPayload => "PluginPayload"@,
        ProviderMessagePartKind::ReasoningTrace => "ReasoningTrace"@,
        ProviderMessagePartKind::ProviderSignature => "ProviderSignature"@,
    }
}

/// The name a part kind prints under.
pub fn kind_name_of(k: ProviderMessagePartKind) -> (r: &'static str)
    ensures
        r@ == kind_name(k),
{
    match k {
        ProviderMessagePartKind::Text => "Text",
        ProviderMessagePartKind::ImageRef => "ImageRef",
        ProviderMessagePartKind::AudioRef => "AudioRef",
        ProviderMessagePartKind::VideoRef => "VideoRef",
        ProviderMessagePartKind::FileRef => "FileRef",
        ProviderMessagePartKind::JsonPayload => "JsonPayload",
        ProviderMessagePartKind::ToolRequest => "ToolRequest",
        ProviderMessagePartKind::ToolResponse => "ToolResponse",
        ProviderMessagePartKind::RagExcerpt => "RagExcerpt",
        ProviderMessagePartKind::McpPayload => "McpPayload",
        ProviderMessagePartKind::PluginPayload => "PluginPayload",
        ProviderMessagePartKind::ReasoningTrace => "ReasoningTrace",
        ProviderMessagePartKind::ProviderSignature => "ProviderSignature",
    }
}

/// The text of a payload part (JSON, tool, retrieval, plugin, reasoning or
/// signature): its own text, else its content's preview.
pub open spec fn payload_text(part: ProviderMessagePart) -> Option<Seq<char>> {
    match part_text_spec(part) {
        Some(t) => Some(t),
        None => match part.content {
            Some(c) => opt_view(c.preview_text),
            None => None,
        },
    }
}

/// The text of a payload part, or the error for one without any.
pub fn payload_part_text(part: &ProviderMessagePart) -> (r: Result<String, AppError>)
    ensures
        match payload_text(*part) {
            Some(t) => r matches Ok(v) && v@ == t,
            None => fails_validation(
                r,
                "VALIDATION_ERROR"@,
                "provider part "@ + kind_name(part.kind) + " requires textual representation"@,
            ),
        },
{
    let text = match part_text(part) {
        Some(t) => Some(t),
        None => match &part.content {
            Some(c) => match &c.preview_text {
                Some(p) => Some(p.clone()),
                None => None,
            },
            None => None,
        },
    };
    match text {
        Some(t) => Ok(t),
        None => {
            let mut message = String::from_str("provider part ");
            message.append(kind_name_of(part.kind));
            message.append(" requires textual representation");
            Err(AppError::validation("VALIDATION_ERROR", message.as_str()))
        },
    }
}

/// The text form of `part` for a provider that takes only text: a text
/// part gives its text (empty when it has none); an image, audio, video or
/// file part its text or the description of its content; any other part
/// its text or its content's preview. `None` when there is none.
pub open spec fn text_form(part: ProviderMessagePart) -> Option<Seq<char>> {
    match part.kind {
        ProviderMessagePartKind::Text => Some(
            match part_text_spec(part) {
                Some(t) => t,
                None => Seq::empty(),
            },
        ),
        ProviderMessagePartKind::ImageRef | ProviderMessagePartKind::AudioRef | ProviderMessagePartKind::VideoRef
        | ProviderMessagePartKind::FileRef => match part_text_spec(part) {
            Some(t) => Some(t),
            None => match part.content {
                Some(c) => Some(fallback_text(c, part_label(part.kind))),
                None => None,
            },
        },
        _ => payload_text(part),
    }
}

/// The message of the error for a part without a text form.
pub open spec fn text_form_error(part: ProviderMessagePart) -> Seq<char> {
    match part.kind {
        ProviderMessagePartKind::ImageRef | ProviderMessagePartKind::AudioRef | ProviderMessagePartKind::VideoRef
        | ProviderMessagePartKind::FileRef => part_label(part.kind)
            + " part requires content or explicit text representation"@,
        _ => "provider part "@ + kind_name(part.kind) + " requires textual representation"@,
    }
}

/// Whether `r` is what turning `part` into text gives.
pub open spec fn is_text_form(r: Result<String, AppError>, part: ProviderMessagePart) -> bool {
    match text_form(part) {
        Some(t) => r matches Ok(v) && v@ == t,
        None => fails_validation(r, "VALIDATION_ERROR"@, text_form_error(part)),
    }
}

/// The text form of a part, for providers that take only text.
pub fn part_to_text(part: &ProviderMessagePart) -> (r: Result<String, AppError>)
    ensures
        is_text_form(r, *part),
{
    match part.kind {
        ProviderMessagePartKind::Text => match part_text(part) {
            Some(t) => Ok(t),
            None => Ok(String::new()),
        },
        ProviderMessagePartKind::ImageRef => binary_part_text_fallback(part, "image"),
        ProviderMessagePartKind::AudioRef => binary_part_text_fallback(part, "audio"),
        ProviderMessagePartKind::VideoRef => binary_part_text_fallback(part, "video"),
        ProviderMessagePartKind::FileRef => binary_part_text_fallback(part, "file"),
        _ => payload_part_text(part),
    }
}

/// The text forms of a list of parts, or `None` when one has none.
pub open spec fn texts_spec(parts: Seq<ProviderMessagePart>) -> Option<Seq<Seq<char>>>
    decreases parts.len(),
{
    if parts.len() == 0 {
        Some(Seq::empty())
    } else {
        match texts_spec(parts.drop_last()) {
            Some(ts) => match text_form(parts.last()) {
                Some(t) => Some(ts.push(t)),
                None => None,
            },
            None => None,
        }
    }
}

/// The message of the error of the first part without a text form.
pub open spec fn texts_error(parts: Seq<ProviderMessagePart>) -> Seq<char>
    decreases parts.len(),
{
    if parts.len() == 0 {
        Seq::empty()
    } else if texts_spec(parts.drop_last()) is None {
        texts_error(parts.drop_last())
    } else {
        text_form_error(parts.last())
    }
}

/// The text forms of the parts of a message, in order; the first part
/// without one refuses the message.
pub fn parts_to_texts(parts: &[ProviderMessagePart]) -> (r: Result<Vec<String>, AppError>)
    ensures
        match texts_spec(parts@) {
            Some(ts) => r matches Ok(v) && string_views(v@) == ts,
            None => fails_validation(r, "VALIDATION_ERROR"@, texts_error(parts@)),
        },
{
    let mut texts: Vec<String> = Vec::new();
    let mut i: usize = 0;
    assert(parts@.take(0) =~= Seq::<ProviderMessagePart>::empty());
    assert(string_views(texts@) =~= Seq::<Seq<char>>::empty());
    while i < parts.len()
        invariant
            i <= parts@.len(),
            texts_spec(parts@.take(i as int)) == Some(string_views(texts@)),
        decreases parts.len() - i,
    {
        assert(parts@.take(i + 1 as int).drop_last() =~= parts@.take(i as int));
        assert(parts@.take(i + 1 as int).last() == parts@[i as int]);
        match part_to_text(&parts[i]) {
            Ok(t) => {
                let ghost before = texts@;
                texts.push(t);
                assert(string_views(texts@) =~= string_views(before).push(texts@.last()@));
            },
            Err(e) => {
                proof {
                    lemma_texts_prefix_fails(parts@, i as int + 1);
                }
                return Err(e);
            },
        }
        i = i + 1;
    }
    assert(parts@.take(parts@.len() as int) =~= parts@);
    Ok(texts)
}

proof fn lemma_texts_prefix_fails(parts: Seq<ProviderMessagePart>, n: int)
    requires
        0 <= n <= parts.len(),
        texts_spec(parts.take(n)) is None,
    ensures
        texts_spec(parts) is None,
        texts_error(parts) == texts_error(parts.take(n)),
    decreases parts.len() - n,
{
    if n < parts.len() {
        assert(parts.take(n + 1).drop_last() =~= parts.take(n));
        lemma_texts_prefix_fails(parts, n + 1);
    } else {
        assert(parts.take(n) =~= parts);
    }
}

/// A request message of a provider that takes only text: a role and the
/// text of each part.
#[derive(Debug, Clone, PartialEq, Eq)]
pub struct TextMessage {
    pub role: String,
    pub texts: Vec<String>,
}

/// The role of a message for a provider that takes only text: the
/// assistant under the provider's name for it, every other role as the user.
pub open spec fn text_role(role: MessageRole, assistant_name: Seq<char>) -> Seq<char> {
    match role {
        MessageRole::Assistant => assistant_name,
        _ => "user"@,
    }
}

/// The request message of a message of the conversation.
pub fn message_to_text_message(message: &ProviderChatMessage, assistant_name: &str) -> (r: Result<TextMessage, AppError>)
    ensures
        match texts_spec(message.parts@) {
            Some(ts) => r matches Ok(m) && m.role@ == text_role(message.role, assistant_name@) && string_views(
                m.texts@,
            ) == ts,
            None => fails_validation(r, "VALIDATION_ERROR"@, texts_error(message.parts@)),
        },
{
    let role = match message.role {
        MessageRole::Assistant => String::from_str(assistant_name),
        _ => String::from_str("user"),
    };
    match parts_to_texts(message.parts.as_slice()) {
        Ok(texts) => Ok(TextMessage { role, texts }),
        Err(e) => Err(e),
    }
}

/// The system text and the other messages of a request, for a provider that
/// takes the system text apart: the text forms of the parts of the system
/// messages, in order, and the other messages as request messages; `None`
/// when a message cannot be sent.
pub open spec fn split_spec(msgs: Seq<ProviderChatMessage>, assistant_name: Seq<char>) -> Option<(Seq<Seq<char>>, Seq<(Seq<char>, Seq<Seq<char>>)>)>
    decreases msgs.len(),
{
    if msgs.len() == 0 {
        Some((Seq::empty(), Seq::empty()))
    } else {
        match split_spec(msgs.drop_last(), assistant_name) {
            Some(p) => match texts_spec(msgs.last().parts@) {
                Some(ts) => if msgs.last().role == MessageRole::System {
                    Some((p.0 + ts, p.1))
                } else {
                    Some((p.0, p.1.push((text_role(msgs.last().role, assistant_name), ts))))
                },
                None => None,
            },
            None => None,
        }
    }
}

/// The message of the error of the first message that cannot be sent.
pub open spec fn split_error(msgs: Seq<ProviderChatMessage>, assistant_name: Seq<char>) -> Seq<char>
    decreases msgs.len(),
{
    if msgs.len() == 0 {
        Seq::empty()
    } else if split_spec(msgs.drop_last(), assistant_name) is None {
        split_error(msgs.drop_last(), assistant_name)
    } else {
        texts_error(msgs.last().parts@)
    }
}

/// The plain form of request messages.
pub open spec fn text_messages_view(v: Seq<TextMessage>) -> Seq<(Seq<char>, Seq<Seq<char>>)> {
    v.map_values(|m: TextMessage| (m.role@, string_views(m.texts@)))
}

proof fn lemma_split_prefix_fails(msgs: Seq<ProviderChatMessage>, assistant_name: Seq<char>, n: int)
    requires
        0 <= n <= msgs.len(),
        split_spec(msgs.take(n), assistant_name) is None,
    ensures
        split_spec(msgs, assistant_name) is None,
        split_error(msgs, assistant_name) == split_error(msgs.take(n), assistant_name),
    decreases msgs.len() - n,
{
    if n < msgs.len() {
        assert(msgs.take(n + 1).drop_last() =~= msgs.take(n));
        lemma_split_prefix_fails(msgs, assistant_name, n + 1);
    } else {
        assert(msgs.take(n) =~= msgs);
    }
}

/// The system texts and the other messages of a request, for a provider
/// that takes the system text apart.
pub fn split_text_messages(messages: &[ProviderChatMessage], assistant_name: &str) -> (r: Result<
    (Vec<String>, Vec<TextMessage>),
    AppError,
>)
    ensures
        match split_spec(messages@, assistant_name@) {
            Some(p) => r matches Ok(v) && string_views(v.0@) == p.0 && text_messages_view(v.1@) == p.1,
            None => fails_validation(r, "VALIDATION_ERROR"@, split_error(messages@, assistant_name@)),
        },
{
    let mut system: Vec<String> = Vec::new();
    let mut out: Vec<TextMessage> = Vec::new();
    let mut i: usize = 0;
    assert(messages@.take(0) =~= Seq::<ProviderChatMessage>::empty());
    assert(string_views(system@) =~= Seq::<Seq<char>>::empty());
    assert(text_messages_view(out@) =~= Seq::<(Seq<char>, Seq<Seq<char>>)>::empty());
    while i < messages.len()
        invariant
            i <= messages@.len(),
            split_spec(messages@.take(i as int), assistant_name@) == Some(
                (string_views(system@), text_messages_view(out@)),
            ),
        decreases messages.len() - i,
    {
        assert(messages@.take(i + 1 as int).drop_last() =~= messages@.take(i as int));
        assert(messages@.take(i + 1 as int).last() == messages@[i as int]);
        if messages[i].role == MessageRole::System {
            match parts_to_texts(messages[i].parts.as_slice()) {
                Ok(texts) => {
                    let ghost before = system@;
                    let mut k: usize = 0;
                    while k < texts.len()
                        invariant
                            k <= texts@.len(),
                            string_views(system@) == string_views(before) + string_views(texts@.take(k as int)),
                        decreases texts.len() - k,
                    {
                        let ghost prev = system@;
                        system.push(texts[k].clone());
                        assert(string_views(system@) =~= string_views(prev).push(texts@[k as int]@));
                        assert(string_views(texts@.take(k + 1 as int)) =~= string_views(texts@.take(k as int)).push(
                            texts@[k as int]@,
                        ));
                        k = k + 1;
                    }
                    assert(texts@.take(texts@.len() as int) =~= texts@);
                },
                Err(e) => {
                    proof {
                        lemma_split_prefix_fails(messages@, assistant_name@, i as int + 1);
                    }
                    return Err(e);
                },
            }
        } else {
            match message_to_text_message(&messages[i], assistant_name) {
                Ok(m) => {
                    let ghost before = out@;
                    out.push(m);
                    assert(text_messages_view(out@) =~= text_messages_view(before).push(
                        (out@.last().role@, string_views(out@.last().texts@)),
                    ));
                },
                Err(e) => {
                    proof {
                        lemma_split_prefix_fails(messages@, assistant_name@, i as int + 1);
                    }
                    return Err(e);
                },
            }
        }
        i = i + 1;
    }
    assert(messages@.take(messages@.len() as int) =~= messages@);
    Ok((system, out))
}

/// A character that may stand in a header name: a letter, a digit, or one
/// of ``!#$%&'*+-.^_`|~``.
pub open spec fn is_token_char(c: char) -> bool {
    ||| ('a' <= c && c <= 'z')
    ||| ('A' <= c && c <= 'Z')
    ||| ('0' <= c && c <= '9')
    ||| c == '!' || c == '#' || c == '$' || c == '%' || c == '&' || c == '\''
    ||| c == '*' || c == '+' || c == '-' || c == '.' || c == '^' || c == '_'
    ||| c == '`' || c == '|' || c == '~'
}

/// A header name that HTTP accepts: 1 to 65535 token characters.
pub open spec fn header_name_ok(name: Seq<char>) -> bool {
    &&& 1 <= name.len() <= 65535
    &&& forall|i: int| 0 <= i < name.len() ==> is_token_char(#[trigger] name[i])
}

/// `c` with an upper-case ASCII letter made lower-case.
pub open spec fn lower_char(c: char) -> char {
    if 'A' <= c && c <= 'Z' {
        ((c as int) + 32) as char
    } else {
        c
    }
}

/// `s` with its upper-case ASCII letters made lower-case.
pub open spec fn ascii_lower(s: Seq<char>) -> Seq<char> {
    s.map_values(|c: char| lower_char(c))
}

/// A header value that HTTP accepts: each byte of its UTF-8 text is a tab,
/// or at least 32 and not 127 (so any character beyond ASCII is accepted).
pub open spec fn header_value_ok(value: Seq<char>) -> bool {
    forall|i: int| 0 <= i < value.len() ==> (#[trigger] value[i] == '\t' || (value[i] as int >= 32
        && value[i] as int != 127))
}

/// `reqwest::header::HeaderName::from_bytes` (the `http` crate): it accepts
/// a name of 1 to 65535 bytes each of which is a token character, and
/// gives it back in lower case; the refusal reads "invalid HTTP header
/// name".
#[verifier::external_body]
fn header_name(name: &str) -> (r: Result<String, String>)
    ensures
        r is Ok <==> header_name_ok(name@),
        r matches Ok(n) ==> n@ == ascii_lower(name@),
        r matches Err(e) ==> e@ == "invalid HTTP header name"@,
{
    match reqwest::header::HeaderName::from_bytes(name.as_bytes()) {
        Ok(n) => Ok(n.as_str().to_string()),
        Err(err) => Err(err.to_string()),
    }
}

/// `reqwest::header::HeaderValue::from_str` (the `http` crate): it accepts
/// a value whose bytes are each a tab, or at least 32 and not 127; the
/// refusal reads "failed to parse header value".
#[verifier::external_body]
pub(crate) fn header_value(value: &str) -> (r: Result<(), String>)
    ensures
        r is Ok <==> header_value_ok(value@),
        r matches Err(e) ==> e@ == "failed to parse header value"@,
{
    match reqwest::header::HeaderValue::from_str(value) {
        Ok(_) => Ok(()),
        Err(err) => Err(err.to_string()),
    }
}

/// The names and values of headers.
pub open spec fn headers_view(v: Seq<(String, String)>) -> Seq<(Seq<char>, Seq<char>)> {
    v.map_values(|h: (String, String)| (h.0@, h.1@))
}

/// Headers after `name` is set to `value`: the first header of that name
/// takes the value, and where there is none it goes last.
pub open spec fn put_header_spec(s: Seq<(Seq<char>, Seq<char>)>, name: Seq<char>, value: Seq<char>) -> Seq<
    (Seq<char>, Seq<char>),
>
    decreases s.len(),
{
    if s.len() == 0 {
        seq![(name, value)]
    } else if s[0].0 == name {
        seq![(name, value)] + s.drop_first()
    } else {
        seq![s[0]] + put_header_spec(s.drop_first(), name, value)
    }
}

proof fn lemma_put_at(s: Seq<(Seq<char>, Seq<char>)>, name: Seq<char>, value: Seq<char>, j: int)
    requires
        0 <= j < s.len(),
        s[j].0 == name,
        forall|k: int| 0 <= k < j ==> (#[trigger] s[k]).0 != name,
    ensures
        put_header_spec(s, name, value) == s.update(j, (name, value)),
    decreases j,
{
    if j == 0 {
        assert(seq![(name, value)] + s.drop_first() =~= s.update(0, (name, value)));
    } else {
        assert forall|k: int| 0 <= k < j - 1 implies (#[trigger] s.drop_first()[k]).0 != name by {
            assert(s.drop_first()[k] == s[k + 1]);
        }
        lemma_put_at(s.drop_first(), name, value, j - 1);
        assert(seq![s[0]] + s.drop_first().update(j - 1, (name, value)) =~= s.update(j, (name, value)));
    }
}

proof fn lemma_put_absent(s: Seq<(Seq<char>, Seq<char>)>, name: Seq<char>, value: Seq<char>)
    requires
        forall|k: int| 0 <= k < s.len() ==> (#[trigger] s[k]).0 != name,
    ensures
        put_header_spec(s, name, value) == s.push((name, value)),
    decreases s.len(),
{
    if s.len() == 0 {
        assert(seq![(name, value)] =~= s.push((name, value)));
    } else {
        assert forall|k: int| 0 <= k < s.len() - 1 implies (#[trigger] s.drop_first()[k]).0 != name by {
            assert(s.drop_first()[k] == s[k + 1]);
        }
        lemma_put_absent(s.drop_first(), name, value);
        assert(seq![s[0]] + s.drop_first().push((name, value)) =~= s.push((name, value)));
    }
}

/// Sets the header `name` to `value`, as a header map's insert does.
#[verifier::loop_isolation(false)]
pub fn put_header(headers: Vec<(String, String)>, name: String, value: String) -> (r: Vec<(String, String)>)
    ensures
        headers_view(r@) == put_header_spec(headers_view(headers@), name@, value@),
{
    let mut headers = headers;
    let ghost before = headers_view(headers@);
    let mut j: usize = 0;
    while j < headers.len()
        invariant
            j <= headers@.len(),
            before == headers_view(headers@),
            forall|k: int| 0 <= k < j ==> (#[trigger] before[k]).0 != name@,
        decreases headers.len() - j,
    {
        if str_eq(headers[j].0.as_str(), name.as_str()) {
            proof {
                lemma_put_at(before, name@, value@, j as int);
            }
            let ghost nv = (name@, value@);
            headers.set(j, (name, value));
            proof {
                assert(headers_view(headers@) =~= before.update(j as int, nv));
            }
            return headers;
        }
        j = j + 1;
    }
    proof {
        lemma_put_absent(before, name@, value@);
    }
    let ghost nv = (name@, value@);
    headers.push((name, value));
    proof {
        assert(headers_view(headers@) =~= before.push(nv));
    }
    headers
}

/// The headers that carry the channel's key: under `bearer` an
/// `authorization` header with `Bearer ` and the key, under `x-api-key` an
/// `x-api-key` header with the key, under `none` nothing; another scheme is
/// refused. Without a key there is no header.
pub open spec fn auth_headers_spec(auth_type: Seq<char>, api_key: Option<Seq<char>>) -> Result<
    Seq<(Seq<char>, Seq<char>)>,
    Seq<char>,
> {
    match api_key {
        None => Ok(Seq::empty()),
        Some(key) => if auth_type == "bearer"@ {
            if header_value_ok("Bearer "@ + key) {
                Ok(seq![("authorization"@, "Bearer "@ + key)])
            } else {
                Err("invalid authorization header: failed to parse header value"@)
            }
        } else if auth_type == "x-api-key"@ {
            if header_value_ok(key) {
                Ok(seq![("x-api-key"@, key)])
            } else {
                Err("invalid x-api-key header: failed to parse header value"@)
            }
        } else if auth_type == "none"@ {
            Ok(Seq::empty())
        } else {
            Err("unsupported auth_type '"@ + auth_type + "'"@)
        },
    }
}

/// The headers after the string members of a configured header object are
/// set in turn, each under its name in lower case; other members are
/// skipped, and the first bad name or value is refused.
pub open spec fn add_custom_headers(acc: Seq<(Seq<char>, Seq<char>)>, ms: Seq<MemberText>) -> Result<
    Seq<(Seq<char>, Seq<char>)>,
    Seq<char>,
>
    decreases ms.len(),
{
    if ms.len() == 0 {
        Ok(acc)
    } else {
        match ms[0].1 {
            None => add_custom_headers(acc, ms.drop_first()),
            Some(v) => if !header_name_ok(ms[0].0) {
                Err("invalid custom header name '"@ + ms[0].0 + "': invalid HTTP header name"@)
            } else if !header_value_ok(v) {
                Err("invalid custom header value for '"@ + ms[0].0 + "': failed to parse header value"@)
            } else {
                add_custom_headers(put_header_spec(acc, ascii_lower(ms[0].0), v), ms.drop_first())
            },
        }
    }
}

/// The headers of a request to a channel: those that carry its key, then
/// those of the `headers` object of its settings.
pub open spec fn headers_spec(auth_type: Seq<char>, api_key: Option<Seq<char>>, config: Seq<char>) -> Result<
    Seq<(Seq<char>, Seq<char>)>,
    Seq<char>,
> {
    match auth_headers_spec(auth_type, api_key) {
        Ok(h) => add_custom_headers(h, nested_members(config, "headers"@)),
        Err(e) => Err(e),
    }
}

pub(crate) fn validation_error(message: String) -> (e: AppError)
    ensures
        is_validation(e, "VALIDATION_ERROR"@, message@),
{
    AppError::validation("VALIDATION_ERROR", message.as_str())
}

#[verifier::loop_isolation(false)]
fn add_custom(headers: Vec<(String, String)>, ms: &Vec<JsonMember>) -> (r: Result<Vec<(String, String)>, AppError>)
    ensures
        match add_custom_headers(headers_view(headers@), members_view(ms@)) {
            Ok(h) => r matches Ok(v) && headers_view(v@) == h,
            Err(e) => fails_validation(r, "VALIDATION_ERROR"@, e),
        },
{
    let ghost all = members_view(ms@);
    let ghost target = add_custom_headers(headers_view(headers@), all);
    let mut headers = headers;
    let mut i: usize = 0;
    assert(all.subrange(0, all.len() as int) =~= all);
    while i < ms.len()
        invariant
            i <= ms@.len(),
            all == members_view(ms@),
            add_custom_headers(headers_view(headers@), all.subrange(i as int, all.len() as int)) == target,
        decreases ms.len() - i,
    {
        let ghost rest = all.subrange(i as int, all.len() as int);
        assert(rest[0] == member_view(ms@[i as int]));
        assert(rest.drop_first() =~= all.subrange(i + 1, all.len() as int));
        let name = &ms[i].0;
        match &ms[i].1 {
            None => {},
            Some(value) => {
                let lowered = match header_name(name.as_str()) {
                    Ok(n) => n,
                    Err(e) => {
                        proof {
                            reveal_strlit("invalid HTTP header name");
                        }
                        let mut message = concat3("invalid custom header name '", name.as_str(), "': ");
                        message.append(e.as_str());
                        proof {
                            reveal_strlit("invalid custom header name '");
                            reveal_strlit("': ");
                            reveal_strlit("': invalid HTTP header name");
                            assert(message@ =~= "invalid custom header name '"@ + name@
                                + "': invalid HTTP header name"@);
                        }
                        return Err(validation_error(message));
                    },
                };
                match header_value(value.as_str()) {
                    Ok(()) => {},
                    Err(e) => {
                        proof {
                            reveal_strlit("failed to parse header value");
                        }
                        let mut message = concat3("invalid custom header value for '", name.as_str(), "': ");
                        message.append(e.as_str());
                        proof {
                            reveal_strlit("invalid custom header value for '");
                            reveal_strlit("': ");
                            reveal_strlit("': failed to parse header value");
                            assert(message@ =~= "invalid custom header value for '"@ + name@
                                + "': failed to parse header value"@);
                        }
                        return Err(validation_error(message));
                    },
                }
                headers = put_header(headers, lowered, value.clone());
            },
        }
        i = i + 1;
    }
    Ok(headers)
}

/// The headers of a request to `channel`: those that carry its key under
/// its scheme, then the string members of the `headers` object of its
/// settings, each under its name in lower case; a later header replaces an
/// earlier one of the same name.
pub fn build_headers(channel: &ApiChannel) -> (r: Result<Vec<(String, String)>, AppError>)
    ensures
        match headers_spec(channel.auth_type@, opt_view(channel.api_key), channel.config_json@) {
            Ok(h) => r matches Ok(v) && headers_view(v@) == h,
            Err(e) => fails_validation(r, "VALIDATION_ERROR"@, e),
        },
{
    let mut headers: Vec<(String, String)> = Vec::new();
    proof {
        reveal_strlit("bearer");
        reveal_strlit("x-api-key");
        reveal_strlit("none");
        reveal_strlit("failed to parse header value");
    }
    if let Some(key) = &channel.api_key {
        if str_eq(channel.auth_type.as_str(), "bearer") {
            let mut value = String::from_str("Bearer ");
            value.append(key.as_str());
            match header_value(value.as_str()) {
                Ok(()) => {
                    let ghost nv = value@;
                    headers.push((String::from_str("authorization"), value));
                    proof {
                        assert(headers_view(headers@) =~= seq![("authorization"@, nv)]);
                    }
                },
                Err(e) => {
                    let mut message = String::from_str("invalid authorization header: ");
                    message.append(e.as_str());
                    proof {
                        reveal_strlit("invalid authorization header: ");
                        reveal_strlit("invalid authorization header: failed to parse header value");
                        assert(message@ =~= "invalid authorization header: failed to parse header value"@);
                    }
                    return Err(validation_error(message));
                },
            }
        } else if str_eq(channel.auth_type.as_str(), "x-api-key") {
            match header_value(key.as_str()) {
                Ok(()) => {
                    headers.push((String::from_str("x-api-key"), key.clone()));
                    proof {
                        assert(headers_view(headers@) =~= seq![("x-api-key"@, key@)]);
                    }
                },
                Err(e) => {
                    let mut message = String::from_str("invalid x-api-key header: ");
                    message.append(e.as_str());
                    proof {
                        reveal_strlit("invalid x-api-key header: ");
                        reveal_strlit("invalid x-api-key header: failed to parse header value");
                        assert(message@ =~= "invalid x-api-key header: failed to parse header value"@);
                    }
                    return Err(validation_error(message));
                },
            }
        } else if !str_eq(channel.auth_type.as_str(), "none") {
            let message = concat3("unsupported auth_type '", channel.auth_type.as_str(), "'");
            return Err(validation_error(message));
        }
    }
    proof {
        assert(headers_view(Seq::<(String, String)>::empty()) =~= Seq::empty());
    }
    let members = nested_object_members(channel.config_json.as_str(), "headers");
    add_custom(headers, &members)
}

/// The value of the first header named `name`, if any.
pub open spec fn header_value_of(s: Seq<(Seq<char>, Seq<char>)>, name: Seq<char>) -> Option<Seq<char>>
    decreases s.len(),
{
    if s.len() == 0 {
        None
    } else if s[0].0 == name {
        Some(s[0].1)
    } else {
        header_value_of(s.drop_first(), name)
    }
}

/// Setting a header then reading it gives the value set, and leaves every
/// other header as it read before.
pub proof fn law_put_header_read(s: Seq<(Seq<char>, Seq<char>)>, name: Seq<char>, value: Seq<char>, other: Seq<char>)
    ensures
        header_value_of(put_header_spec(s, name, value), name) == Some(value),
        other != name ==> header_value_of(put_header_spec(s, name, value), other) == header_value_of(s, other),
    decreases s.len(),
{
    if s.len() > 0 && s[0].0 != name {
        law_put_header_read(s.drop_first(), name, value, other);
        let p = put_header_spec(s, name, value);
        assert(p[0] == s[0]);
        assert(p.drop_first() =~= put_header_spec(s.drop_first(), name, value));
        if other != name {
            if s[0].0 == other {
                assert(header_value_of(p, other) == Some(s[0].1));
            } else {
                assert(header_value_of(p, other) == header_value_of(p.drop_first(), other));
            }
        }
    } else if s.len() > 0 {
        let p = put_header_spec(s, name, value);
        assert(p[0] == (name, value));
        assert(p.drop_first() =~= s.drop_first());
        if other != name {
            assert(header_value_of(p, other) == header_value_of(p.drop_first(), other));
            assert(header_value_of(s, other) == header_value_of(s.drop_first(), other));
        }
    } else {
        let p = put_header_spec(s, name, value);
        assert(p[0] == (name, value));
        assert(p.drop_first() =~= Seq::<(Seq<char>, Seq<char>)>::empty());
        if other != name {
            assert(header_value_of(p, other) == header_value_of(p.drop_first(), other));
        }
    }
}


/// The JSON text of one text item of a request message: with its `type`
/// for a provider that asks for it (`typed`), else only its `text`.
pub open spec fn text_item_json(t: Seq<char>, typed: bool) -> Seq<char> {
    if typed {
        json_value_object_of(seq![("type"@, json_quoted("text"@)), ("text"@, json_quoted(t))])
    } else {
        json_value_object_of(seq![("text"@, json_quoted(t))])
    }
}

/// The JSON text of a request message of a provider that takes only text:
/// its role, and its items under `content` (typed) or `parts`.
pub open spec fn text_message_json(role: Seq<char>, texts: Seq<Seq<char>>, typed: bool) -> Seq<char> {
    json_value_object_of(
        seq![
            ("role"@, json_quoted(role)),
            (if typed { "content"@ } else { "parts"@ }, json_value_array_of(texts.map_values(|t: Seq<char>| text_item_json(t, typed)))),
        ],
    )
}

/// The JSON texts of the items of a request message.
pub fn text_items_json(texts: &Vec<String>, typed: bool) -> (r: Vec<String>)
    ensures
        texts_view(r@) == string_views(texts@).map_values(|t: Seq<char>| text_item_json(t, typed)),
{
    let mut r: Vec<String> = Vec::new();
    let mut i: usize = 0;
    while i < texts.len()
        invariant
            i <= texts@.len(),
            texts_view(r@) == string_views(texts@).take(i as int).map_values(|t: Seq<char>| text_item_json(t, typed)),
        decreases texts.len() - i,
    {
        let t = texts[i].as_str();
        let item = if typed {
            let pairs = vec![(String::from_str("type"), json_string_text("text")), (String::from_str("text"), json_string_text(t))];
            proof {
                assert(string_pairs_view(pairs@) =~= seq![("type"@, json_quoted("text"@)), ("text"@, json_quoted(t@))]);
            }
            json_value_object(pairs.as_slice())
        } else {
            let pairs = vec![(String::from_str("text"), json_string_text(t))];
            proof {
                assert(string_pairs_view(pairs@) =~= seq![("text"@, json_quoted(t@))]);
            }
            json_value_object(pairs.as_slice())
        };
        let ghost prev = r@;
        let ghost item_text = item@;
        r.push(item);
        proof {
            assert(texts_view(r@) =~= texts_view(prev).push(item_text));
            assert(string_views(texts@).take(i + 1 as int).map_values(|t: Seq<char>| text_item_json(t, typed)) =~= string_views(
                texts@,
            ).take(i as int).map_values(|t: Seq<char>| text_item_json(t, typed)).push(text_item_json(texts@[i as int]@, typed)));
        }
        i = i + 1;
    }
    proof {
        assert(string_views(texts@).take(texts@.len() as int) =~= string_views(texts@));
    }
    r
}

/// The JSON text of a request message of a provider that takes only text.
pub fn text_message_json_of(m: &TextMessage, typed: bool) -> (r: String)
    ensures
        r@ == text_message_json(m.role@, string_views(m.texts@), typed),
{
    let items = text_items_json(&m.texts, typed);
    let pairs = vec![
        (String::from_str("role"), json_string_text(m.role.as_str())),
        (String::from_str(if typed { "content" } else { "parts" }), json_value_array(items.as_slice())),
    ];
    proof {
        assert(string_pairs_view(pairs@) =~= seq![
            ("role"@, json_quoted(m.role@)),
            (if typed { "content"@ } else { "parts"@ }, json_value_array_of(string_views(m.texts@).map_values(|t: Seq<char>| text_item_json(t, typed)))),
        ]);
    }
    json_value_object(pairs.as_slice())
}

/// The JSON texts of the request messages of a provider that takes only text.
pub fn text_messages_json(ms: &[TextMessage], typed: bool) -> (r: Vec<String>)
    ensures
        texts_view(r@) == text_messages_view(ms@).map_values(
            |m: (Seq<char>, Seq<Seq<char>>)| text_message_json(m.0, m.1, typed),
        ),
{
    let mut r: Vec<String> = Vec::new();
    let mut i: usize = 0;
    while i < ms.len()
        invariant
            i <= ms@.len(),
            texts_view(r@) == text_messages_view(ms@).take(i as int).map_values(
                |m: (Seq<char>, Seq<Seq<char>>)| text_message_json(m.0, m.1, typed),
            ),
        decreases ms.len() - i,
    {
        let ghost prev = r@;
        let item = text_message_json_of(&ms[i], typed);
        let ghost item_text = item@;
        r.push(item);
        proof {
            assert(texts_view(r@) =~= texts_view(prev).push(item_text));
            assert(text_messages_view(ms@).take(i + 1 as int).map_values(
                |m: (Seq<char>, Seq<Seq<char>>)| text_message_json(m.0, m.1, typed),
            ) =~= text_messages_view(ms@).take(i as int).map_values(
                |m: (Seq<char>, Seq<Seq<char>>)| text_message_json(m.0, m.1, typed),
            ).push(text_message_json(ms@[i as int].role@, string_views(ms@[i as int].texts@), typed)));
        }
        i = i + 1;
    }
    proof {
        assert(text_messages_view(ms@).take(ms@.len() as int) =~= text_messages_view(ms@));
    }
    r
}


/// What a whole streamed reply came to: the events reported to the
/// listener, in order, and the reply or the error it ended with.
#[derive(Debug)]
pub struct StreamRun {
    pub reported: Vec<crate::domain::ProviderChatEvent>,
    pub result: Result<crate::domain::ProviderChatResponse, AppError>,
}

/// Whether `reported` are the delta events of the texts `texts` (text,
/// raw event JSON), in order: each one text part holding the text, with
/// the event's JSON as its metadata and as the event's own JSON.
pub open spec fn reports_deltas(reported: Seq<crate::domain::ProviderChatEvent>, texts: Seq<(Seq<char>, Seq<char>)>) -> bool {
    &&& reported.len() == texts.len()
    &&& forall|k: int|
        0 <= k < reported.len() ==> (#[trigger] reported[k] matches crate::domain::ProviderChatEvent::Delta {
            parts,
            raw_event_json,
        } && parts@.len() == 1 && crate::providers::openai_compatible::is_text_part(parts@[0], texts[k].0, texts[k].1)
            && opt_view(raw_event_json) == Some(texts[k].1))
}

/// The texts one after the other.
pub open spec fn texts_joined(texts: Seq<(Seq<char>, Seq<char>)>) -> Seq<char>
    decreases texts.len(),
{
    if texts.len() == 0 {
        Seq::empty()
    } else {
        texts_joined(texts.drop_last()) + texts.last().0
    }
}


/// The text `String::from_utf8_lossy` makes of `bytes`.
pub uninterp spec fn utf8_lossy_of(bytes: Seq<u8>) -> Seq<char>;

/// Reads `bytes` as UTF-8 with `String::from_utf8_lossy`, each invalid
/// sequence becoming U+FFFD. The claims are that the text is a function of
/// the bytes and, as std documents, that valid UTF-8 reads as what it
/// encodes.
#[verifier::external_body]
pub fn decode_utf8_lossy(bytes: &[u8]) -> (r: String)
    ensures
        r@ == utf8_lossy_of(bytes@),
        vstd::utf8::valid_utf8(bytes@) ==> r@ == vstd::utf8::decode_utf8(bytes@),
{
    String::from_utf8_lossy(bytes).into_owned()
}

/// The server-sent events of a body as it is read: the text read so far
/// that holds no whole event yet.
#[derive(Debug, Clone)]
pub struct SseReader {
    pub buffer: String,
}

impl SseReader {
    /// Nothing read yet.
    pub fn new() -> (r: Self)
        ensures
            r.buffer@ == Seq::<char>::empty(),
    {
        SseReader { buffer: String::new() }
    }

    /// Takes in the next bytes of the body: read as UTF-8 (invalid
    /// sequences replaced), with each CRLF made a line feed.
    pub fn push_bytes(&mut self, bytes: &[u8])
        ensures
            final(self).buffer@ == old(self).buffer@ + crate::text::replace_all(utf8_lossy_of(bytes@), "\r\n"@, "\n"@),
    {
        let text = decode_utf8_lossy(bytes);
        proof {
            reveal_strlit("\r\n");
        }
        let text = crate::text::replace_text(text.as_str(), "\r\n", "\n");
        self.buffer.append(text.as_str());
    }

    /// The next whole event, if one has come in.
    pub fn next_event(&mut self) -> (r: Option<SseEvent>)
        ensures
            match find_from(old(self).buffer@, "\n\n"@, 0) {
                None => r is None && final(self).buffer@ == old(self).buffer@,
                Some(i) => r matches Some(ev) && (final(self).buffer@ == old(self).buffer@.subrange(
                    i + 2,
                    old(self).buffer@.len() as int,
                ) && (opt_view(ev.event), ev.data@) == sse_event_of(old(self).buffer@.subrange(0, i))),
            },
    {
        take_next_sse_event(&mut self.buffer)
    }
}

} // verus!
