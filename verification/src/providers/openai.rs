//! The settings of a plain OpenAI provider: its name, key, base URL and the
//! paths of its model list and chat completions, with their defaults, and
//! the addresses and key its requests use, and what the answer to a chat
//! completion says: its text, the tool calls it asks for and its counts.
//! The HTTP client stays at the edge.

use vstd::prelude::*;

use crate::services::channel_service::opt_view;
use crate::providers::openai_compatible::first_choice;
use crate::support::{
    json_array_items, json_array_items_of, json_value_array, json_value_array_of, json_object_members, json_object_members_of, json_parse_of, json_string_text,
    json_quoted, json_u64, json_u64_of, json_value_object, json_value_object_of, member_json, member_json_of,
    parse_json_text, string_member, string_member_of, string_pairs_view, texts_view, then_member, then_member_of, then_string,
    then_string_of,
};
use crate::text::{decimal, push_decimal, strip_leading, strip_trailing, trim_end_char, trim_start_char};

verus! {

/// The settings of an OpenAI provider.
#[derive(Debug, Clone, PartialEq, Eq)]
pub struct OpenAiProvider {
    pub name: String,
    pub api_key: Option<String>,
    pub base_url: String,
    pub models_path: String,
    pub chat_path: String,
}

/// A text, or the default when there is none.
pub open spec fn or_default(o: Option<Seq<char>>, d: Seq<char>) -> Seq<char> {
    match o {
        Some(s) => s,
        None => d,
    }
}

/// The address of `path` under `base`: the base without its trailing
/// slashes, a slash, and the path without its leading slashes.
pub open spec fn endpoint_text(base: Seq<char>, path: Seq<char>) -> Seq<char> {
    strip_trailing(base, '/') + "/"@ + strip_leading(path, '/')
}

fn or_default_text(o: Option<String>, d: &str) -> (r: String)
    ensures
        r@ == or_default(opt_view(o), d@),
{
    match o {
        Some(s) => s,
        None => String::from_str(d),
    }
}

impl OpenAiProvider {
    /// The provider named `openai`, with the default paths.
    pub fn new(api_key: Option<String>, base_url: Option<String>) -> (p: Self)
        ensures
            p.name@ == "openai"@,
            opt_view(p.api_key) == opt_view(api_key),
            p.base_url@ == or_default(opt_view(base_url), "https://api.openai.com/v1"@),
            p.models_path@ == "models"@,
            p.chat_path@ == "chat/completions"@,
    {
        Self::new_named(
            String::from_str("openai"),
            api_key,
            base_url,
            Some(String::from_str("models")),
            Some(String::from_str("chat/completions")),
        )
    }

    /// A provider with the given name; the base URL defaults to
    /// `https://api.openai.com/v1`, the paths to `models` and
    /// `chat/completions`.
    pub fn new_named(
        name: String,
        api_key: Option<String>,
        base_url: Option<String>,
        models_path: Option<String>,
        chat_path: Option<String>,
    ) -> (p: Self)
        ensures
            p.name@ == name@,
            opt_view(p.api_key) == opt_view(api_key),
            p.base_url@ == or_default(opt_view(base_url), "https://api.openai.com/v1"@),
            p.models_path@ == or_default(opt_view(models_path), "models"@),
            p.chat_path@ == or_default(opt_view(chat_path), "chat/completions"@),
    {
        OpenAiProvider {
            name,
            api_key,
            base_url: or_default_text(base_url, "https://api.openai.com/v1"),
            models_path: or_default_text(models_path, "models"),
            chat_path: or_default_text(chat_path, "chat/completions"),
        }
    }

    /// The address of `path` under the base URL.
    pub fn endpoint(&self, path: &str) -> (r: String)
        ensures
            r@ == endpoint_text(self.base_url@, path@),
    {
        let mut url = trim_end_char(self.base_url.as_str(), '/');
        url.append("/");
        let tail = trim_start_char(path, '/');
        url.append(tail.as_str());
        proof {
            reveal_strlit("/");
        }
        url
    }

    /// The key sent as a bearer token: the key, when it is not empty.
    pub fn bearer_key(&self) -> (r: Option<&str>)
        ensures
            match r {
                Some(k) => self.api_key matches Some(s) && k@ == s@ && s@.len() > 0,
                None => self.api_key matches Some(s) ==> s@.len() == 0,
            },
    {
        match &self.api_key {
            Some(k) => if k.as_str().unicode_len() > 0 {
                Some(k.as_str())
            } else {
                None
            },
            None => None,
        }
    }
}


/// A call of a tool that the model asks for: its id, the tool's name, and
/// the arguments as JSON text.
#[derive(Debug, Clone, PartialEq, Eq)]
pub struct ToolCall {
    pub id: String,
    pub name: String,
    pub arguments_json: String,
}

/// The token counts of a reply.
#[derive(Debug, Clone, Copy, PartialEq, Eq)]
pub struct TokenUsage {
    pub prompt_tokens: u32,
    pub completion_tokens: u32,
    pub total_tokens: u32,
}

/// A reply of an OpenAI chat completion: its text, the tool calls it asks
/// for (never an empty list), its counts and why it stopped.
#[derive(Debug, Clone, PartialEq, Eq)]
pub struct ChatReply {
    pub content: String,
    pub tool_calls: Option<Vec<ToolCall>>,
    pub usage: Option<TokenUsage>,
    pub finish_reason: Option<String>,
}

/// Why a chat completion gave no reply.
#[derive(Debug, Clone, PartialEq, Eq)]
pub enum ChatReplyError {
    /// The provider answered with a status outside 200..=299, and this body.
    Api { status: u16, body: String },
    /// The body is not JSON: the parser's message.
    Json(String),
    /// The body holds no reply.
    Other(String),
}

/// The text, or the empty text when there is none.
pub open spec fn or_empty(o: Option<Seq<char>>) -> Seq<char> {
    match o {
        Some(t) => t,
        None => Seq::empty(),
    }
}

/// The arguments of a tool call, from the JSON text of its `function`: a
/// string holding JSON gives that JSON; a string that does not gives
/// `{"raw": <the string>}`; any other value is kept; none gives `null`.
pub open spec fn arguments_text(function: Option<Seq<char>>) -> Seq<char> {
    match then_string(function, "arguments"@) {
        Some(t) => match json_parse_of(t) {
            Ok(c) => c,
            Err(_) => json_value_object_of(seq![("raw"@, json_quoted(t))]),
        },
        None => match then_member(function, "arguments"@) {
            Some(c) => c,
            None => "null"@,
        },
    }
}

/// Whether `c` is the tool call in the JSON text `call`: its `id`, the
/// `name` of its `function` (each empty when missing) and its arguments.
pub open spec fn is_tool_call(c: ToolCall, call: Seq<char>) -> bool {
    &&& c.id@ == or_empty(string_member(call, "id"@))
    &&& c.name@ == or_empty(then_string(member_json(call, "function"@), "name"@))
    &&& c.arguments_json@ == arguments_text(member_json(call, "function"@))
}

/// The count under `key` of the usage object `u`, zero when missing, cut
/// to 32 bits.
pub open spec fn usage_count(u: Seq<char>, key: Seq<char>) -> u32 {
    (match member_json(u, key) {
        Some(t) => match json_u64_of(t) {
            Some(n) => n,
            None => 0u64,
        },
        None => 0u64,
    }) as u32
}

/// Whether `r` is what the answer of an OpenAI chat completion comes to,
/// given its status and body: a status outside 200..=299 is an API error
/// with the body; a body that is not JSON fails with the parser's message;
/// a body without a first choice fails; else the reply of the first
/// choice's message, its tool calls, the body's usage and the reason.
pub open spec fn chat_reply_is(status: u16, body: Seq<char>, r: Result<ChatReply, ChatReplyError>) -> bool {
    if !(200 <= status && status <= 299) {
        r matches Err(ChatReplyError::Api { status: s, body: b }) && s == status && b@ == body
    } else {
        match json_parse_of(body) {
            Err(m) => r matches Err(ChatReplyError::Json(e)) && e@ == m,
            Ok(_) => match first_choice(body) {
                None => r matches Err(ChatReplyError::Other(e)) && e@ == "OpenAI response missing choices"@,
                Some(ch) => r matches Ok(reply) && {
                    let message = member_json(ch, "message"@);
                    &&& reply.content@ == or_empty(then_string(message, "content"@))
                    &&& opt_view(reply.finish_reason) == string_member(ch, "finish_reason"@)
                    &&& match then_member(message, "tool_calls"@) {
                        Some(t) => match json_array_items_of(t) {
                            Some(items) => if items.len() > 0 {
                                reply.tool_calls matches Some(calls) && calls@.len() == items.len() && forall|k: int|
                                    0 <= k < items.len() ==> #[trigger] is_tool_call(calls@[k], items[k])
                            } else {
                                reply.tool_calls is None
                            },
                            None => reply.tool_calls is None,
                        },
                        None => reply.tool_calls is None,
                    }
                    &&& match member_json(body, "usage"@) {
                        Some(u) => if json_object_members_of(u) is Some {
                            reply.usage == Some(
                                TokenUsage {
                                    prompt_tokens: usage_count(u, "prompt_tokens"@),
                                    completion_tokens: usage_count(u, "completion_tokens"@),
                                    total_tokens: usage_count(u, "total_tokens"@),
                                },
                            )
                        } else {
                            reply.usage is None
                        },
                        None => reply.usage is None,
                    }
                },
            },
        }
    }
}

fn text_or_empty(o: Option<String>) -> (r: String)
    ensures
        r@ == or_empty(opt_view(o)),
{
    match o {
        Some(t) => t,
        None => String::new(),
    }
}

fn arguments_of(function: &Option<String>) -> (r: String)
    ensures
        r@ == arguments_text(opt_view(*function)),
{
    match then_string_of(function, "arguments") {
        Some(t) => match parse_json_text(t.as_str()) {
            Ok(c) => c,
            Err(_) => {
                let pairs = vec![(String::from_str("raw"), json_string_text(t.as_str()))];
                proof {
                    assert(string_pairs_view(pairs@) =~= seq![("raw"@, json_quoted(t@))]);
                }
                json_value_object(pairs.as_slice())
            },
        },
        None => match then_member_of(function, "arguments") {
            Some(c) => c,
            None => String::from_str("null"),
        },
    }
}

fn tool_call_of(call: &str) -> (c: ToolCall)
    ensures
        is_tool_call(c, call@),
{
    let function = member_json_of(call, "function");
    ToolCall {
        id: text_or_empty(string_member_of(call, "id")),
        name: text_or_empty(then_string_of(&function, "name")),
        arguments_json: arguments_of(&function),
    }
}

fn usage_count_of(u: &str, key: &str) -> (n: u32)
    ensures
        n == usage_count(u@, key@),
{
    let v: u64 = match member_json_of(u, key) {
        Some(t) => match json_u64(t.as_str()) {
            Some(n) => n,
            None => 0,
        },
        None => 0,
    };
    v as u32
}

/// What the answer of an OpenAI chat completion comes to, from its status
/// and its body.
pub fn parse_openai_chat_reply(status: u16, body: &str) -> (r: Result<ChatReply, ChatReplyError>)
    ensures
        chat_reply_is(status, body@, r),
{
    if !(200 <= status && status <= 299) {
        return Err(ChatReplyError::Api { status, body: String::from_str(body) });
    }
    match parse_json_text(body) {
        Ok(_) => {},
        Err(m) => return Err(ChatReplyError::Json(m)),
    }
    let first = match member_json_of(body, "choices") {
        Some(c) => match json_array_items(c.as_str()) {
            Some(items) => if items.len() > 0 {
                Some(items[0].clone())
            } else {
                None
            },
            None => None,
        },
        None => None,
    };
    let choice = match first {
        Some(ch) => ch,
        None => return Err(ChatReplyError::Other(String::from_str("OpenAI response missing choices"))),
    };
    let message = member_json_of(choice.as_str(), "message");
    let content = text_or_empty(then_string_of(&message, "content"));
    let finish_reason = string_member_of(choice.as_str(), "finish_reason");
    let tool_calls = match then_member_of(&message, "tool_calls") {
        Some(t) => match json_array_items(t.as_str()) {
            Some(items) => {
                if items.len() > 0 {
                    let mut calls: Vec<ToolCall> = Vec::new();
                    let mut i: usize = 0;
                    while i < items.len()
                        invariant
                            i <= items@.len(),
                            calls@.len() == i,
                            forall|k: int| 0 <= k < i ==> #[trigger] is_tool_call(calls@[k], items@[k]@),
                        decreases items.len() - i,
                    {
                        calls.push(tool_call_of(items[i].as_str()));
                        i = i + 1;
                    }
                    proof {
                        assert(texts_view(items@).len() == items@.len());
                        assert forall|k: int| 0 <= k < items@.len() implies #[trigger] is_tool_call(calls@[k], texts_view(items@)[k]) by {
                            assert(texts_view(items@)[k] == items@[k]@);
                        }
                    }
                    Some(calls)
                } else {
                    None
                }
            },
            None => None,
        },
        None => None,
    };
    let usage = match member_json_of(body, "usage") {
        Some(u) => if json_object_members(u.as_str()).is_some() {
            Some(
                TokenUsage {
                    prompt_tokens: usage_count_of(u.as_str(), "prompt_tokens"),
                    completion_tokens: usage_count_of(u.as_str(), "completion_tokens"),
                    total_tokens: usage_count_of(u.as_str(), "total_tokens"),
                },
            )
        } else {
            None
        },
        None => None,
    };
    Ok(ChatReply { content, tool_calls, usage, finish_reason })
}


/// A message of a chat request: its role and its text.
#[derive(Debug, Clone, PartialEq, Eq)]
pub struct ChatMessage {
    pub role: String,
    pub content: String,
}

/// The sampling settings of a chat request, each as the JSON text of its
/// number when it is set.
#[derive(Debug, Clone, PartialEq, Eq)]
pub struct ChatParams {
    pub temperature_json: Option<String>,
    pub top_p_json: Option<String>,
    pub max_tokens: Option<u32>,
}

/// The JSON text of a request message: `{"role": ..., "content": ...}`.
pub open spec fn chat_message_json(role: Seq<char>, content: Seq<char>) -> Seq<char> {
    json_value_object_of(seq![("role"@, json_quoted(role)), ("content"@, json_quoted(content))])
}

/// The request messages: the system prompt first when there is one, then
/// the messages in order.
pub open spec fn mapped_messages(system_prompt: Option<Seq<char>>, messages: Seq<ChatMessage>) -> Seq<Seq<char>> {
    let rest = messages.map_values(|m: ChatMessage| chat_message_json(m.role@, m.content@));
    match system_prompt {
        Some(p) => seq![chat_message_json("system"@, p)] + rest,
        None => rest,
    }
}

fn chat_message_json_of(role: &str, content: &str) -> (r: String)
    ensures
        r@ == chat_message_json(role@, content@),
{
    let pairs = vec![(String::from_str("role"), json_string_text(role)), (String::from_str("content"), json_string_text(content))];
    proof {
        assert(string_pairs_view(pairs@) =~= seq![("role"@, json_quoted(role@)), ("content"@, json_quoted(content@))]);
    }
    json_value_object(pairs.as_slice())
}

impl OpenAiProvider {
    /// The request messages, as JSON texts: the system prompt first when
    /// there is one, then the messages in order.
    pub fn map_messages(&self, system_prompt: Option<&str>, messages: &[ChatMessage]) -> (r: Vec<String>)
        ensures
            texts_view(r@) == mapped_messages(
                match system_prompt {
                    Some(p) => Some(p@),
                    None => None,
                },
                messages@,
            ),
    {
        let mut items: Vec<String> = Vec::new();
        match system_prompt {
            Some(p) => {
                items.push(chat_message_json_of("system", p));
            },
            None => {},
        }
        let ghost head = texts_view(items@);
        let mut i: usize = 0;
        while i < messages.len()
            invariant
                i <= messages@.len(),
                texts_view(items@) == head + messages@.take(i as int).map_values(
                    |m: ChatMessage| chat_message_json(m.role@, m.content@),
                ),
            decreases messages.len() - i,
        {
            let ghost prev = texts_view(items@);
            let item = chat_message_json_of(messages[i].role.as_str(), messages[i].content.as_str());
            let ghost it = item@;
            items.push(item);
            proof {
                assert(texts_view(items@) =~= prev.push(it));
                assert(messages@.take(i + 1 as int).map_values(|m: ChatMessage| chat_message_json(m.role@, m.content@))
                    =~= messages@.take(i as int).map_values(|m: ChatMessage| chat_message_json(m.role@, m.content@)).push(
                    chat_message_json(messages@[i as int].role@, messages@[i as int].content@),
                ));
            }
            i = i + 1;
        }
        proof {
            assert(messages@.take(messages@.len() as int) =~= messages@);
        }
        items
    }
}

/// The members of the body of a chat completion request, as (key, JSON
/// text): the model, the messages and `stream: false`, then each sampling
/// setting that is set.
pub open spec fn chat_payload_pairs(model: Seq<char>, messages: Seq<Seq<char>>, params: ChatParams) -> Seq<(Seq<char>, Seq<char>)> {
    let base = seq![
        ("model"@, json_quoted(model)),
        ("messages"@, json_value_array_of(messages)),
        ("stream"@, "false"@),
    ];
    let t = match params.temperature_json {
        Some(v) => base.push(("temperature"@, v@)),
        None => base,
    };
    let p = match params.top_p_json {
        Some(v) => t.push(("top_p"@, v@)),
        None => t,
    };
    match params.max_tokens {
        Some(n) => p.push(("max_tokens"@, decimal(n as nat))),
        None => p,
    }
}

/// The body of a chat completion request, as JSON text.
pub fn chat_payload(model: &str, messages: &[String], params: &ChatParams) -> (r: String)
    ensures
        r@ == json_value_object_of(chat_payload_pairs(model@, texts_view(messages@), *params)),
{
    let mut pairs: Vec<(String, String)> = vec![
        (String::from_str("model"), json_string_text(model)),
        (String::from_str("messages"), json_value_array(messages)),
        (String::from_str("stream"), String::from_str("false")),
    ];
    proof {
        assert(string_pairs_view(pairs@) =~= seq![
            ("model"@, json_quoted(model@)),
            ("messages"@, json_value_array_of(texts_view(messages@))),
            ("stream"@, "false"@),
        ]);
    }
    match &params.temperature_json {
        Some(v) => {
            let ghost prev = string_pairs_view(pairs@);
            pairs.push((String::from_str("temperature"), v.clone()));
            proof {
                assert(string_pairs_view(pairs@) =~= prev.push(("temperature"@, v@)));
            }
        },
        None => {},
    }
    match &params.top_p_json {
        Some(v) => {
            let ghost prev = string_pairs_view(pairs@);
            pairs.push((String::from_str("top_p"), v.clone()));
            proof {
                assert(string_pairs_view(pairs@) =~= prev.push(("top_p"@, v@)));
            }
        },
        None => {},
    }
    match params.max_tokens {
        Some(n) => {
            let ghost prev = string_pairs_view(pairs@);
            let mut text = String::new();
            push_decimal(&mut text, n as u64);
            proof {
                assert(text@ =~= decimal(n as nat));
            }
            pairs.push((String::from_str("max_tokens"), text));
            proof {
                assert(string_pairs_view(pairs@) =~= prev.push(("max_tokens"@, decimal(n as nat))));
            }
        },
        None => {},
    }
    json_value_object(pairs.as_slice())
}

} // verus!
