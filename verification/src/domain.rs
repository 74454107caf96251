//! The content and message vocabulary shared by the providers and the
//! generation pipeline: content types, message roles, stored content and the
//! parts of a provider message. JSON documents are carried as their text.

use vstd::prelude::*;

use crate::text::str_eq;

verus! {

/// The kind of a piece of content.
#[derive(Debug, Clone, Copy, PartialEq, Eq, Structural)]
pub enum ContentType {
    Text,
    Markdown,
    Html,
    Image,
    Audio,
    Video,
    File,
    Binary,
    Json,
    ToolRequest,
    ToolResponse,
    RagExcerpt,
    McpPayload,
    PluginPayload,
    PluginState,
    ReasoningTrace,
    ProviderSignature,
}

/// The stored name of a content type.
pub open spec fn contenttype_name(t: ContentType) -> Seq<char> {
    match t {
        ContentType::Text => "text"@,
        ContentType::Markdown => "markdown"@,
        ContentType::Html => "html"@,
        ContentType::Image => "image"@,
        ContentType::Audio => "audio"@,
        ContentType::Video => "video"@,
        ContentType::File => "file"@,
        ContentType::Binary => "binary"@,
        ContentType::Json => "json"@,
        ContentType::ToolRequest => "tool_request"@,
        ContentType::ToolResponse => "tool_response"@,
        ContentType::RagExcerpt => "rag_excerpt"@,
        ContentType::McpPayload => "mcp_payload"@,
        ContentType::PluginPayload => "plugin_payload"@,
        ContentType::PluginState => "plugin_state"@,
        ContentType::ReasoningTrace => "reasoning_trace"@,
        ContentType::ProviderSignature => "provider_signature"@,
    }
}

impl ContentType {
    /// The stored name.
    pub fn as_str(&self) -> (r: &'static str)
        ensures
            r@ == contenttype_name(*self),
    {
        match self {
            ContentType::Text => "text",
            ContentType::Markdown => "markdown",
            ContentType::Html => "html",
            ContentType::Image => "image",
            ContentType::Audio => "audio",
            ContentType::Video => "video",
            ContentType::File => "file",
            ContentType::Binary => "binary",
            ContentType::Json => "json",
            ContentType::ToolRequest => "tool_request",
            ContentType::ToolResponse => "tool_response",
            ContentType::RagExcerpt => "rag_excerpt",
            ContentType::McpPayload => "mcp_payload",
            ContentType::PluginPayload => "plugin_payload",
            ContentType::PluginState => "plugin_state",
            ContentType::ReasoningTrace => "reasoning_trace",
            ContentType::ProviderSignature => "provider_signature",
        }
    }

    /// The content type with the stored name `value`, if any.
    pub fn parse(value: &str) -> (r: Option<ContentType>)
        ensures
            match r {
                Some(t) => contenttype_name(t) == value@,
                None => forall|t: ContentType| contenttype_name(t) != value@,
            },
    {
        proof {
            reveal_strlit("text");
            reveal_strlit("markdown");
            reveal_strlit("html");
            reveal_strlit("image");
            reveal_strlit("audio");
            reveal_strlit("video");
            reveal_strlit("file");
            reveal_strlit("binary");
            reveal_strlit("json");
            reveal_strlit("tool_request");
            reveal_strlit("tool_response");
            reveal_strlit("rag_excerpt");
            reveal_strlit("mcp_payload");
            reveal_strlit("plugin_payload");
            reveal_strlit("plugin_state");
            reveal_strlit("reasoning_trace");
            reveal_strlit("provider_signature");
        }
        if str_eq(value, "text") {
            return Some(ContentType::Text);
        }
        if str_eq(value, "markdown") {
            return Some(ContentType::Markdown);
        }
        if str_eq(value, "html") {
            return Some(ContentType::Html);
        }
        if str_eq(value, "image") {
            return Some(ContentType::Image);
        }
        if str_eq(value, "audio") {
            return Some(ContentType::Audio);
        }
        if str_eq(value, "video") {
            return Some(ContentType::Video);
        }
        if str_eq(value, "file") {
            return Some(ContentType::File);
        }
        if str_eq(value, "binary") {
            return Some(ContentType::Binary);
        }
        if str_eq(value, "json") {
            return Some(ContentType::Json);
        }
        if str_eq(value, "tool_request") {
            return Some(ContentType::ToolRequest);
        }
        if str_eq(value, "tool_response") {
            return Some(ContentType::ToolResponse);
        }
        if str_eq(value, "rag_excerpt") {
            return Some(ContentType::RagExcerpt);
        }
        if str_eq(value, "mcp_payload") {
            return Some(ContentType::McpPayload);
        }
        if str_eq(value, "plugin_payload") {
            return Some(ContentType::PluginPayload);
        }
        if str_eq(value, "plugin_state") {
            return Some(ContentType::PluginState);
        }
        if str_eq(value, "reasoning_trace") {
            return Some(ContentType::ReasoningTrace);
        }
        if str_eq(value, "provider_signature") {
            return Some(ContentType::ProviderSignature);
        }
        assert forall|t: ContentType| contenttype_name(t) != value@ by {
            match t {
                ContentType::Text => {},
                ContentType::Markdown => {},
                ContentType::Html => {},
                ContentType::Image => {},
                ContentType::Audio => {},
                ContentType::Video => {},
                ContentType::File => {},
                ContentType::Binary => {},
                ContentType::Json => {},
                ContentType::ToolRequest => {},
                ContentType::ToolResponse => {},
                ContentType::RagExcerpt => {},
                ContentType::McpPayload => {},
                ContentType::PluginPayload => {},
                ContentType::PluginState => {},
                ContentType::ReasoningTrace => {},
                ContentType::ProviderSignature => {},
            }
        }
        None
    }
}

/// The role of a message in a prompt.
#[derive(Debug, Clone, Copy, PartialEq, Eq, Structural)]
pub enum MessageRole {
    System,
    User,
    Assistant,
    Tool,
}

/// The stored name of a message role.
pub open spec fn messagerole_name(t: MessageRole) -> Seq<char> {
    match t {
        MessageRole::System => "system"@,
        MessageRole::User => "user"@,
        MessageRole::Assistant => "assistant"@,
        MessageRole::Tool => "tool"@,
    }
}

impl MessageRole {
    /// The stored name.
    pub fn as_str(&self) -> (r: &'static str)
        ensures
            r@ == messagerole_name(*self),
    {
        match self {
            MessageRole::System => "system",
            MessageRole::User => "user",
            MessageRole::Assistant => "assistant",
            MessageRole::Tool => "tool",
        }
    }

    /// The message role with the stored name `value`, if any.
    pub fn parse(value: &str) -> (r: Option<MessageRole>)
        ensures
            match r {
                Some(t) => messagerole_name(t) == value@,
                None => forall|t: MessageRole| messagerole_name(t) != value@,
            },
    {
        proof {
            reveal_strlit("system");
            reveal_strlit("user");
            reveal_strlit("assistant");
            reveal_strlit("tool");
        }
        if str_eq(value, "system") {
            return Some(MessageRole::System);
        }
        if str_eq(value, "user") {
            return Some(MessageRole::User);
        }
        if str_eq(value, "assistant") {
            return Some(MessageRole::Assistant);
        }
        if str_eq(value, "tool") {
            return Some(MessageRole::Tool);
        }
        assert forall|t: MessageRole| messagerole_name(t) != value@ by {
            match t {
                MessageRole::System => {},
                MessageRole::User => {},
                MessageRole::Assistant => {},
                MessageRole::Tool => {},
            }
        }
        None
    }
}

/// A piece of content as stored.
#[derive(Debug, Clone, PartialEq, Eq)]
pub struct StoredContent {
    /// Content id.
    pub content_id: String,
    /// Kind of content.
    pub content_type: ContentType,
    /// MIME type, if known.
    pub mime_type: Option<String>,
    /// Size in bytes.
    pub size_bytes: u64,
    /// The text, for textual content kept inline.
    pub text_content: Option<String>,
    /// A short preview of the text.
    pub preview_text: Option<String>,
    /// Where the bytes are kept, for content not kept inline.
    pub primary_storage_uri: Option<String>,
    /// Extra settings, a JSON document.
    pub config_json: String,
}

/// The kind of a part of a provider message.
#[derive(Debug, Clone, Copy, PartialEq, Eq, Structural)]
pub enum ProviderMessagePartKind {
    Text,
    ImageRef,
    AudioRef,
    VideoRef,
    FileRef,
    JsonPayload,
    ToolRequest,
    ToolResponse,
    RagExcerpt,
    McpPayload,
    PluginPayload,
    ReasoningTrace,
    ProviderSignature,
}

/// A part of a message sent to or received from a provider.
#[derive(Debug, Clone, PartialEq, Eq)]
pub struct ProviderMessagePart {
    /// Kind of part.
    pub kind: ProviderMessagePartKind,
    /// Its text, if it has one.
    pub text: Option<String>,
    /// The stored content it refers to, if any.
    pub content: Option<StoredContent>,
    /// Extra data, a JSON document.
    pub metadata_json: String,
}

/// What it takes to store a new piece of content.
#[derive(Debug, Clone, PartialEq, Eq)]
pub struct ContentWriteInput {
    /// Kind of content.
    pub content_type: ContentType,
    /// MIME type, if known.
    pub mime_type: Option<String>,
    /// The text, for textual content.
    pub text_content: Option<String>,
    /// A file to import, for binary content.
    pub source_file_path: Option<String>,
    /// Where the bytes already are, if anywhere.
    pub primary_storage_uri: Option<String>,
    /// The size, when known in advance.
    pub size_bytes_hint: Option<u64>,
    /// A short preview of the text.
    pub preview_text: Option<String>,
    /// Extra settings, a JSON document.
    pub config_json: String,
}

/// A provider's answer to a chat request.
#[derive(Debug, Clone, PartialEq, Eq)]
pub struct ProviderChatResponse {
    /// The parts of the reply.
    pub parts: Vec<ProviderMessagePart>,
    /// Why generation stopped.
    pub finish_reason: Option<String>,
    /// Tokens of the prompt.
    pub prompt_tokens: Option<i64>,
    /// Tokens of the reply.
    pub completion_tokens: Option<i64>,
    /// Tokens in all.
    pub total_tokens: Option<i64>,
    /// The raw response, a JSON document.
    pub raw_response_json: Option<String>,
}

/// What a provider reports while a reply streams in.
#[derive(Debug, Clone)]
pub enum ProviderChatEvent {
    /// New parts of the reply.
    Delta {
        /// The parts.
        parts: Vec<ProviderMessagePart>,
        /// The raw event, a JSON document.
        raw_event_json: Option<String>,
    },
    /// The end of the reply, with what the provider counted.
    Finished {
        /// Why generation stopped.
        finish_reason: Option<String>,
        /// Tokens of the prompt.
        prompt_tokens: Option<i64>,
        /// Tokens of the reply.
        completion_tokens: Option<i64>,
        /// Tokens in all.
        total_tokens: Option<i64>,
        /// The raw event, a JSON document.
        raw_event_json: Option<String>,
    },
}

/// The kind of an event sent to the listener of a streamed generation.
#[derive(Debug, Clone, Copy, PartialEq, Eq, Structural)]
pub enum GenerationStreamEventKind {
    Started,
    Delta,
    Completed,
    Failed,
}

/// An event sent to the listener of a streamed generation.
#[derive(Debug, Clone)]
pub struct GenerationStreamEvent {
    /// The stream the event belongs to.
    pub stream_id: String,
    /// What happened.
    pub kind: GenerationStreamEventKind,
    /// The text that just came in.
    pub delta_text: Option<String>,
    /// All the text so far.
    pub accumulated_text: Option<String>,
    /// The stored version, once there is one.
    pub message_version_id: Option<String>,
    /// Why generation stopped.
    pub finish_reason: Option<String>,
    /// Tokens of the prompt.
    pub prompt_tokens: Option<i64>,
    /// Tokens of the reply.
    pub completion_tokens: Option<i64>,
    /// Tokens in all.
    pub total_tokens: Option<i64>,
    /// What went wrong.
    pub error_text: Option<String>,
}

/// A provider channel as the generation pipeline uses it.
#[derive(Debug, Clone, PartialEq, Eq)]
pub struct ApiChannel {
    pub id: String,
    pub name: String,
    pub channel_type: String,
    pub base_url: String,
    pub auth_type: String,
    pub api_key: Option<String>,
    pub models_endpoint: Option<String>,
    pub chat_endpoint: Option<String>,
    pub stream_endpoint: Option<String>,
    pub models_mode: String,
    pub enabled: bool,
    pub sort_order: i64,
    /// Extra settings, a JSON document.
    pub config_json: String,
    pub created_at: i64,
    pub updated_at: i64,
}

/// A model of a provider channel as the generation pipeline uses it.
#[derive(Debug, Clone, PartialEq, Eq)]
pub struct ApiChannelModel {
    pub id: String,
    pub channel_id: String,
    pub model_id: String,
    pub display_name: Option<String>,
    pub model_type: Option<String>,
    pub context_window: Option<i64>,
    pub max_output_tokens: Option<i64>,
    /// What the model can do, a JSON document.
    pub capabilities_json: String,
    /// Its prices, a JSON document.
    pub pricing_json: String,
    /// Its default request parameters, a JSON document.
    pub default_parameters_json: String,
    pub sort_order: i64,
    /// Extra settings, a JSON document.
    pub config_json: String,
}

/// One message of a request to a provider.
#[derive(Debug, Clone, PartialEq, Eq)]
pub struct ProviderChatMessage {
    pub role: MessageRole,
    pub name: Option<String>,
    pub parts: Vec<ProviderMessagePart>,
    /// Extra data, a JSON document.
    pub metadata_json: String,
}

/// A chat request to a provider.
#[derive(Debug, Clone, PartialEq, Eq)]
pub struct ProviderChatRequest {
    pub api_channel: ApiChannel,
    pub api_channel_model: ApiChannelModel,
    /// Request parameters, a JSON document.
    pub request_parameters_json: String,
    pub messages: Vec<ProviderChatMessage>,
}

/// A copy of an optional string.
pub fn copy_opt(o: &Option<String>) -> (r: Option<String>)
    ensures
        r == *o,
{
    match o {
        Some(s) => Some(s.clone()),
        None => None,
    }
}

impl StoredContent {
    /// A copy of the content record.
    pub fn duplicate(&self) -> (r: Self)
        ensures
            r == *self,
    {
        StoredContent {
            content_id: self.content_id.clone(),
            content_type: self.content_type,
            mime_type: copy_opt(&self.mime_type),
            size_bytes: self.size_bytes,
            text_content: copy_opt(&self.text_content),
            preview_text: copy_opt(&self.preview_text),
            primary_storage_uri: copy_opt(&self.primary_storage_uri),
            config_json: self.config_json.clone(),
        }
    }
}

impl ProviderMessagePart {
    /// A copy of the part.
    pub fn duplicate(&self) -> (r: Self)
        ensures
            r == *self,
    {
        let content = match &self.content {
            Some(c) => Some(c.duplicate()),
            None => None,
        };
        ProviderMessagePart {
            kind: self.kind,
            text: copy_opt(&self.text),
            content,
            metadata_json: self.metadata_json.clone(),
        }
    }
}

/// A copy of a list of parts.
pub fn duplicate_parts(parts: &[ProviderMessagePart]) -> (r: Vec<ProviderMessagePart>)
    ensures
        r@ == parts@,
{
    let mut r: Vec<ProviderMessagePart> = Vec::new();
    let mut i: usize = 0;
    while i < parts.len()
        invariant
            i <= parts@.len(),
            r@ == parts@.take(i as int),
        decreases parts.len() - i,
    {
        r.push(parts[i].duplicate());
        i = i + 1;
        assert(r@ =~= parts@.take(i as int));
    }
    assert(parts@.take(parts@.len() as int) =~= parts@);
    r
}

impl ApiChannel {
    /// A copy of the channel record.
    pub fn duplicate(&self) -> (r: Self)
        ensures
            r == *self,
    {
        ApiChannel {
            id: self.id.clone(),
            name: self.name.clone(),
            channel_type: self.channel_type.clone(),
            base_url: self.base_url.clone(),
            auth_type: self.auth_type.clone(),
            api_key: copy_opt(&self.api_key),
            models_endpoint: copy_opt(&self.models_endpoint),
            chat_endpoint: copy_opt(&self.chat_endpoint),
            stream_endpoint: copy_opt(&self.stream_endpoint),
            models_mode: self.models_mode.clone(),
            enabled: self.enabled,
            sort_order: self.sort_order,
            config_json: self.config_json.clone(),
            created_at: self.created_at,
            updated_at: self.updated_at,
        }
    }
}

impl ApiChannelModel {
    /// A copy of the model record.
    pub fn duplicate(&self) -> (r: Self)
        ensures
            r == *self,
    {
        ApiChannelModel {
            id: self.id.clone(),
            channel_id: self.channel_id.clone(),
            model_id: self.model_id.clone(),
            display_name: copy_opt(&self.display_name),
            model_type: copy_opt(&self.model_type),
            context_window: self.context_window,
            max_output_tokens: self.max_output_tokens,
            capabilities_json: self.capabilities_json.clone(),
            pricing_json: self.pricing_json.clone(),
            default_parameters_json: self.default_parameters_json.clone(),
            sort_order: self.sort_order,
            config_json: self.config_json.clone(),
        }
    }
}

/// Whether a message version goes into the context of a generation.
#[derive(Debug, Clone, Copy, PartialEq, Eq, Structural)]
pub enum ContextPolicy {
    /// It goes in whole.
    Full,
    /// It is left out.
    Exclude,
}

/// A copy of an optional content record.
pub fn copy_content_opt(o: &Option<StoredContent>) -> (r: Option<StoredContent>)
    ensures
        r == *o,
{
    match o {
        Some(c) => Some(c.duplicate()),
        None => None,
    }
}

/// An agent as the assembly of a context reads it: its prompt slots.
#[derive(Debug, Clone, PartialEq, Eq)]
pub struct AgentDetail {
    pub id: String,
    pub main_prompt_override_content: Option<StoredContent>,
    pub description_content: Option<StoredContent>,
    pub personality_content: Option<StoredContent>,
    pub scenario_content: Option<StoredContent>,
    pub character_note_content: Option<StoredContent>,
    pub post_history_instructions_content: Option<StoredContent>,
    /// The role its character note is sent under, if not the system's.
    pub character_note_role: Option<MessageRole>,
}

impl AgentDetail {
    /// A copy of the agent.
    pub fn duplicate(&self) -> (r: Self)
        ensures
            r == *self,
    {
        AgentDetail {
            id: self.id.clone(),
            main_prompt_override_content: copy_content_opt(&self.main_prompt_override_content),
            description_content: copy_content_opt(&self.description_content),
            personality_content: copy_content_opt(&self.personality_content),
            scenario_content: copy_content_opt(&self.scenario_content),
            character_note_content: copy_content_opt(&self.character_note_content),
            post_history_instructions_content: copy_content_opt(&self.post_history_instructions_content),
            character_note_role: self.character_note_role,
        }
    }
}

/// A user profile as the assembly of a context reads it.
#[derive(Debug, Clone, PartialEq, Eq)]
pub struct UserProfileDetail {
    pub id: String,
    pub description_content: Option<StoredContent>,
    /// The role its description is sent under, if not the system's.
    pub injection_role: Option<MessageRole>,
}

impl UserProfileDetail {
    /// A copy of the profile.
    pub fn duplicate(&self) -> (r: Self)
        ensures
            r == *self,
    {
        UserProfileDetail {
            id: self.id.clone(),
            description_content: copy_content_opt(&self.description_content),
            injection_role: self.injection_role,
        }
    }
}

/// An entry of a preset.
#[derive(Debug, Clone, PartialEq, Eq)]
pub struct PresetEntryDetail {
    pub id: String,
    pub role: MessageRole,
    pub enabled: bool,
    pub primary_content: StoredContent,
}

impl PresetEntryDetail {
    /// A copy of the entry.
    pub fn duplicate(&self) -> (r: Self)
        ensures
            r == *self,
    {
        PresetEntryDetail {
            id: self.id.clone(),
            role: self.role,
            enabled: self.enabled,
            primary_content: self.primary_content.duplicate(),
        }
    }
}

/// A preset and its entries, in order.
#[derive(Debug, Clone, PartialEq, Eq)]
pub struct PresetDetail {
    pub id: String,
    pub entries: Vec<PresetEntryDetail>,
}

/// A lorebook entry that the recent messages activated.
#[derive(Debug, Clone, PartialEq, Eq)]
pub struct MatchedLorebookEntry {
    pub lorebook_entry_id: String,
    pub matched_keys: Vec<String>,
    pub content: StoredContent,
    /// Extra settings, a JSON document.
    pub config_json: String,
}

/// The summary that stands in for a message version in a context.
#[derive(Debug, Clone, PartialEq, Eq)]
pub struct ContextSummary {
    pub summary_version_id: String,
    pub content: StoredContent,
}

} // verus!
