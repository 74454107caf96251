//! The assembly of a generation context: which binding supplies a preset,
//! lorebook, user profile or channel, the materials a context is made of
//! and in what order, the item each material yields, which content
//! references of a message travel with it and under which source, the text
//! a message is matched by, and the request parameters of a run.

use vstd::prelude::*;

use crate::domain::{
    copy_content_opt, copy_opt, messagerole_name, AgentDetail, ContentType, ContextPolicy, ContextSummary,
    MatchedLorebookEntry, MessageRole, PresetDetail, PresetEntryDetail, StoredContent, UserProfileDetail,
};
use crate::support::{
    json_object_members, json_object_members_of, json_string_object, json_string_object_of, json_value_object,
    json_value_object_of, string_member, string_member_of, string_pairs_view, JsonMember, MemberText, members_view,
};
use crate::providers::common::{put_header, put_header_spec};
use crate::services::channel_service::opt_view;
use crate::services::summaries::{str_opt_view, MessageVersionView};
use crate::error::{fails_validation, AppError};
use crate::text::{concat3, str_eq};

verus! {

/// A content reference of a message: the content and the role it plays.
#[derive(Debug, Clone, PartialEq, Eq)]
pub struct MessageContentRefView {
    pub id: String,
    pub ref_role: String,
    /// The plugin that produced it, if any.
    pub plugin_id: Option<String>,
    pub sort_order: i64,
    pub content: StoredContent,
    pub config_json: String,
}

/// Whether content of this type travels with the message it is attached to:
/// anything that is not plain text, Markdown, HTML or JSON.
pub open spec fn is_attached_type(t: ContentType) -> bool {
    !(t == ContentType::Text || t == ContentType::Markdown || t == ContentType::Html || t
        == ContentType::Json)
}

/// Whether a reference with this role travels with its message.
pub open spec fn is_attached_role(role: Seq<char>) -> bool {
    ||| role == "attachment"@
    ||| role == "image"@
    ||| role == "audio"@
    ||| role == "video"@
    ||| role == "file"@
    ||| role == "binary"@
    ||| role == "tool_request"@
    ||| role == "tool_response"@
    ||| role == "rag_excerpt"@
    ||| role == "mcp_payload"@
    ||| role == "plugin_payload"@
    ||| role == "plugin_state"@
    ||| role == "reasoning_trace"@
    ||| role == "provider_signature"@
}

/// Whether a content reference of a message goes into the context with it:
/// by the type of its content or by its role.
pub fn should_include_message_ref_in_context(item: &MessageContentRefView) -> (r: bool)
    ensures
        r == (is_attached_type(item.content.content_type) || is_attached_role(item.ref_role@)),
{
    let by_type = match item.content.content_type {
        ContentType::Text | ContentType::Markdown | ContentType::Html | ContentType::Json => false,
        _ => true,
    };
    if by_type {
        return true;
    }
    let role = item.ref_role.as_str();
    str_eq(role, "attachment") || str_eq(role, "image") || str_eq(role, "audio") || str_eq(role, "video")
        || str_eq(role, "file") || str_eq(role, "binary") || str_eq(role, "tool_request") || str_eq(
        role,
        "tool_response",
    ) || str_eq(role, "rag_excerpt") || str_eq(role, "mcp_payload") || str_eq(role, "plugin_payload")
        || str_eq(role, "plugin_state") || str_eq(role, "reasoning_trace") || str_eq(role, "provider_signature")
}

/// The text a message is matched by: its text, else its preview.
pub fn extract_match_text(message: &MessageVersionView) -> (r: Option<String>)
    ensures
        opt_view(r) == match message.primary_content.text_content {
            Some(t) => Some(t@),
            None => opt_view(message.primary_content.preview_text),
        },
{
    match &message.primary_content.text_content {
        Some(t) => Some(t.clone()),
        None => match &message.primary_content.preview_text {
            Some(p) => Some(p.clone()),
            None => None,
        },
    }
}

/// The elements of an optional slice.
pub open spec fn slice_view<T>(o: Option<&[T]>) -> Option<Seq<T>> {
    match o {
        Some(a) => Some(a@),
        None => None,
    }
}

/// A binding of a resource (a preset, lorebook, user profile or channel) to
/// a conversation or to an agent.
#[derive(Debug, Clone, PartialEq, Eq)]
pub struct ResourceBinding {
    /// The bound resource.
    pub resource_id: String,
    /// `active` for a conversation's binding, `default` for an agent's.
    pub binding_type: String,
    /// Whether the binding is switched on.
    pub enabled: bool,
}

/// Whether a binding is switched on and of the given type.
pub open spec fn binding_applies(b: ResourceBinding, binding_type: Seq<char>) -> bool {
    b.enabled && b.binding_type@ == binding_type
}

/// The position of the first binding that is switched on and of the given type.
pub open spec fn first_applying(bindings: Seq<ResourceBinding>, binding_type: Seq<char>) -> Option<int>
    decreases bindings.len(),
{
    if bindings.len() == 0 {
        None
    } else {
        match first_applying(bindings.drop_last(), binding_type) {
            Some(i) => Some(i),
            None => if binding_applies(bindings.last(), binding_type) {
                Some(bindings.len() - 1)
            } else {
                None
            },
        }
    }
}

/// The first binding that is switched on and of the given type.
pub fn find_binding(bindings: &[ResourceBinding], binding_type: &str) -> (r: Option<usize>)
    ensures
        match r {
            Some(i) => i < bindings@.len() && first_applying(bindings@, binding_type@) == Some(i as int),
            None => first_applying(bindings@, binding_type@) is None,
        },
{
    let mut i: usize = 0;
    while i < bindings.len()
        invariant
            i <= bindings@.len(),
            first_applying(bindings@.take(i as int), binding_type@) is None,
        decreases bindings.len() - i,
    {
        assert(bindings@.take(i + 1 as int).drop_last() =~= bindings@.take(i as int));
        if bindings[i].enabled && str_eq(bindings[i].binding_type.as_str(), binding_type) {
            proof {
                lemma_first_applying_prefix(bindings@, binding_type@, i as int + 1);
            }
            return Some(i);
        }
        i = i + 1;
    }
    assert(bindings@.take(bindings@.len() as int) =~= bindings@);
    None
}

proof fn lemma_first_applying_prefix(bindings: Seq<ResourceBinding>, binding_type: Seq<char>, n: int)
    requires
        0 <= n <= bindings.len(),
        first_applying(bindings.take(n), binding_type) is Some,
    ensures
        first_applying(bindings, binding_type) == first_applying(bindings.take(n), binding_type),
    decreases bindings.len() - n,
{
    if n < bindings.len() {
        assert(bindings.take(n + 1).drop_last() =~= bindings.take(n));
        lemma_first_applying_prefix(bindings, binding_type, n + 1);
    } else {
        assert(bindings.take(n) =~= bindings);
    }
}

/// Where the resource of a generation comes from: the conversation's active
/// binding first, else the responding agent's default binding.
pub open spec fn resolved_binding(conversation: Seq<ResourceBinding>, agent: Option<Seq<ResourceBinding>>) -> Option<(Seq<char>, Seq<char>)> {
    match first_applying(conversation, "active"@) {
        Some(i) => Some((conversation[i].resource_id@, "conversation"@)),
        None => match agent {
            Some(a) => match first_applying(a, "default"@) {
                Some(j) => Some((a[j].resource_id@, "agent"@)),
                None => None,
            },
            None => None,
        },
    }
}

/// The resource to use and the scope it came from (`conversation` or
/// `agent`), given the conversation's bindings and, when the responder is
/// an agent, the agent's bindings; `None` when nothing applies.
pub fn resolve_binding(conversation: &[ResourceBinding], agent: Option<&[ResourceBinding]>) -> (r: Option<(String, String)>)
    ensures
        match r {
            Some(p) => resolved_binding(conversation@, slice_view(agent)) == Some((p.0@, p.1@)),
            None => resolved_binding(conversation@, slice_view(agent)) is None,
        },
{
    match find_binding(conversation, "active") {
        Some(i) => Some((conversation[i].resource_id.clone(), String::from_str("conversation"))),
        None => match agent {
            Some(a) => match find_binding(a, "default") {
                Some(j) => Some((a[j].resource_id.clone(), String::from_str("agent"))),
                None => None,
            },
            None => None,
        },
    }
}

/// The source recorded for a content reference that goes into the context:
/// by its role first, else by the type of its content.
pub open spec fn ref_source_kind_spec(ref_role: Seq<char>, t: ContentType) -> Seq<char> {
    if ref_role == "tool_request"@ || ref_role == "tool_response"@ {
        "tool_invocation"@
    } else if ref_role == "rag_excerpt"@ {
        "rag_ref"@
    } else if ref_role == "mcp_payload"@ {
        "mcp_event"@
    } else if ref_role == "plugin_payload"@ || ref_role == "plugin_state"@ {
        "plugin_content"@
    } else if ref_role == "reasoning_trace"@ {
        "reasoning_trace"@
    } else if ref_role == "provider_signature"@ {
        "provider_signature"@
    } else {
        match t {
            ContentType::ToolRequest | ContentType::ToolResponse => "tool_invocation"@,
            ContentType::RagExcerpt => "rag_ref"@,
            ContentType::McpPayload => "mcp_event"@,
            ContentType::PluginPayload | ContentType::PluginState => "plugin_content"@,
            ContentType::ReasoningTrace => "reasoning_trace"@,
            ContentType::ProviderSignature => "provider_signature"@,
            _ => "message_ref"@,
        }
    }
}

/// The source recorded for a content reference that goes into the context.
pub fn ref_source_kind(ref_role: &str, content_type: ContentType) -> (r: String)
    ensures
        r@ == ref_source_kind_spec(ref_role@, content_type),
{
    if str_eq(ref_role, "tool_request") || str_eq(ref_role, "tool_response") {
        String::from_str("tool_invocation")
    } else if str_eq(ref_role, "rag_excerpt") {
        String::from_str("rag_ref")
    } else if str_eq(ref_role, "mcp_payload") {
        String::from_str("mcp_event")
    } else if str_eq(ref_role, "plugin_payload") || str_eq(ref_role, "plugin_state") {
        String::from_str("plugin_content")
    } else if str_eq(ref_role, "reasoning_trace") {
        String::from_str("reasoning_trace")
    } else if str_eq(ref_role, "provider_signature") {
        String::from_str("provider_signature")
    } else {
        match content_type {
            ContentType::ToolRequest | ContentType::ToolResponse => String::from_str("tool_invocation"),
            ContentType::RagExcerpt => String::from_str("rag_ref"),
            ContentType::McpPayload => String::from_str("mcp_event"),
            ContentType::PluginPayload | ContentType::PluginState => String::from_str("plugin_content"),
            ContentType::ReasoningTrace => String::from_str("reasoning_trace"),
            ContentType::ProviderSignature => String::from_str("provider_signature"),
            _ => String::from_str("message_ref"),
        }
    }
}

/// A binding of a channel, and optionally one of its models, to a
/// conversation or to an agent.
#[derive(Debug, Clone, PartialEq, Eq)]
pub struct ChannelBinding {
    /// The bound channel.
    pub channel_id: String,
    /// The bound model, if one is chosen.
    pub channel_model_id: Option<String>,
    /// `active` for a conversation's binding, `default` for an agent's.
    pub binding_type: String,
    /// Whether the binding is switched on.
    pub enabled: bool,
}

/// Where the channel and model of a generation come from, before they are
/// looked up.
#[derive(Debug, Clone, PartialEq, Eq)]
pub enum ChannelChoice {
    /// The model given at run time, in the channel given with it or else
    /// in its own channel.
    RuntimeModel { channel_id: Option<String>, model_id: String },
    /// The channel given at run time, with its first model.
    RuntimeChannel { channel_id: String },
    /// A binding, with its model or else the channel's first model; the
    /// scope is `conversation` or `agent`.
    Bound { channel_id: String, model_id: Option<String>, scope: String },
}

/// The position of the first channel binding that is switched on and of the given type.
pub open spec fn first_channel_binding(bindings: Seq<ChannelBinding>, binding_type: Seq<char>) -> Option<int>
    decreases bindings.len(),
{
    if bindings.len() == 0 {
        None
    } else {
        match first_channel_binding(bindings.drop_last(), binding_type) {
            Some(i) => Some(i),
            None => if bindings.last().enabled && bindings.last().binding_type@ == binding_type {
                Some(bindings.len() - 1)
            } else {
                None
            },
        }
    }
}

fn find_channel_binding(bindings: &[ChannelBinding], binding_type: &str) -> (r: Option<usize>)
    ensures
        match r {
            Some(i) => i < bindings@.len() && first_channel_binding(bindings@, binding_type@) == Some(i as int),
            None => first_channel_binding(bindings@, binding_type@) is None,
        },
{
    let mut i: usize = 0;
    while i < bindings.len()
        invariant
            i <= bindings@.len(),
            first_channel_binding(bindings@.take(i as int), binding_type@) is None,
        decreases bindings.len() - i,
    {
        assert(bindings@.take(i + 1 as int).drop_last() =~= bindings@.take(i as int));
        if bindings[i].enabled && str_eq(bindings[i].binding_type.as_str(), binding_type) {
            proof {
                lemma_first_channel_binding_prefix(bindings@, binding_type@, i as int + 1);
            }
            return Some(i);
        }
        i = i + 1;
    }
    assert(bindings@.take(bindings@.len() as int) =~= bindings@);
    None
}

proof fn lemma_first_channel_binding_prefix(bindings: Seq<ChannelBinding>, binding_type: Seq<char>, n: int)
    requires
        0 <= n <= bindings.len(),
        first_channel_binding(bindings.take(n), binding_type) is Some,
    ensures
        first_channel_binding(bindings, binding_type) == first_channel_binding(bindings.take(n), binding_type),
    decreases bindings.len() - n,
{
    if n < bindings.len() {
        assert(bindings.take(n + 1).drop_last() =~= bindings.take(n));
        lemma_first_channel_binding_prefix(bindings, binding_type, n + 1);
    } else {
        assert(bindings.take(n) =~= bindings);
    }
}

/// Whether `c` is the choice for the given run-time overrides and bindings:
/// a run-time model wins, then a run-time channel, then the conversation's
/// active binding, then the agent's default binding.
pub open spec fn is_channel_choice(
    c: ChannelChoice,
    override_channel: Option<Seq<char>>,
    override_model: Option<Seq<char>>,
    conversation: Seq<ChannelBinding>,
    agent: Option<Seq<ChannelBinding>>,
) -> bool {
    match override_model {
        Some(m) => c matches ChannelChoice::RuntimeModel { channel_id, model_id } && opt_view(channel_id)
            == override_channel && model_id@ == m,
        None => match override_channel {
            Some(ch) => c matches ChannelChoice::RuntimeChannel { channel_id } && channel_id@ == ch,
            None => match first_channel_binding(conversation, "active"@) {
                Some(i) => c matches ChannelChoice::Bound { channel_id, model_id, scope } && channel_id@
                    == conversation[i].channel_id@ && opt_view(model_id) == opt_view(
                    conversation[i].channel_model_id,
                ) && scope@ == "conversation"@,
                None => match agent {
                    Some(a) => match first_channel_binding(a, "default"@) {
                        Some(j) => c matches ChannelChoice::Bound { channel_id, model_id, scope } && channel_id@
                            == a[j].channel_id@ && opt_view(model_id) == opt_view(a[j].channel_model_id)
                            && scope@ == "agent"@,
                        None => false,
                    },
                    None => false,
                },
            },
        },
    }
}

/// Whether no channel can be chosen: no override and no applying binding.
pub open spec fn no_channel_choice(
    override_channel: Option<Seq<char>>,
    override_model: Option<Seq<char>>,
    conversation: Seq<ChannelBinding>,
    agent: Option<Seq<ChannelBinding>>,
) -> bool {
    &&& override_model is None
    &&& override_channel is None
    &&& first_channel_binding(conversation, "active"@) is None
    &&& match agent {
        Some(a) => first_channel_binding(a, "default"@) is None,
        None => true,
    }
}

/// Where the channel and model of a generation come from; when nothing
/// applies the generation is refused.
pub fn choose_channel(
    override_channel: Option<&str>,
    override_model: Option<&str>,
    conversation: &[ChannelBinding],
    agent: Option<&[ChannelBinding]>,
) -> (r: Result<ChannelChoice, AppError>)
    ensures
        match r {
            Ok(c) => is_channel_choice(
                c,
                str_opt_view(override_channel),
                str_opt_view(override_model),
                conversation@,
                slice_view(agent),
            ),
            Err(_) => no_channel_choice(
                str_opt_view(override_channel),
                str_opt_view(override_model),
                conversation@,
                slice_view(agent),
            ) && fails_validation(r, "VALIDATION_ERROR"@, "no active api channel/model could be resolved"@),
        },
{
    if let Some(model_id) = override_model {
        let channel_id = match override_channel {
            Some(c) => Some(String::from_str(c)),
            None => None,
        };
        return Ok(ChannelChoice::RuntimeModel { channel_id, model_id: String::from_str(model_id) });
    }
    if let Some(channel_id) = override_channel {
        return Ok(ChannelChoice::RuntimeChannel { channel_id: String::from_str(channel_id) });
    }
    if let Some(i) = find_channel_binding(conversation, "active") {
        return Ok(
            ChannelChoice::Bound {
                channel_id: conversation[i].channel_id.clone(),
                model_id: conversation[i].channel_model_id.clone(),
                scope: String::from_str("conversation"),
            },
        );
    }
    if let Some(a) = agent {
        if let Some(j) = find_channel_binding(a, "default") {
            return Ok(
                ChannelChoice::Bound {
                    channel_id: a[j].channel_id.clone(),
                    model_id: a[j].channel_model_id.clone(),
                    scope: String::from_str("agent"),
                },
            );
        }
    }
    Err(AppError::validation("VALIDATION_ERROR", "no active api channel/model could be resolved"))
}

/// A model given at run time must belong to the channel it is used with.
pub fn check_model_channel(channel_id: &str, model_channel_id: &str) -> (r: Result<(), AppError>)
    ensures
        r is Ok <==> channel_id@ == model_channel_id@,
        r is Err ==> fails_validation(
            r,
            "VALIDATION_ERROR"@,
            "override_api_channel_model_id does not belong to override_api_channel_id"@,
        ),
{
    if str_eq(channel_id, model_channel_id) {
        Ok(())
    } else {
        Err(
            AppError::validation(
                "VALIDATION_ERROR",
                "override_api_channel_model_id does not belong to override_api_channel_id",
            ),
        )
    }
}

/// The message of the error for a channel without models.
pub open spec fn no_models_message(channel_id: Seq<char>) -> Seq<char> {
    "api channel '"@ + channel_id + "' has no models"@
}

/// The first model of a channel; a channel without models cannot serve.
pub fn first_model<M>(channel_id: &str, models: Vec<M>) -> (r: Result<M, AppError>)
    ensures
        models@.len() > 0 ==> r == Ok::<M, AppError>(models@[0]),
        models@.len() == 0 ==> fails_validation(r, "VALIDATION_ERROR"@, no_models_message(channel_id@)),
{
    let mut models = models;
    if models.len() == 0 {
        return Err(AppError::validation("VALIDATION_ERROR", concat3("api channel '", channel_id, "' has no models").as_str()));
    }
    Ok(models.remove(0))
}

impl MessageContentRefView {
    /// A copy of the reference.
    pub fn duplicate(&self) -> (r: Self)
        ensures
            r == *self,
    {
        MessageContentRefView {
            id: self.id.clone(),
            ref_role: self.ref_role.clone(),
            plugin_id: copy_opt(&self.plugin_id),
            sort_order: self.sort_order,
            content: self.content.duplicate(),
            config_json: self.config_json.clone(),
        }
    }
}

/// Whether two message versions hold the same values.
pub open spec fn same_message(a: MessageVersionView, b: MessageVersionView) -> bool {
    &&& a.conversation_id == b.conversation_id
    &&& a.node_id == b.node_id
    &&& a.version_id == b.version_id
    &&& a.role == b.role
    &&& a.primary_content == b.primary_content
    &&& a.content_refs@ == b.content_refs@
    &&& a.context_policy == b.context_policy
}

/// A copy of a message version.
pub fn duplicate_message(m: &MessageVersionView) -> (r: MessageVersionView)
    ensures
        same_message(r, *m),
{
    let mut refs: Vec<MessageContentRefView> = Vec::new();
    let mut i: usize = 0;
    while i < m.content_refs.len()
        invariant
            i <= m.content_refs@.len(),
            refs@ == m.content_refs@.take(i as int),
        decreases m.content_refs.len() - i,
    {
        refs.push(m.content_refs[i].duplicate());
        proof {
            assert(refs@ =~= m.content_refs@.take(i + 1 as int));
        }
        i = i + 1;
    }
    proof {
        assert(m.content_refs@.take(m.content_refs@.len() as int) =~= m.content_refs@);
    }
    MessageVersionView {
        conversation_id: m.conversation_id.clone(),
        node_id: m.node_id.clone(),
        version_id: m.version_id.clone(),
        role: m.role,
        primary_content: m.primary_content.duplicate(),
        content_refs: refs,
        context_policy: m.context_policy,
    }
}

/// Whether two matched lorebook entries hold the same values.
pub open spec fn same_lore(a: MatchedLorebookEntry, b: MatchedLorebookEntry) -> bool {
    &&& a.lorebook_entry_id == b.lorebook_entry_id
    &&& a.matched_keys@ == b.matched_keys@
    &&& a.content == b.content
    &&& a.config_json == b.config_json
}

/// A copy of a matched lorebook entry.
pub fn duplicate_lore(e: &MatchedLorebookEntry) -> (r: MatchedLorebookEntry)
    ensures
        same_lore(r, *e),
{
    let mut keys: Vec<String> = Vec::new();
    let mut i: usize = 0;
    while i < e.matched_keys.len()
        invariant
            i <= e.matched_keys@.len(),
            keys@ == e.matched_keys@.take(i as int),
        decreases e.matched_keys.len() - i,
    {
        keys.push(e.matched_keys[i].clone());
        proof {
            assert(keys@ =~= e.matched_keys@.take(i + 1 as int));
        }
        i = i + 1;
    }
    proof {
        assert(e.matched_keys@.take(e.matched_keys@.len() as int) =~= e.matched_keys@);
    }
    MatchedLorebookEntry {
        lorebook_entry_id: e.lorebook_entry_id.clone(),
        matched_keys: keys,
        content: e.content.duplicate(),
        config_json: e.config_json.clone(),
    }
}

/// One piece that a generation context is assembled from, numbered in the
/// order of assembly; it carries the one source it comes from.
#[derive(Debug, Clone, PartialEq, Eq)]
pub struct HistoryMaterial {
    pub sequence_no: i64,
    /// `agent`, `user_profile`, `preset_entry`, `lorebook_entry`,
    /// `message_version` or `message_ref`.
    pub source_kind: String,
    pub message_version: Option<MessageVersionView>,
    pub summary_version_id: Option<String>,
    pub summary_content: Option<StoredContent>,
    pub preset_entry: Option<PresetEntryDetail>,
    pub lorebook_entry: Option<MatchedLorebookEntry>,
    pub user_profile: Option<UserProfileDetail>,
    pub agent: Option<AgentDetail>,
    pub plugin_content: Option<MessageContentRefView>,
    /// Extra data, a JSON document.
    pub config_json: String,
}

/// The name of the agent slot at position `k`, in the order the slots are
/// laid out: main prompt override, description, personality, scenario,
/// character note, post-history instructions.
pub open spec fn slot_name(k: int) -> Seq<char> {
    if k == 0 {
        "main_prompt_override"@
    } else if k == 1 {
        "description"@
    } else if k == 2 {
        "personality"@
    } else if k == 3 {
        "scenario"@
    } else if k == 4 {
        "character_note"@
    } else {
        "post_history_instructions"@
    }
}

/// The content of the agent's slot named `slot`; none for another name.
pub open spec fn slot_content(agent: AgentDetail, slot: Option<Seq<char>>) -> Option<StoredContent> {
    match slot {
        Some(s) => if s == "main_prompt_override"@ {
            agent.main_prompt_override_content
        } else if s == "description"@ {
            agent.description_content
        } else if s == "personality"@ {
            agent.personality_content
        } else if s == "scenario"@ {
            agent.scenario_content
        } else if s == "character_note"@ {
            agent.character_note_content
        } else if s == "post_history_instructions"@ {
            agent.post_history_instructions_content
        } else {
            None
        },
        None => None,
    }
}

/// The content of the agent slot that a material's settings name.
pub fn resolve_agent_slot_content(agent: &AgentDetail, config_json: &str) -> (r: Option<StoredContent>)
    ensures
        r == slot_content(*agent, string_member(config_json@, "agent_slot"@)),
{
    let slot = string_member_of(config_json, "agent_slot");
    proof {
        reveal_strlit("main_prompt_override");
        reveal_strlit("description");
        reveal_strlit("personality");
        reveal_strlit("scenario");
        reveal_strlit("character_note");
        reveal_strlit("post_history_instructions");
    }
    match slot {
        Some(s) => if str_eq(s.as_str(), "main_prompt_override") {
            copy_content_opt(&agent.main_prompt_override_content)
        } else if str_eq(s.as_str(), "description") {
            copy_content_opt(&agent.description_content)
        } else if str_eq(s.as_str(), "personality") {
            copy_content_opt(&agent.personality_content)
        } else if str_eq(s.as_str(), "scenario") {
            copy_content_opt(&agent.scenario_content)
        } else if str_eq(s.as_str(), "character_note") {
            copy_content_opt(&agent.character_note_content)
        } else if str_eq(s.as_str(), "post_history_instructions") {
            copy_content_opt(&agent.post_history_instructions_content)
        } else {
            None
        },
        None => None,
    }
}

/// Where a material comes from: an agent slot, the user profile, an entry
/// of the preset, a matched lorebook entry, a message, or a content
/// reference of a message (by their positions).
pub enum MaterialSource {
    AgentSlot(int),
    UserProfile,
    PresetEntry(int),
    LorebookEntry(int),
    Message(int),
    MessageRef(int, int),
}

/// What a context is assembled from.
pub struct MaterialInputs {
    pub agent: Option<AgentDetail>,
    pub profile: Option<UserProfileDetail>,
    pub entries: Seq<PresetEntryDetail>,
    pub lore: Seq<MatchedLorebookEntry>,
    pub messages: Seq<MessageVersionView>,
    pub summaries: Seq<Option<ContextSummary>>,
}

/// The agent slots from position `k` on that hold content.
pub open spec fn agent_plan_from(agent: AgentDetail, k: int) -> Seq<MaterialSource>
    decreases 6 - k,
{
    if k < 0 || k >= 6 {
        Seq::empty()
    } else if slot_content(agent, Some(slot_name(k))) is Some {
        seq![MaterialSource::AgentSlot(k)] + agent_plan_from(agent, k + 1)
    } else {
        agent_plan_from(agent, k + 1)
    }
}

/// The enabled preset entries from position `k` on.
pub open spec fn preset_plan_from(entries: Seq<PresetEntryDetail>, k: int) -> Seq<MaterialSource>
    decreases entries.len() - k,
{
    if k < 0 || k >= entries.len() {
        Seq::empty()
    } else if entries[k].enabled {
        seq![MaterialSource::PresetEntry(k)] + preset_plan_from(entries, k + 1)
    } else {
        preset_plan_from(entries, k + 1)
    }
}

/// Whether a content reference goes into the context with its message.
pub open spec fn included_ref(item: MessageContentRefView) -> bool {
    is_attached_type(item.content.content_type) || is_attached_role(item.ref_role@)
}

/// The references of message `j` from position `k` on that go into the context.
pub open spec fn refs_plan_from(refs: Seq<MessageContentRefView>, j: int, k: int) -> Seq<MaterialSource>
    decreases refs.len() - k,
{
    if k < 0 || k >= refs.len() {
        Seq::empty()
    } else if included_ref(refs[k]) {
        seq![MaterialSource::MessageRef(j, k)] + refs_plan_from(refs, j, k + 1)
    } else {
        refs_plan_from(refs, j, k + 1)
    }
}

/// The messages from position `j` on that are not left out, each followed
/// by its references that go into the context.
pub open spec fn messages_plan_from(ms: Seq<MessageVersionView>, j: int) -> Seq<MaterialSource>
    decreases ms.len() - j,
{
    if j < 0 || j >= ms.len() {
        Seq::empty()
    } else if ms[j].context_policy == ContextPolicy::Exclude {
        messages_plan_from(ms, j + 1)
    } else {
        seq![MaterialSource::Message(j)] + refs_plan_from(ms[j].content_refs@, j, 0) + messages_plan_from(ms, j + 1)
    }
}

/// The matched lorebook entries from position `k` on.
pub open spec fn lore_plan_from(n: int, k: int) -> Seq<MaterialSource>
    decreases n - k,
{
    if k < 0 || k >= n {
        Seq::empty()
    } else {
        seq![MaterialSource::LorebookEntry(k)] + lore_plan_from(n, k + 1)
    }
}

/// The sources after the agent's slots: the user profile, and what follows it.
pub open spec fn after_agent(inp: MaterialInputs) -> Seq<MaterialSource> {
    (match inp.profile {
        Some(_) => seq![MaterialSource::UserProfile],
        None => Seq::empty(),
    }) + after_profile(inp)
}

/// The sources after the user profile: the enabled preset entries, and what follows them.
pub open spec fn after_profile(inp: MaterialInputs) -> Seq<MaterialSource> {
    preset_plan_from(inp.entries, 0) + after_preset(inp)
}

/// The sources after the preset entries: the matched lorebook entries, then the messages.
pub open spec fn after_preset(inp: MaterialInputs) -> Seq<MaterialSource> {
    lore_plan_from(inp.lore.len() as int, 0) + messages_plan_from(inp.messages, 0)
}

/// The sources of the materials, in order: the agent's slots that hold
/// content, the user profile, the enabled preset entries, the matched
/// lorebook entries, and the messages that are not left out, each followed
/// by its references that travel with it.
pub open spec fn material_plan(inp: MaterialInputs) -> Seq<MaterialSource> {
    (match inp.agent {
        Some(a) => agent_plan_from(a, 0),
        None => Seq::empty(),
    }) + after_agent(inp)
}

/// Whether `m` carries no source other than those marked.
pub open spec fn carries(m: HistoryMaterial, message: bool, preset: bool, lore: bool, profile: bool, agent: bool, plugin: bool) -> bool {
    &&& !message ==> m.message_version is None && m.summary_version_id is None && m.summary_content is None
    &&& !preset ==> m.preset_entry is None
    &&& !lore ==> m.lorebook_entry is None
    &&& !profile ==> m.user_profile is None
    &&& !agent ==> m.agent is None
    &&& !plugin ==> m.plugin_content is None
}

/// The settings of the material for a content reference of a message.
pub open spec fn ref_config(m: MessageVersionView, item: MessageContentRefView) -> Seq<char> {
    json_string_object_of(
        seq![
            ("message_version_id"@, m.version_id@),
            ("message_node_id"@, m.node_id@),
            ("message_role"@, messagerole_name(m.role)),
            ("ref_role"@, item.ref_role@),
        ],
    )
}

/// Whether `m` is the material for `src`.
pub open spec fn material_matches(m: HistoryMaterial, src: MaterialSource, inp: MaterialInputs) -> bool {
    match src {
        MaterialSource::AgentSlot(k) => {
            &&& m.source_kind@ == "agent"@
            &&& carries(m, false, false, false, false, true, false)
            &&& m.agent == inp.agent
            &&& m.config_json@ == json_string_object_of(seq![("agent_slot"@, slot_name(k))])
        },
        MaterialSource::UserProfile => {
            &&& m.source_kind@ == "user_profile"@
            &&& carries(m, false, false, false, true, false, false)
            &&& m.user_profile == inp.profile
            &&& m.config_json@ == "{}"@
        },
        MaterialSource::PresetEntry(k) => {
            &&& m.source_kind@ == "preset_entry"@
            &&& carries(m, false, true, false, false, false, false)
            &&& m.preset_entry == Some(inp.entries[k])
            &&& m.config_json@ == "{}"@
        },
        MaterialSource::LorebookEntry(k) => {
            &&& m.source_kind@ == "lorebook_entry"@
            &&& carries(m, false, false, true, false, false, false)
            &&& m.lorebook_entry matches Some(e) && same_lore(e, inp.lore[k])
            &&& m.config_json@ == "{}"@
        },
        MaterialSource::Message(j) => {
            &&& m.source_kind@ == "message_version"@
            &&& carries(m, true, false, false, false, false, false)
            &&& m.message_version matches Some(v) && same_message(v, inp.messages[j])
            &&& match inp.summaries[j] {
                Some(s) => m.summary_version_id == Some(s.summary_version_id) && m.summary_content == Some(s.content),
                None => m.summary_version_id is None && m.summary_content is None,
            }
            &&& m.config_json@ == "{}"@
        },
        MaterialSource::MessageRef(j, k) => {
            &&& m.source_kind@ == "message_ref"@
            &&& carries(m, false, false, false, false, false, true)
            &&& m.plugin_content == Some(inp.messages[j].content_refs@[k])
            &&& m.config_json@ == ref_config(inp.messages[j], inp.messages[j].content_refs@[k])
        },
    }
}

/// The value behind an optional reference.
pub open spec fn deref_opt<T>(o: Option<&T>) -> Option<T> {
    match o {
        Some(x) => Some(*x),
        None => None,
    }
}

/// The inputs of an assembly, as values.
pub open spec fn inputs_of(
    visible_messages: Seq<MessageVersionView>,
    context_summaries: Seq<Option<ContextSummary>>,
    matched_lorebook_entries: Seq<MatchedLorebookEntry>,
    preset: Option<PresetDetail>,
    user_profile: Option<UserProfileDetail>,
    agent: Option<AgentDetail>,
) -> MaterialInputs {
    MaterialInputs {
        agent,
        profile: user_profile,
        entries: match preset {
            Some(p) => p.entries@,
            None => Seq::empty(),
        },
        lore: matched_lorebook_entries,
        messages: visible_messages,
        summaries: context_summaries,
    }
}

/// Whether the materials `out` are numbered from 0 and made from the sources `done`.
pub open spec fn numbered_from(out: Seq<HistoryMaterial>, done: Seq<MaterialSource>, inp: MaterialInputs) -> bool {
    &&& out.len() == done.len()
    &&& forall|i: int| 0 <= i < out.len() ==> (#[trigger] out[i]).sequence_no == i && material_matches(out[i], done[i], inp)
}

proof fn lemma_shift(done: Seq<MaterialSource>, x: MaterialSource, rest: Seq<MaterialSource>, tail: Seq<MaterialSource>)
    ensures
        done + (seq![x] + rest) + tail == done.push(x) + rest + tail,
{
    assert(done + (seq![x] + rest) + tail =~= done.push(x) + rest + tail);
}

fn new_material(sequence_no: i64, source_kind: &str, config_json: String) -> (m: HistoryMaterial)
    ensures
        m.sequence_no == sequence_no,
        m.source_kind@ == source_kind@,
        m.config_json == config_json,
        carries(m, false, false, false, false, false, false),
{
    HistoryMaterial {
        sequence_no,
        source_kind: String::from_str(source_kind),
        message_version: None,
        summary_version_id: None,
        summary_content: None,
        preset_entry: None,
        lorebook_entry: None,
        user_profile: None,
        agent: None,
        plugin_content: None,
        config_json,
    }
}

/// The name of the agent slot at position `k`.
fn slot_name_at(k: usize) -> (r: &'static str)
    requires
        k < 6,
    ensures
        r@ == slot_name(k as int),
{
    if k == 0 {
        "main_prompt_override"
    } else if k == 1 {
        "description"
    } else if k == 2 {
        "personality"
    } else if k == 3 {
        "scenario"
    } else if k == 4 {
        "character_note"
    } else {
        "post_history_instructions"
    }
}

/// Whether the agent slot at position `k` holds content.
fn slot_filled(agent: &AgentDetail, k: usize) -> (r: bool)
    requires
        k < 6,
    ensures
        r == (slot_content(*agent, Some(slot_name(k as int))) is Some),
{
    proof {
        reveal_strlit("main_prompt_override");
        reveal_strlit("description");
        reveal_strlit("personality");
        reveal_strlit("scenario");
        reveal_strlit("character_note");
        reveal_strlit("post_history_instructions");
        assert("description"@[0] != "personality"@[0]);
        assert("main_prompt_override"@.len() == 20);
        assert("description"@.len() == 11);
        assert("personality"@.len() == 11);
        assert("scenario"@.len() == 8);
        assert("character_note"@.len() == 14);
        assert("post_history_instructions"@.len() == 25);
    }
    if k == 0 {
        agent.main_prompt_override_content.is_some()
    } else if k == 1 {
        agent.description_content.is_some()
    } else if k == 2 {
        agent.personality_content.is_some()
    } else if k == 3 {
        agent.scenario_content.is_some()
    } else if k == 4 {
        agent.character_note_content.is_some()
    } else {
        agent.post_history_instructions_content.is_some()
    }
}

/// The settings of the material for the agent slot named `name`.
fn agent_slot_config(name: &str) -> (r: String)
    ensures
        r@ == json_string_object_of(seq![("agent_slot"@, name@)]),
{
    let mut pairs: Vec<(String, String)> = Vec::new();
    pairs.push((String::from_str("agent_slot"), String::from_str(name)));
    proof {
        assert(string_pairs_view(pairs@) =~= seq![("agent_slot"@, name@)]);
    }
    json_string_object(pairs.as_slice())
}

/// The settings of the material for the content reference `item` of `m`.
fn message_ref_config(m: &MessageVersionView, item: &MessageContentRefView) -> (r: String)
    ensures
        r@ == ref_config(*m, *item),
{
    let mut pairs: Vec<(String, String)> = Vec::new();
    pairs.push((String::from_str("message_version_id"), m.version_id.clone()));
    pairs.push((String::from_str("message_node_id"), m.node_id.clone()));
    pairs.push((String::from_str("message_role"), String::from_str(m.role.as_str())));
    pairs.push((String::from_str("ref_role"), item.ref_role.clone()));
    proof {
        assert(string_pairs_view(pairs@) =~= seq![
            ("message_version_id"@, m.version_id@),
            ("message_node_id"@, m.node_id@),
            ("message_role"@, messagerole_name(m.role)),
            ("ref_role"@, item.ref_role@),
        ]);
    }
    json_string_object(pairs.as_slice())
}

/// The materials a generation context is assembled from, numbered from 0
/// in this order: the agent's prompt slots that hold content (main prompt
/// override, description, personality, scenario, character note,
/// post-history instructions), the user profile, the enabled entries of
/// the preset, the matched lorebook entries, then each visible message that
/// is not left out, with its summary when one stands in for it, followed by
/// its content references that travel with it. The summaries are given one
/// per visible message; the references are expected with their contents
/// loaded.
pub fn select_history_materials(
    visible_messages: &[MessageVersionView],
    context_summaries: &[Option<ContextSummary>],
    matched_lorebook_entries: &[MatchedLorebookEntry],
    preset: Option<&PresetDetail>,
    user_profile: Option<&UserProfileDetail>,
    agent: Option<&AgentDetail>,
) -> (r: Vec<HistoryMaterial>)
    requires
        context_summaries@.len() == visible_messages@.len(),
        material_plan(
            inputs_of(
                visible_messages@,
                context_summaries@,
                matched_lorebook_entries@,
                deref_opt(preset),
                deref_opt(user_profile),
                deref_opt(agent),
            ),
        ).len() <= i64::MAX,
    ensures
        numbered_from(
            r@,
            material_plan(
                inputs_of(
                    visible_messages@,
                    context_summaries@,
                    matched_lorebook_entries@,
                    deref_opt(preset),
                    deref_opt(user_profile),
                    deref_opt(agent),
                ),
            ),
            inputs_of(
                visible_messages@,
                context_summaries@,
                matched_lorebook_entries@,
                deref_opt(preset),
                deref_opt(user_profile),
                deref_opt(agent),
            ),
        ),
{
    let ghost inp = inputs_of(
        visible_messages@,
        context_summaries@,
        matched_lorebook_entries@,
        deref_opt(preset),
        deref_opt(user_profile),
        deref_opt(agent),
    );
    let ghost plan = material_plan(inp);
    let mut out: Vec<HistoryMaterial> = Vec::new();
    let ghost mut done: Seq<MaterialSource> = Seq::empty();

    if let Some(a) = agent {
        let mut k: usize = 0;
        assert(done + agent_plan_from(*a, 0) + after_agent(inp) =~= plan);
        while k < 6
            invariant
                k <= 6,
                agent == Some(a),
                inp.agent == Some(*a),
                plan == material_plan(inp),
                plan.len() <= i64::MAX,
                numbered_from(out@, done, inp),
                done + agent_plan_from(*a, k as int) + after_agent(inp) == plan,
            decreases 6 - k,
        {
            if slot_filled(a, k) {
                proof {
                    lemma_shift(done, MaterialSource::AgentSlot(k as int), agent_plan_from(*a, k + 1), after_agent(inp));
                }
                let mut m = new_material(out.len() as i64, "agent", agent_slot_config(slot_name_at(k)));
                m.agent = Some(a.duplicate());
                out.push(m);
                proof {
                    done = done.push(MaterialSource::AgentSlot(k as int));
                }
            }
            k = k + 1;
        }
    } else {
        assert(done + after_agent(inp) =~= plan);
    }

    let ghost profile_part = match inp.profile {
        Some(_) => seq![MaterialSource::UserProfile],
        None => Seq::<MaterialSource>::empty(),
    };
    assert(done + profile_part + after_profile(inp) =~= plan);
    if let Some(p) = user_profile {
        proof {
            lemma_shift(done, MaterialSource::UserProfile, Seq::empty(), after_profile(inp));
        }
        let mut m = new_material(out.len() as i64, "user_profile", String::from_str("{}"));
        m.user_profile = Some(p.duplicate());
        out.push(m);
        proof {
            done = done.push(MaterialSource::UserProfile);
        }
    }
    assert(done + after_profile(inp) =~= plan);

    if let Some(p) = preset {
        let mut k: usize = 0;
        assert(done + preset_plan_from(p.entries@, 0) + after_preset(inp) =~= plan);
        while k < p.entries.len()
            invariant
                k <= p.entries@.len(),
                inp.entries == p.entries@,
                plan == material_plan(inp),
                plan.len() <= i64::MAX,
                numbered_from(out@, done, inp),
                done + preset_plan_from(p.entries@, k as int) + after_preset(inp) == plan,
            decreases p.entries.len() - k,
        {
            if p.entries[k].enabled {
                proof {
                    lemma_shift(done, MaterialSource::PresetEntry(k as int), preset_plan_from(p.entries@, k + 1), after_preset(inp));
                }
                let mut m = new_material(out.len() as i64, "preset_entry", String::from_str("{}"));
                m.preset_entry = Some(p.entries[k].duplicate());
                out.push(m);
                proof {
                    done = done.push(MaterialSource::PresetEntry(k as int));
                }
            }
            k = k + 1;
        }
    } else {
        assert(done + preset_plan_from(Seq::<PresetEntryDetail>::empty(), 0) + after_preset(inp) =~= plan);
    }
    assert(done + after_preset(inp) =~= plan);

    let n = matched_lorebook_entries.len();
    let mut k: usize = 0;
    while k < n
        invariant
            k <= n,
            n == inp.lore.len(),
            inp.lore == matched_lorebook_entries@,
            plan == material_plan(inp),
            plan.len() <= i64::MAX,
            numbered_from(out@, done, inp),
            done + lore_plan_from(n as int, k as int) + messages_plan_from(inp.messages, 0) == plan,
        decreases n - k,
    {
        proof {
            lemma_shift(done, MaterialSource::LorebookEntry(k as int), lore_plan_from(n as int, k + 1), messages_plan_from(inp.messages, 0));
        }
        let mut m = new_material(out.len() as i64, "lorebook_entry", String::from_str("{}"));
        m.lorebook_entry = Some(duplicate_lore(&matched_lorebook_entries[k]));
        out.push(m);
        proof {
            done = done.push(MaterialSource::LorebookEntry(k as int));
        }
        k = k + 1;
    }

    let mut j: usize = 0;
    while j < visible_messages.len()
        invariant
            j <= visible_messages@.len(),
            inp.messages == visible_messages@,
            inp.summaries == context_summaries@,
            context_summaries@.len() == visible_messages@.len(),
            plan == material_plan(inp),
            plan.len() <= i64::MAX,
            numbered_from(out@, done, inp),
            done + messages_plan_from(visible_messages@, j as int) == plan,
        decreases visible_messages.len() - j,
    {
        let message = &visible_messages[j];
        if message.context_policy != ContextPolicy::Exclude {
            let ghost refs = message.content_refs@;
            let ghost later = messages_plan_from(visible_messages@, j + 1);
            proof {
                lemma_shift(done, MaterialSource::Message(j as int), refs_plan_from(refs, j as int, 0) + later, Seq::empty());
                assert(done + (seq![MaterialSource::Message(j as int)] + refs_plan_from(refs, j as int, 0) + later)
                    =~= done + messages_plan_from(visible_messages@, j as int));
            }
            let mut m = new_material(out.len() as i64, "message_version", String::from_str("{}"));
            m.message_version = Some(duplicate_message(message));
            match &context_summaries[j] {
                Some(s) => {
                    m.summary_version_id = Some(s.summary_version_id.clone());
                    m.summary_content = Some(s.content.duplicate());
                },
                None => {},
            }
            out.push(m);
            proof {
                done = done.push(MaterialSource::Message(j as int));
                assert(done + refs_plan_from(refs, j as int, 0) + later =~= plan);
            }
            let mut k: usize = 0;
            while k < message.content_refs.len()
                invariant
                    k <= refs.len(),
                    refs == message.content_refs@,
                    message == visible_messages@[j as int],
                    j < visible_messages@.len(),
                    later == messages_plan_from(visible_messages@, j + 1),
                    inp.messages == visible_messages@,
                    plan == material_plan(inp),
                    plan.len() <= i64::MAX,
                    numbered_from(out@, done, inp),
                    done + refs_plan_from(refs, j as int, k as int) + later == plan,
                decreases refs.len() - k,
            {
                let item = &message.content_refs[k];
                if should_include_message_ref_in_context(item) {
                    proof {
                        lemma_shift(done, MaterialSource::MessageRef(j as int, k as int), refs_plan_from(refs, j as int, k + 1), later);
                    }
                    let mut m = new_material(out.len() as i64, "message_ref", message_ref_config(message, item));
                    m.plugin_content = Some(item.duplicate());
                    out.push(m);
                    proof {
                        done = done.push(MaterialSource::MessageRef(j as int, k as int));
                    }
                }
                k = k + 1;
            }
            proof {
                assert(done + later =~= plan);
            }
        }
        j = j + 1;
    }
    proof {
        assert(done =~= plan);
    }
    out
}

/// One item of the context of a generation, with where it came from.
#[derive(Debug, Clone, PartialEq, Eq)]
pub struct GenerationContextItem {
    pub sequence_no: i64,
    pub send_role: MessageRole,
    pub rendered_content: StoredContent,
    pub source_kind: String,
    pub source_message_node_id: Option<String>,
    pub source_message_version_id: Option<String>,
    pub source_summary_version_id: Option<String>,
    pub source_preset_entry_id: Option<String>,
    pub source_lorebook_entry_id: Option<String>,
    pub source_user_profile_id: Option<String>,
    pub source_agent_id: Option<String>,
    pub source_agent_greeting_id: Option<String>,
    pub source_tool_invocation_id: Option<String>,
    pub source_rag_ref_id: Option<String>,
    pub source_mcp_event_id: Option<String>,
    pub source_plugin_id: Option<String>,
    pub included_in_request: bool,
    /// Extra data, a JSON document.
    pub config_json: String,
}

/// The sources an item records, as texts.
pub struct ItemSources {
    pub node: Option<Seq<char>>,
    pub version: Option<Seq<char>>,
    pub summary: Option<Seq<char>>,
    pub preset_entry: Option<Seq<char>>,
    pub lorebook_entry: Option<Seq<char>>,
    pub user_profile: Option<Seq<char>>,
    pub agent: Option<Seq<char>>,
    pub agent_greeting: Option<Seq<char>>,
    pub tool_invocation: Option<Seq<char>>,
    pub rag_ref: Option<Seq<char>>,
    pub mcp_event: Option<Seq<char>>,
    pub plugin: Option<Seq<char>>,
}

/// The sources an item records.
pub open spec fn sources_of(it: GenerationContextItem) -> ItemSources {
    ItemSources {
        node: opt_view(it.source_message_node_id),
        version: opt_view(it.source_message_version_id),
        summary: opt_view(it.source_summary_version_id),
        preset_entry: opt_view(it.source_preset_entry_id),
        lorebook_entry: opt_view(it.source_lorebook_entry_id),
        user_profile: opt_view(it.source_user_profile_id),
        agent: opt_view(it.source_agent_id),
        agent_greeting: opt_view(it.source_agent_greeting_id),
        tool_invocation: opt_view(it.source_tool_invocation_id),
        rag_ref: opt_view(it.source_rag_ref_id),
        mcp_event: opt_view(it.source_mcp_event_id),
        plugin: opt_view(it.source_plugin_id),
    }
}

/// No recorded source.
pub open spec fn no_sources() -> ItemSources {
    ItemSources {
        node: None,
        version: None,
        summary: None,
        preset_entry: None,
        lorebook_entry: None,
        user_profile: None,
        agent: None,
        agent_greeting: None,
        tool_invocation: None,
        rag_ref: None,
        mcp_event: None,
        plugin: None,
    }
}

/// What an item holds: its number, role, content, source kind, recorded
/// sources and settings.
pub struct ExpectedItem {
    pub sequence_no: i64,
    pub role: MessageRole,
    pub content: StoredContent,
    pub kind: Seq<char>,
    pub sources: ItemSources,
    pub config: Seq<char>,
}

/// Whether `it` holds what `e` describes, and is sent with the request.
pub open spec fn item_is(it: GenerationContextItem, e: ExpectedItem) -> bool {
    &&& it.sequence_no == e.sequence_no
    &&& it.send_role == e.role
    &&& it.rendered_content == e.content
    &&& it.source_kind@ == e.kind
    &&& sources_of(it) == e.sources
    &&& it.config_json@ == e.config
    &&& it.included_in_request
}

/// The role a stored name gives; the system's when there is no such name.
pub open spec fn role_or_system(name: Option<Seq<char>>) -> MessageRole {
    match name {
        Some(s) => if s == "system"@ {
            MessageRole::System
        } else if s == "user"@ {
            MessageRole::User
        } else if s == "assistant"@ {
            MessageRole::Assistant
        } else if s == "tool"@ {
            MessageRole::Tool
        } else {
            MessageRole::System
        },
        None => MessageRole::System,
    }
}

/// The item for a content reference of a message: its role and the message
/// it came from are read from its settings, its source kind from its role
/// or content type.
pub open spec fn ref_item(sequence_no: i64, p: MessageContentRefView) -> ExpectedItem {
    let cfg = p.config_json@;
    ExpectedItem {
        sequence_no,
        role: role_or_system(string_member(cfg, "message_role"@)),
        content: p.content,
        kind: ref_source_kind_spec(p.ref_role@, p.content.content_type),
        sources: ItemSources {
            node: string_member(cfg, "message_node_id"@),
            version: string_member(cfg, "message_version_id"@),
            summary: None,
            preset_entry: None,
            lorebook_entry: None,
            user_profile: None,
            agent: None,
            agent_greeting: None,
            tool_invocation: string_member(cfg, "tool_invocation_id"@),
            rag_ref: string_member(cfg, "rag_ref_id"@),
            mcp_event: string_member(cfg, "mcp_event_id"@),
            plugin: match p.plugin_id {
                Some(id) => Some(id@),
                None => string_member(cfg, "plugin_id"@),
            },
        },
        config: cfg,
    }
}

/// An item numbered, named and set as material `m` is.
pub open spec fn material_item(m: HistoryMaterial, role: MessageRole, content: StoredContent, sources: ItemSources) -> ExpectedItem {
    ExpectedItem { sequence_no: m.sequence_no, role, content, kind: m.source_kind@, sources, config: m.config_json@ }
}

/// The role of the agent slot named `slot`: the character note's own role
/// for the character note, else the system's.
pub open spec fn slot_role(a: AgentDetail, slot: Option<Seq<char>>) -> MessageRole {
    if slot == Some("character_note"@) {
        match a.character_note_role {
            Some(r) => r,
            None => MessageRole::System,
        }
    } else {
        MessageRole::System
    }
}

/// The item a material yields, if any: a message (with its summary's
/// content when one stands in), a content reference, a preset entry, a
/// lorebook entry (as the system's), the user profile's description, or the
/// agent slot its settings name; the first of these it carries decides.
pub open spec fn expected_item(m: HistoryMaterial) -> Option<ExpectedItem> {
    match m.message_version {
        Some(v) => Some(
            material_item(
                m,
                v.role,
                match m.summary_content {
                    Some(c) => c,
                    None => v.primary_content,
                },
                ItemSources {
                    node: Some(v.node_id@),
                    version: Some(v.version_id@),
                    summary: opt_view(m.summary_version_id),
                    ..no_sources()
                },
            ),
        ),
        None => match m.plugin_content {
            Some(p) => Some(ref_item(m.sequence_no, p)),
            None => match m.preset_entry {
                Some(e) => Some(
                    material_item(m, e.role, e.primary_content, ItemSources { preset_entry: Some(e.id@), ..no_sources() }),
                ),
                None => match m.lorebook_entry {
                    Some(e) => Some(
                        material_item(
                            m,
                            MessageRole::System,
                            e.content,
                            ItemSources { lorebook_entry: Some(e.lorebook_entry_id@), ..no_sources() },
                        ),
                    ),
                    None => match m.user_profile {
                        Some(p) => match p.description_content {
                            Some(d) => Some(
                                material_item(
                                    m,
                                    match p.injection_role {
                                        Some(r) => r,
                                        None => MessageRole::System,
                                    },
                                    d,
                                    ItemSources { user_profile: Some(p.id@), ..no_sources() },
                                ),
                            ),
                            None => None,
                        },
                        None => match m.agent {
                            Some(a) => match slot_content(a, string_member(m.config_json@, "agent_slot"@)) {
                                Some(c) => Some(
                                    material_item(
                                        m,
                                        slot_role(a, string_member(m.config_json@, "agent_slot"@)),
                                        c,
                                        ItemSources { agent: Some(a.id@), ..no_sources() },
                                    ),
                                ),
                                None => None,
                            },
                            None => None,
                        },
                    },
                },
            },
        },
    }
}

/// The items the materials yield, in order.
pub open spec fn items_of(ms: Seq<HistoryMaterial>) -> Seq<ExpectedItem>
    decreases ms.len(),
{
    if ms.len() == 0 {
        Seq::empty()
    } else {
        items_of(ms.drop_last()) + match expected_item(ms.last()) {
            Some(e) => seq![e],
            None => Seq::empty(),
        }
    }
}

fn new_item(
    m: &HistoryMaterial,
    send_role: MessageRole,
    rendered_content: StoredContent,
    source_kind: String,
    config_json: String,
) -> (it: GenerationContextItem)
    ensures
        it.sequence_no == m.sequence_no,
        it.send_role == send_role,
        it.rendered_content == rendered_content,
        it.source_kind == source_kind,
        it.config_json == config_json,
        sources_of(it) == no_sources(),
        it.included_in_request,
{
    GenerationContextItem {
        sequence_no: m.sequence_no,
        send_role,
        rendered_content,
        source_kind,
        source_message_node_id: None,
        source_message_version_id: None,
        source_summary_version_id: None,
        source_preset_entry_id: None,
        source_lorebook_entry_id: None,
        source_user_profile_id: None,
        source_agent_id: None,
        source_agent_greeting_id: None,
        source_tool_invocation_id: None,
        source_rag_ref_id: None,
        source_mcp_event_id: None,
        source_plugin_id: None,
        included_in_request: true,
        config_json,
    }
}

/// The role a stored name gives, the system's when there is no such name.
fn role_named(name: Option<String>) -> (r: MessageRole)
    ensures
        r == role_or_system(opt_view(name)),
{
    match name {
        Some(s) => if str_eq(s.as_str(), "system") {
            MessageRole::System
        } else if str_eq(s.as_str(), "user") {
            MessageRole::User
        } else if str_eq(s.as_str(), "assistant") {
            MessageRole::Assistant
        } else if str_eq(s.as_str(), "tool") {
            MessageRole::Tool
        } else {
            MessageRole::System
        },
        None => MessageRole::System,
    }
}

/// The item for a content reference of a message.
fn ref_context_item(m: &HistoryMaterial, p: &MessageContentRefView) -> (it: GenerationContextItem)
    ensures
        item_is(it, ref_item(m.sequence_no, *p)),
{
    let cfg = p.config_json.as_str();
    let mut it = new_item(
        m,
        role_named(string_member_of(cfg, "message_role")),
        p.content.duplicate(),
        ref_source_kind(p.ref_role.as_str(), p.content.content_type),
        p.config_json.clone(),
    );
    it.source_message_node_id = string_member_of(cfg, "message_node_id");
    it.source_message_version_id = string_member_of(cfg, "message_version_id");
    it.source_tool_invocation_id = string_member_of(cfg, "tool_invocation_id");
    it.source_rag_ref_id = string_member_of(cfg, "rag_ref_id");
    it.source_mcp_event_id = string_member_of(cfg, "mcp_event_id");
    it.source_plugin_id = match &p.plugin_id {
        Some(id) => Some(id.clone()),
        None => string_member_of(cfg, "plugin_id"),
    };
    it
}

/// The item a material yields, if any.
pub fn material_to_item(m: &HistoryMaterial) -> (r: Option<GenerationContextItem>)
    ensures
        match expected_item(*m) {
            Some(e) => r matches Some(it) && item_is(it, e),
            None => r is None,
        },
{
    if let Some(v) = &m.message_version {
        let content = match &m.summary_content {
            Some(c) => c.duplicate(),
            None => v.primary_content.duplicate(),
        };
        let mut it = new_item(m, v.role, content, m.source_kind.clone(), m.config_json.clone());
        it.source_message_node_id = Some(v.node_id.clone());
        it.source_message_version_id = Some(v.version_id.clone());
        it.source_summary_version_id = copy_opt(&m.summary_version_id);
        return Some(it);
    }
    if let Some(p) = &m.plugin_content {
        return Some(ref_context_item(m, p));
    }
    if let Some(e) = &m.preset_entry {
        let mut it = new_item(m, e.role, e.primary_content.duplicate(), m.source_kind.clone(), m.config_json.clone());
        it.source_preset_entry_id = Some(e.id.clone());
        return Some(it);
    }
    if let Some(e) = &m.lorebook_entry {
        let mut it = new_item(m, MessageRole::System, e.content.duplicate(), m.source_kind.clone(), m.config_json.clone());
        it.source_lorebook_entry_id = Some(e.lorebook_entry_id.clone());
        return Some(it);
    }
    if let Some(p) = &m.user_profile {
        return match &p.description_content {
            Some(d) => {
                let role = match p.injection_role {
                    Some(r) => r,
                    None => MessageRole::System,
                };
                let mut it = new_item(m, role, d.duplicate(), m.source_kind.clone(), m.config_json.clone());
                it.source_user_profile_id = Some(p.id.clone());
                Some(it)
            },
            None => None,
        };
    }
    if let Some(a) = &m.agent {
        return match resolve_agent_slot_content(a, m.config_json.as_str()) {
            Some(c) => {
                let slot = string_member_of(m.config_json.as_str(), "agent_slot");
                let is_note = match &slot {
                    Some(s) => str_eq(s.as_str(), "character_note"),
                    None => false,
                };
                let role = if is_note {
                    match a.character_note_role {
                        Some(r) => r,
                        None => MessageRole::System,
                    }
                } else {
                    MessageRole::System
                };
                let mut it = new_item(m, role, c, m.source_kind.clone(), m.config_json.clone());
                it.source_agent_id = Some(a.id.clone());
                Some(it)
            },
            None => None,
        };
    }
    None
}

/// The items of a generation context, one for each material that yields
/// one, in order; none is ever refused.
pub fn materialize_context_items(materials: &[HistoryMaterial]) -> (r: Result<Vec<GenerationContextItem>, AppError>)
    ensures
        r matches Ok(items) && items@.len() == items_of(materials@).len() && forall|k: int|
            0 <= k < items@.len() ==> item_is(#[trigger] items@[k], items_of(materials@)[k]),
{
    let mut items: Vec<GenerationContextItem> = Vec::new();
    let mut i: usize = 0;
    while i < materials.len()
        invariant
            i <= materials@.len(),
            items@.len() == items_of(materials@.take(i as int)).len(),
            forall|k: int| 0 <= k < items@.len() ==> item_is(#[trigger] items@[k], items_of(materials@.take(i as int))[k]),
        decreases materials.len() - i,
    {
        proof {
            assert(materials@.take(i + 1 as int).drop_last() =~= materials@.take(i as int));
            assert(materials@.take(i + 1 as int).last() == materials@[i as int]);
        }
        match material_to_item(&materials[i]) {
            Some(it) => {
                items.push(it);
            },
            None => {},
        }
        i = i + 1;
    }
    proof {
        assert(materials@.take(materials@.len() as int) =~= materials@);
    }
    Ok(items)
}

/// Pairs after each member is set in turn, under its key, to its value's text.
pub open spec fn put_members(acc: Seq<(Seq<char>, Seq<char>)>, ms: Seq<MemberText>) -> Seq<(Seq<char>, Seq<char>)>
    decreases ms.len(),
{
    if ms.len() == 0 {
        acc
    } else {
        put_members(put_header_spec(acc, ms[0].0, ms[0].2), ms.drop_first())
    }
}

/// The members of the object in `text`; none when it holds no object.
pub open spec fn object_members(text: Seq<char>) -> Seq<MemberText> {
    match json_object_members_of(text) {
        Some(ms) => ms,
        None => Seq::empty(),
    }
}

/// The request parameters of a generation: the members of the model's
/// default parameters, each replaced or joined by the members of the
/// parameters given for the run; what is not an object adds nothing.
pub open spec fn merged_parameters(defaults: Seq<char>, overrides: Option<Seq<char>>) -> Seq<char> {
    let base = put_members(Seq::empty(), object_members(defaults));
    json_value_object_of(
        match overrides {
            Some(o) => put_members(base, object_members(o)),
            None => base,
        },
    )
}

fn put_all_members(pairs: Vec<(String, String)>, text: &str) -> (r: Vec<(String, String)>)
    ensures
        string_pairs_view(r@) == put_members(string_pairs_view(pairs@), object_members(text@)),
{
    let ms: Vec<JsonMember> = match json_object_members(text) {
        Some(ms) => ms,
        None => Vec::new(),
    };
    let ghost all = members_view(ms@);
    proof {
        assert(all =~= object_members(text@));
    }
    let mut pairs = pairs;
    let ghost target = put_members(string_pairs_view(pairs@), all);
    let mut i: usize = 0;
    assert(all.subrange(0, all.len() as int) =~= all);
    while i < ms.len()
        invariant
            i <= ms@.len(),
            all == members_view(ms@),
            put_members(string_pairs_view(pairs@), all.subrange(i as int, all.len() as int)) == target,
        decreases ms.len() - i,
    {
        let ghost rest = all.subrange(i as int, all.len() as int);
        assert(rest[0] == (ms@[i as int].0@, opt_view(ms@[i as int].1), ms@[i as int].2@));
        assert(rest.drop_first() =~= all.subrange(i + 1, all.len() as int));
        proof {
            assert(string_pairs_view(pairs@) =~= crate::providers::common::headers_view(pairs@));
        }
        pairs = put_header(pairs, ms[i].0.clone(), ms[i].2.clone());
        proof {
            assert(string_pairs_view(pairs@) =~= crate::providers::common::headers_view(pairs@));
        }
        i = i + 1;
    }
    pairs
}

/// The request parameters of a generation: the model's default parameters
/// with those given for the run laid over them, member by member.
pub fn merge_request_parameters(defaults: &str, overrides: Option<&str>) -> (r: String)
    ensures
        r@ == merged_parameters(defaults@, match overrides {
            Some(o) => Some(o@),
            None => None,
        }),
{
    proof {
        assert(string_pairs_view(Seq::<(String, String)>::empty()) =~= Seq::empty());
    }
    let base = put_all_members(Vec::new(), defaults);
    let merged = match overrides {
        Some(o) => put_all_members(base, o),
        None => base,
    };
    json_value_object(merged.as_slice())
}

/// Materials numbered from 0 yield items whose numbers are those of their
/// materials, so they stay in the order of assembly: each number is below
/// the count of materials, and a later item has a larger number.
pub proof fn law_items_in_material_order(ms: Seq<HistoryMaterial>)
    requires
        forall|i: int| 0 <= i < ms.len() ==> (#[trigger] ms[i]).sequence_no == i,
    ensures
        forall|k: int| 0 <= k < items_of(ms).len() ==> 0 <= (#[trigger] items_of(ms)[k]).sequence_no < ms.len(),
        forall|a: int, b: int|
            0 <= a < b < items_of(ms).len() ==> (#[trigger] items_of(ms)[a]).sequence_no < (#[trigger] items_of(
                ms,
            )[b]).sequence_no,
    decreases ms.len(),
{
    if ms.len() > 0 {
        let d = ms.drop_last();
        assert forall|i: int| 0 <= i < d.len() implies (#[trigger] d[i]).sequence_no == i by {
            assert(d[i] == ms[i]);
        }
        law_items_in_material_order(d);
        let prev = items_of(d);
        let last = ms.last();
        assert(last.sequence_no == ms.len() - 1);
        match expected_item(last) {
            Some(e) => {
                assert(e.sequence_no == last.sequence_no);
                assert(items_of(ms) == prev + seq![e]);
                assert forall|k: int| 0 <= k < items_of(ms).len() implies 0 <= (#[trigger] items_of(ms)[k]).sequence_no
                    < ms.len() by {
                    if k < prev.len() {
                        assert(items_of(ms)[k] == prev[k]);
                    }
                }
                assert forall|a: int, b: int| 0 <= a < b < items_of(ms).len() implies (#[trigger] items_of(
                    ms,
                )[a]).sequence_no < (#[trigger] items_of(ms)[b]).sequence_no by {
                    assert(items_of(ms)[a] == prev[a]);
                    if b < prev.len() {
                        assert(items_of(ms)[b] == prev[b]);
                    }
                }
            },
            None => {
                assert(items_of(ms) =~= prev);
            },
        }
    }
}

} // verus!
