//! Message rules: the text a user sends, the system prompt placed before the
//! conversation, the token estimate of a prompt preview, the storage
//! conflict that a concurrent insert causes, and what an edit, a reroll and
//! each attempt of a send write or decide.

use vstd::prelude::*;

use crate::error::{fails_internal, fails_not_found, fails_validation, is_internal, AppError};
use crate::models::agent::Agent;
use crate::models::channel::Channel;
use crate::models::conversation::Conversation;
use crate::models::message::{DeleteVersionResult, EditMessageInput, EditMessageResult, MessageNodeRecord, RerollResult, NewMessageContent, NewMessageNode, NewMessageVersion, PromptMessage, SendMessageResult, VersionMeta};
use crate::services::agent_service::required_text;
use crate::services::channel_service::opt_view;
use crate::services::outcome::{found_as, found_or_missing, missing_message};
use crate::text::{concat3, find, nowhere, push_signed_decimal, signed_decimal, signed_zero_padded, signed_zero_padded_decimal, str_eq, trim, zero_padded, zero_padded_decimal, digits_value, lemma_zero_padded_digits};

verus! {

/// The text a user sends, trimmed; a blank text is rejected.
pub fn normalize_message_content(value: &str) -> (r: Result<String, AppError>)
    ensures
        match required_text(value@) {
            Some(t) => r matches Ok(s) && s@ == t,
            None => fails_validation(r, "VALIDATION_ERROR"@, "content must not be empty"@),
        },
{
    let trimmed = trim(value);
    if trimmed.as_str().unicode_len() == 0 {
        return Err(AppError::validation("VALIDATION_ERROR", "content must not be empty"));
    }
    Ok(trimmed)
}

/// The number of bytes of `s` in UTF-8.
pub open spec fn utf8_len(s: Seq<char>) -> nat {
    vstd::utf8::encode_utf8(s).len()
}

/// The bytes of the roles and the contents of `messages`, in UTF-8.
pub open spec fn prompt_bytes(messages: Seq<PromptMessage>) -> nat
    decreases messages.len(),
{
    if messages.len() == 0 {
        0
    } else {
        prompt_bytes(messages.drop_last()) + utf8_len(messages.last().role@) + utf8_len(
            messages.last().content@,
        )
    }
}

/// A rough token count of a prompt: a quarter of its bytes, rounded up.
pub fn estimate_tokens(messages: &[PromptMessage]) -> (r: i64)
    requires
        prompt_bytes(messages@) + 3 <= i64::MAX,
        prompt_bytes(messages@) <= usize::MAX,
    ensures
        r == (prompt_bytes(messages@) + 3) / 4,
{
    let mut total: u64 = 0;
    let mut i: usize = 0;
    while i < messages.len()
        invariant
            i <= messages@.len(),
            total == prompt_bytes(messages@.take(i as int)),
            prompt_bytes(messages@) + 3 <= i64::MAX,
            prompt_bytes(messages@) <= usize::MAX,
        decreases messages.len() - i,
    {
        proof {
            lemma_prompt_bytes_prefix(messages@, i as int + 1);
            assert(messages@.take(i + 1 as int).drop_last() =~= messages@.take(i as int));
        }
        let role = messages[i].role.as_str();
        let content = messages[i].content.as_str();
        let role_len = role.len();
        let content_len = content.len();
        proof {
            assert(messages@.take(i + 1 as int).last() == messages@[i as int]);
            assert(role_len == utf8_len(messages@[i as int].role@));
            assert(content_len == utf8_len(messages@[i as int].content@));
        }
        total = total + role_len as u64 + content_len as u64;
        i = i + 1;
    }
    assert(messages@.take(messages@.len() as int) =~= messages@);
    ((total + 3) / 4) as i64
}

/// The bytes of a prefix of a prompt are at most those of the whole prompt.
pub proof fn lemma_prompt_bytes_prefix(messages: Seq<PromptMessage>, n: int)
    requires
        0 <= n <= messages.len(),
    ensures
        prompt_bytes(messages.take(n)) <= prompt_bytes(messages),
    decreases messages.len() - n,
{
    if n < messages.len() {
        lemma_prompt_bytes_prefix(messages, n + 1);
        assert(messages.take(n + 1).drop_last() =~= messages.take(n));
    } else {
        assert(messages.take(n) =~= messages);
    }
}

/// Whether a storage error reports a clash of the unique order key of a
/// conversation's messages.
pub open spec fn is_order_key_conflict_spec(error: Seq<char>) -> bool {
    &&& !nowhere(error, "message_nodes.conversation_id"@)
    &&& !nowhere(error, "message_nodes.order_key"@)
    &&& !nowhere(error, "UNIQUE"@)
}

/// Whether a storage error reports a clash of the unique order key.
pub fn is_order_key_conflict(error: &str) -> (r: bool)
    ensures
        r == is_order_key_conflict_spec(error@),
{
    find(error, "message_nodes.conversation_id").is_some() && find(error, "message_nodes.order_key").is_some()
        && find(error, "UNIQUE").is_some()
}

/// The system prompt of an agent that goes before the conversation, if it
/// has one that is not blank.
pub open spec fn system_prompt_of(agent: Agent) -> Option<Seq<char>> {
    match agent.system_prompt {
        Some(p) => required_text(p@),
        None => None,
    }
}

/// The role and content of a prompt message.
pub open spec fn prompt_view(m: PromptMessage) -> (Seq<char>, Seq<char>) {
    (m.role@, m.content@)
}

/// The prompt with the agent's system prompt, trimmed, placed first when it
/// has one that is not blank.
pub fn build_prompt_with_system(agent: &Agent, messages: Vec<PromptMessage>) -> (r: Vec<PromptMessage>)
    ensures
        match system_prompt_of(*agent) {
            Some(p) => r@.len() == messages@.len() + 1 && prompt_view(r@[0]) == ("system"@, p)
                && r@[0].images@.len() == 0 && r@.drop_first() == messages@,
            None => r@ == messages@,
        },
{
    let mut messages = messages;
    match &agent.system_prompt {
        Some(prompt) => {
            let trimmed = trim(prompt.as_str());
            if trimmed.as_str().unicode_len() > 0 {
                let ghost before = messages@;
                messages.insert(
                    0,
                    PromptMessage { role: String::from_str("system"), content: trimmed, images: Vec::new() },
                );
                assert(messages@.drop_first() =~= before);
            }
        },
        None => {},
    }
    messages
}

/// Checks that the version belongs to the node before it is made active.
pub fn check_version_in_node(node: &MessageNodeRecord, version: &VersionMeta) -> (r: Result<(), AppError>)
    ensures
        r is Ok <==> version.node_id@ == node.id@,
        r is Err ==> fails_validation(r, "VERSION_NOT_IN_NODE"@, "version does not belong to the node"@),
{
    if !str_eq(version.node_id.as_str(), node.id.as_str()) {
        return Err(AppError::version_not_in_node());
    }
    Ok(())
}

/// What deleting a version of a node does.
#[derive(Debug, Clone, PartialEq, Eq)]
pub struct VersionDeletionPlan {
    /// Whether a generation of the version is running and must be cancelled first.
    pub cancel_generation: bool,
    /// Whether the node's active version must be set to the fallback.
    pub restore_active: bool,
    /// The result reported: whether the node goes too, and the version shown after.
    pub result: DeleteVersionResult,
}

/// The version shown after deleting `deleted`: the node's active version
/// when another one is active; otherwise the last other version listed.
pub open spec fn fallback_after_delete(active: Option<Seq<char>>, deleted: Seq<char>, versions: Seq<VersionMeta>) -> Option<Seq<char>>
    decreases versions.len(),
{
    if active != Some(deleted) {
        active
    } else if versions.len() == 0 {
        None
    } else if versions.last().id@ != deleted {
        Some(versions.last().id@)
    } else {
        fallback_after_delete(active, deleted, versions.drop_last())
    }
}

pub(crate) fn last_other_version(versions: &[VersionMeta], deleted: &str) -> (r: Option<String>)
    ensures
        opt_view(r) == fallback_after_delete(Some(deleted@), deleted@, versions@),
{
    let mut j = versions.len();
    assert(versions@.take(j as int) =~= versions@);
    loop
        invariant
            j <= versions@.len(),
            fallback_after_delete(Some(deleted@), deleted@, versions@) == fallback_after_delete(
                Some(deleted@),
                deleted@,
                versions@.take(j as int),
            ),
        decreases j,
    {
        if j == 0 {
            return None;
        }
        assert(versions@.take(j as int).drop_last() =~= versions@.take(j - 1 as int));
        if !str_eq(versions[j - 1].id.as_str(), deleted) {
            return Some(versions[j - 1].id.clone());
        }
        j = j - 1;
    }
}

/// What deleting the version `version` of the node `node`, whose versions
/// are `versions`, does: the last version takes the node with it; otherwise
/// the active version stays, or, when the deleted one was active, the last
/// other version listed becomes active.
pub fn plan_version_deletion(node: &MessageNodeRecord, version: &VersionMeta, versions: &[VersionMeta]) -> (r: Result<VersionDeletionPlan, AppError>)
    ensures
        r is Ok <==> version.node_id@ == node.id@,
        version.node_id@ != node.id@ ==> fails_validation(r, "VERSION_NOT_IN_NODE"@, "version does not belong to the node"@),
        r matches Ok(p) ==> ({
            &&& version.node_id@ == node.id@
            &&& p.cancel_generation == (version.status@ == "generating"@)
            &&& p.result.node_deleted == (versions@.len() == 1)
            &&& versions@.len() == 1 ==> p.result.new_active_version_id is None && !p.restore_active
            &&& versions@.len() != 1 ==> opt_view(p.result.new_active_version_id) == fallback_after_delete(
                opt_view(node.active_version_id),
                version.id@,
                versions@,
            ) && p.restore_active == (opt_view(node.active_version_id) == Some(version.id@))
        }),
{
    match check_version_in_node(node, version) {
        Ok(()) => {},
        Err(e) => return Err(e),
    }
    let cancel_generation = str_eq(version.status.as_str(), "generating");
    if versions.len() == 1 {
        return Ok(
            VersionDeletionPlan {
                cancel_generation,
                restore_active: false,
                result: DeleteVersionResult { node_deleted: true, new_active_version_id: None },
            },
        );
    }
    let deleted_is_active = match &node.active_version_id {
        Some(a) => str_eq(a.as_str(), version.id.as_str()),
        None => false,
    };
    let fallback = if deleted_is_active {
        last_other_version(versions, version.id.as_str())
    } else {
        match &node.active_version_id {
            Some(a) => Some(a.clone()),
            None => None,
        }
    };
    Ok(
        VersionDeletionPlan {
            cancel_generation,
            restore_active: deleted_is_active,
            result: DeleteVersionResult { node_deleted: false, new_active_version_id: fallback },
        },
    )
}

/// The version shown after a deletion is never the deleted version.
pub proof fn law_fallback_is_not_deleted(active: Option<Seq<char>>, deleted: Seq<char>, versions: Seq<VersionMeta>)
    ensures
        fallback_after_delete(active, deleted, versions) != Some(deleted),
    decreases versions.len(),
{
    if active != Some(deleted) {
    } else if versions.len() == 0 {
    } else if versions.last().id@ != deleted {
    } else {
        law_fallback_is_not_deleted(active, deleted, versions.drop_last());
    }
}

/// The version shown after a deletion is one of the node's versions, or
/// the version that was active.
pub proof fn law_fallback_is_a_version(active: Option<Seq<char>>, deleted: Seq<char>, versions: Seq<VersionMeta>)
    ensures
        match fallback_after_delete(active, deleted, versions) {
            Some(id) => id == active->0 || exists|i: int| 0 <= i < versions.len() && #[trigger] versions[i].id@ == id,
            None => true,
        },
    decreases versions.len(),
{
    if active != Some(deleted) {
    } else if versions.len() == 0 {
    } else if versions.last().id@ != deleted {
        assert(versions[versions.len() - 1].id@ == versions.last().id@);
    } else {
        law_fallback_is_a_version(active, deleted, versions.drop_last());
        match fallback_after_delete(active, deleted, versions) {
            Some(id) => {
                if id != active->0 {
                    let i = choose|i: int| 0 <= i < versions.drop_last().len() && #[trigger] versions.drop_last()[i].id@ == id;
                    assert(versions[i].id@ == id);
                }
            },
            None => {},
        }
    }
}

/// What a reroll or a resend of a node generates.
#[derive(Debug, Clone, Copy, PartialEq, Eq, Structural)]
pub enum RerollKind {
    /// A new version of the assistant node itself.
    AssistantVersion,
    /// An assistant reply to the user node.
    UserFollowup,
}

/// The message of the error for a node of another role.
pub open spec fn unsupported_role_message(role: Seq<char>) -> Seq<char> {
    "unsupported node role '"@ + role + "'"@
}

/// What rerolling a node of role `role` generates: assistant nodes get a
/// new version, user nodes a reply; other roles are refused.
pub fn reroll_kind(role: &str) -> (r: Result<RerollKind, AppError>)
    ensures
        role@ == "assistant"@ ==> r == Ok::<RerollKind, AppError>(RerollKind::AssistantVersion),
        role@ == "user"@ ==> r == Ok::<RerollKind, AppError>(RerollKind::UserFollowup),
        role@ != "assistant"@ && role@ != "user"@ ==> fails_internal(r, unsupported_role_message(role@)),
{
    proof {
        reveal_strlit("assistant");
        reveal_strlit("user");
        assert("assistant"@.len() != "user"@.len());
    }
    if str_eq(role, "assistant") {
        Ok(RerollKind::AssistantVersion)
    } else if str_eq(role, "user") {
        Ok(RerollKind::UserFollowup)
    } else {
        Err(AppError::internal(concat3("unsupported node role '", role, "'").as_str()))
    }
}

/// A user message with the given text and no images.
pub open spec fn is_user_message(m: PromptMessage, content: Seq<char>) -> bool {
    prompt_view(m) == ("user"@, content) && m.images@.len() == 0
}

/// The prompt of a generation: the agent's system prompt, when it has one
/// that is not blank, then `history`, then, when there is one, the user
/// message `user_content`.
pub open spec fn is_prompt_for(r: Seq<PromptMessage>, agent: Agent, history: Seq<PromptMessage>, user_content: Option<Seq<char>>) -> bool {
    let start: int = if system_prompt_of(agent) is Some { 1 } else { 0 };
    let extra: int = if user_content is Some { 1 } else { 0 };
    &&& r.len() == start + history.len() + extra
    &&& system_prompt_of(agent) matches Some(p) ==> prompt_view(r[0]) == ("system"@, p) && r[0].images@.len() == 0
    &&& r.subrange(start, start + history.len()) == history
    &&& user_content matches Some(c) ==> is_user_message(r.last(), c)
}

/// The prompt with the system prompt placed first and, when `user_content`
/// is given, the user message placed last.
pub fn prompt_for(agent: &Agent, history: Vec<PromptMessage>, user_content: Option<String>) -> (r: Vec<PromptMessage>)
    ensures
        is_prompt_for(r@, *agent, history@, opt_view(user_content)),
{
    let ghost h = history@;
    let mut messages = build_prompt_with_system(agent, history);
    proof {
        match system_prompt_of(*agent) {
            Some(p) => assert(messages@.subrange(1, 1 + h.len() as int) =~= messages@.drop_first()),
            None => assert(messages@.subrange(0, h.len() as int) =~= messages@),
        }
    }
    let ghost before = messages@;
    match user_content {
        Some(content) => {
            messages.push(PromptMessage { role: String::from_str("user"), content, images: Vec::new() });
            proof {
                let start: int = if system_prompt_of(*agent) is Some { 1 } else { 0 };
                assert(messages@.subrange(start, start + h.len()) =~= before.subrange(start, start + h.len()));
                assert(messages@[0] == before[0] || before.len() == 0);
            }
        },
        None => {},
    }
    messages
}

/// The prompt of a reroll or a resend of a node: the history before the
/// node, and for a user node its text as the last user message.
pub fn reroll_prompt(agent: &Agent, history: Vec<PromptMessage>, kind: RerollKind, user_content: String) -> (r: Vec<PromptMessage>)
    ensures
        kind == RerollKind::AssistantVersion ==> is_prompt_for(r@, *agent, history@, None),
        kind == RerollKind::UserFollowup ==> is_prompt_for(r@, *agent, history@, Some(user_content@)),
{
    match kind {
        RerollKind::AssistantVersion => prompt_for(agent, history, None),
        RerollKind::UserFollowup => prompt_for(agent, history, Some(user_content)),
    }
}

/// The version to edit: the node's active version; a node without one is
/// an internal fault.
pub fn active_version_of(node: &MessageNodeRecord) -> (r: Result<String, AppError>)
    ensures
        match node.active_version_id {
            Some(id) => r matches Ok(v) && v@ == id@,
            None => fails_internal(r, "node has no active version"@),
        },
{
    match &node.active_version_id {
        Some(id) => Ok(id.clone()),
        None => Err(AppError::internal("node has no active version")),
    }
}

/// A version still being generated cannot be edited.
pub fn ensure_not_generating(version: &VersionMeta) -> (r: Result<(), AppError>)
    ensures
        r is Ok <==> version.status@ != "generating"@,
        r is Err ==> fails_validation(r, "MESSAGE_STILL_GENERATING"@, "cannot edit a generating version"@),
{
    if str_eq(version.status.as_str(), "generating") {
        return Err(AppError::validation("MESSAGE_STILL_GENERATING", "cannot edit a generating version"));
    }
    Ok(())
}

/// Where the reply to a user node goes: a new version of the assistant
/// node right after it, or a new assistant node inserted after it.
#[derive(Debug, Clone)]
pub enum FollowupTarget {
    /// The node that follows is an assistant node: it gets a new version.
    ReuseAssistant(MessageNodeRecord),
    /// A new assistant node is inserted right after the user node.
    InsertAfterUser,
}

/// The target of the reply to a user node, given the node that follows it.
pub fn followup_target(next_node: Option<MessageNodeRecord>) -> (r: FollowupTarget)
    ensures
        match next_node {
            Some(n) => if n.role@ == "assistant"@ {
                r matches FollowupTarget::ReuseAssistant(m) && m == n
            } else {
                r is InsertAfterUser
            },
            None => r is InsertAfterUser,
        },
{
    match next_node {
        Some(n) => {
            if str_eq(n.role.as_str(), "assistant") {
                FollowupTarget::ReuseAssistant(n)
            } else {
                FollowupTarget::InsertAfterUser
            }
        },
        None => FollowupTarget::InsertAfterUser,
    }
}

/// The position right after the first node with id `node_id`, where a new
/// node goes; a missing node is reported as not found.
pub fn insert_index_after(nodes: &[MessageNodeRecord], node_id: &str) -> (r: Result<usize, AppError>)
    ensures
        match r {
            Ok(i) => 1 <= i <= nodes@.len() && nodes@[i - 1].id@ == node_id@ && forall|j: int|
                0 <= j < i - 1 ==> (#[trigger] nodes@[j]).id@ != node_id@,
            Err(_) => (forall|j: int| 0 <= j < nodes@.len() ==> (#[trigger] nodes@[j]).id@ != node_id@)
                && fails_not_found(r, "node '"@ + node_id@ + "' not found"@),
        },
{
    let mut i: usize = 0;
    while i < nodes.len()
        invariant
            i <= nodes@.len(),
            forall|j: int| 0 <= j < i ==> (#[trigger] nodes@[j]).id@ != node_id@,
        decreases nodes.len() - i,
    {
        if str_eq(nodes[i].id.as_str(), node_id) {
            return Ok(i + 1);
        }
        i = i + 1;
    }
    Err(AppError::not_found(concat3("node '", node_id, "' not found").as_str()))
}

/// The id and the role of a node.
pub open spec fn node_slot(n: MessageNodeRecord) -> (Seq<char>, Seq<char>) {
    (n.id@, n.role@)
}

/// The ids and roles of a list of pairs.
pub open spec fn slots_view(v: Seq<(String, String)>) -> Seq<(Seq<char>, Seq<char>)> {
    v.map_values(|p: (String, String)| (p.0@, p.1@))
}

/// The order of the nodes, as (id, role) pairs, once the node `id` with
/// role `role` is inserted at `index`.
pub fn reindexed_order(nodes: &[MessageNodeRecord], index: usize, id: &str, role: &str) -> (r: Vec<(String, String)>)
    requires
        index <= nodes@.len(),
    ensures
        slots_view(r@) == nodes@.map_values(|n: MessageNodeRecord| node_slot(n)).take(index as int).push((id@, role@))
            + nodes@.map_values(|n: MessageNodeRecord| node_slot(n)).skip(index as int),
{
    let ghost all = nodes@.map_values(|n: MessageNodeRecord| node_slot(n));
    let mut r: Vec<(String, String)> = Vec::new();
    let mut i: usize = 0;
    while i < nodes.len()
        invariant
            i <= nodes@.len(),
            index <= nodes@.len(),
            all == nodes@.map_values(|n: MessageNodeRecord| node_slot(n)),
            i <= index ==> slots_view(r@) == all.take(i as int),
            i > index ==> slots_view(r@) == all.take(index as int).push((id@, role@)) + all.subrange(
                index as int,
                i as int,
            ),
        decreases nodes.len() - i,
    {
        if i == index {
            r.push((String::from_str(id), String::from_str(role)));
            assert(slots_view(r@) =~= all.take(index as int).push((id@, role@)));
        }
        let ghost before = r@;
        r.push((nodes[i].id.clone(), nodes[i].role.clone()));
        proof {
            assert(slots_view(r@) =~= slots_view(before).push(all[i as int]));
            if i + 1 <= index {
                assert(all.take(i + 1 as int) =~= all.take(i as int).push(all[i as int]));
            } else {
                assert(all.subrange(index as int, i + 1 as int) =~= all.subrange(index as int, i as int).push(
                    all[i as int],
                ));
                assert(all.take(index as int).push((id@, role@)) + all.subrange(index as int, i + 1 as int)
                    =~= (all.take(index as int).push((id@, role@)) + all.subrange(index as int, i as int)).push(
                    all[i as int],
                ));
            }
        }
        i = i + 1;
    }
    if index == nodes.len() {
        r.push((String::from_str(id), String::from_str(role)));
        assert(slots_view(r@) =~= all.take(index as int).push((id@, role@)));
    }
    assert(all.skip(index as int) =~= all.subrange(index as int, nodes@.len() as int));
    assert(all.take(index as int).push((id@, role@)) + all.skip(index as int) =~= slots_view(r@));
    r
}

/// How many times the records of a sent message are tried, each time with
/// fresh order keys.
pub const SEND_ATTEMPTS: usize = 3;

/// What follows a failed attempt to store the records of a sent message:
/// `None` (try again with fresh keys) when the order key clashed, else the
/// error to return.
pub fn after_failed_attempt(error: &str) -> (r: Option<AppError>)
    ensures
        (r is None) <==> is_order_key_conflict_spec(error@),
        r matches Some(e) ==> is_internal(e, "failed to create message records: "@ + error@),
{
    if is_order_key_conflict(error) {
        None
    } else {
        let mut message = String::from_str("failed to create message records: ");
        message.append(error);
        Some(AppError::internal(message.as_str()))
    }
}

/// The error once every attempt clashed.
pub fn attempts_exhausted() -> (e: AppError)
    ensures
        is_internal(e, "failed to allocate unique order_key after 3 attempts"@),
{
    AppError::internal("failed to allocate unique order_key after 3 attempts")
}

/// The agent, channel and model a conversation replies with; each must be set.
pub fn bound_ids(conversation: &Conversation) -> (r: Result<(String, String, String), AppError>)
    ensures
        match (conversation.agent_id, conversation.channel_id, conversation.channel_model_id) {
            (Some(a), Some(c), Some(m)) => r matches Ok(ids) && ids.0@ == a@ && ids.1@ == c@ && ids.2@ == m@,
            (None, _, _) => fails_validation(r, "NO_AGENT"@, "conversation has no agent"@),
            (Some(_), None, _) => fails_validation(r, "NO_CHANNEL"@, "conversation has no channel"@),
            (Some(_), Some(_), None) => fails_validation(r, "NO_MODEL"@, "conversation has no model"@),
        },
{
    let agent_id = match &conversation.agent_id {
        Some(a) => a.clone(),
        None => return Err(AppError::no_agent()),
    };
    let channel_id = match &conversation.channel_id {
        Some(c) => c.clone(),
        None => return Err(AppError::no_channel()),
    };
    let model_id = match &conversation.channel_model_id {
        Some(m) => m.clone(),
        None => return Err(AppError::no_model()),
    };
    Ok((agent_id, channel_id, model_id))
}

/// A reply needs an agent and a channel that are both switched on; the
/// agent is looked at first.
pub fn ensure_usable(agent: &Agent, channel: &Channel) -> (r: Result<(), AppError>)
    ensures
        r is Ok <==> agent.enabled && channel.enabled,
        !agent.enabled ==> fails_validation(r, "AGENT_DISABLED"@, "agent is disabled"@),
        agent.enabled && !channel.enabled ==> fails_validation(r, "CHANNEL_DISABLED"@, "channel is disabled"@),
{
    if !agent.enabled {
        return Err(AppError::agent_disabled());
    }
    if !channel.enabled {
        return Err(AppError::channel_disabled());
    }
    Ok(())
}

/// The order key a new assistant node holds until the conversation is
/// renumbered: `tmp-`, the time padded with zeros to sixteen characters,
/// `-` and the node id.
pub open spec fn insertion_key(timestamp: int, node_id: Seq<char>) -> Seq<char> {
    "tmp-"@ + signed_zero_padded(timestamp, 16) + "-"@ + node_id
}

/// The order key of a node inserted at `timestamp`, before renumbering.
pub fn insertion_order_key(timestamp: i64, node_id: &str) -> (r: String)
    ensures
        r@ == insertion_key(timestamp as int, node_id@),
{
    let mut key = String::from_str("tmp-");
    let padded = signed_zero_padded_decimal(timestamp, 16);
    key.append(padded.as_str());
    key.append("-");
    key.append(node_id);
    key
}

/// The key the node at `index` holds while the conversation is renumbered:
/// `tmp-reindex-`, the time, `-`, the index padded with zeros to four
/// digits, `-` and the node id.
pub open spec fn renumbering_key(timestamp: int, index: nat, node_id: Seq<char>) -> Seq<char> {
    "tmp-reindex-"@ + signed_decimal(timestamp) + "-"@ + zero_padded(index, 4) + "-"@ + node_id
}

/// The temporary keys of the nodes of `order`, as (id, key) pairs, for a
/// renumbering started at `timestamp`.
pub fn renumbering_keys(timestamp: i64, order: &[(String, String)]) -> (r: Vec<(String, String)>)
    ensures
        r@.len() == order@.len(),
        forall|i: int|
            0 <= i < r@.len() ==> (#[trigger] r@[i]).0@ == order@[i].0@ && r@[i].1@ == renumbering_key(
                timestamp as int,
                i as nat,
                order@[i].0@,
            ),
{
    let mut prefix = String::from_str("tmp-reindex-");
    push_signed_decimal(&mut prefix, timestamp);
    prefix.append("-");
    let mut r: Vec<(String, String)> = Vec::new();
    let mut i: usize = 0;
    while i < order.len()
        invariant
            i <= order@.len(),
            prefix@ == "tmp-reindex-"@ + signed_decimal(timestamp as int) + "-"@,
            r@.len() == i,
            forall|k: int|
                0 <= k < i ==> (#[trigger] r@[k]).0@ == order@[k].0@ && r@[k].1@ == renumbering_key(
                    timestamp as int,
                    k as nat,
                    order@[k].0@,
                ),
        decreases order.len() - i,
    {
        let mut key = prefix.clone();
        let index = zero_padded_decimal(i as u64, 4);
        key.append(index.as_str());
        key.append("-");
        key.append(order[i].0.as_str());
        r.push((order[i].0.clone(), key));
        i = i + 1;
    }
    r
}

/// While a conversation is renumbered, nodes at two different positions
/// never hold the same temporary key, whatever their ids: the index before
/// the id is made of digits and ends at the first `-`.
pub proof fn law_renumbering_keys_distinct(timestamp: int, i: nat, j: nat, a: Seq<char>, b: Seq<char>)
    requires
        i != j,
    ensures
        renumbering_key(timestamp, i, a) != renumbering_key(timestamp, j, b),
{
    reveal_strlit("-");
    let p = "tmp-reindex-"@ + signed_decimal(timestamp) + "-"@;
    let zi = zero_padded(i, 4);
    let zj = zero_padded(j, 4);
    lemma_zero_padded_digits(i, 4);
    lemma_zero_padded_digits(j, 4);
    let ri = zi + "-"@ + a;
    let rj = zj + "-"@ + b;
    let ki = renumbering_key(timestamp, i, a);
    let kj = renumbering_key(timestamp, j, b);
    assert(ki =~= p + ri);
    assert(kj =~= p + rj);
    if ki == kj {
        assert(ri =~= ki.subrange(p.len() as int, ki.len() as int));
        assert(rj =~= kj.subrange(p.len() as int, kj.len() as int));
        assert(ri == rj);
        if zi.len() < zj.len() {
            assert(ri[zi.len() as int] == '-');
            assert(rj[zi.len() as int] == zj[zi.len() as int]);
            assert('0' <= zj[zi.len() as int] <= '9');
        } else if zj.len() < zi.len() {
            assert(rj[zj.len() as int] == '-');
            assert(ri[zj.len() as int] == zi[zj.len() as int]);
            assert('0' <= zi[zj.len() as int] <= '9');
        } else {
            assert(zi =~= ri.subrange(0, zi.len() as int));
            assert(zj =~= rj.subrange(0, zj.len() as int));
            assert(digits_value(zi) == digits_value(zj));
        }
    }
}

/// The fresh ids of the records of a sent message.
#[derive(Debug, Clone, PartialEq, Eq)]
pub struct SendIds {
    pub user_node_id: String,
    pub user_version_id: String,
    pub user_content_id: String,
    pub assistant_node_id: String,
    pub assistant_version_id: String,
}

/// The records a sent message creates, all in one transaction: the user's
/// node, its committed version and its text, and the assistant's node with
/// a version that is generating; each node's active version set to its new
/// version; and the conversation touched.
#[derive(Debug, Clone, PartialEq, Eq)]
pub struct SendRecords {
    pub user_node: NewMessageNode,
    pub user_version: NewMessageVersion,
    pub user_content: NewMessageContent,
    pub assistant_node: NewMessageNode,
    pub assistant_version: NewMessageVersion,
    /// The active version set on the user node.
    pub user_activation: Activation,
    /// The active version set on the assistant node.
    pub assistant_activation: Activation,
    /// The conversation touched.
    pub touched_conversation_id: String,
    /// When it was touched.
    pub touched_at: i64,
}

/// The active version set on a node.
#[derive(Debug, Clone, PartialEq, Eq)]
pub struct Activation {
    pub node_id: String,
    pub version_id: String,
}

/// Whether `v` is a new version `id` of `node_id` with the given status and model.
pub open spec fn is_new_version(v: NewMessageVersion, id: Seq<char>, node_id: Seq<char>, status: Seq<char>, model: Option<Seq<char>>, ts: i64) -> bool {
    v.id@ == id && v.node_id@ == node_id && v.status@ == status && opt_view(v.model_name) == model && v.created_at == ts
}

/// Whether `c` is the first chunk `id` of version `version_id`, holding `body` of type `content_type`.
pub open spec fn is_first_chunk(c: NewMessageContent, id: Seq<char>, version_id: Seq<char>, content_type: Seq<char>, body: Seq<char>, ts: i64) -> bool {
    c.id@ == id && c.version_id@ == version_id && c.chunk_index == 0 && c.content_type@ == content_type && c.body@ == body
        && c.created_at == ts
}

/// Whether `n` is a new node `id` of the conversation with the given author, role and key.
pub open spec fn is_new_node(n: NewMessageNode, id: Seq<char>, conversation_id: Seq<char>, author: Option<Seq<char>>, role: Seq<char>, order_key: Seq<char>, ts: i64) -> bool {
    n.id@ == id && n.conversation_id@ == conversation_id && opt_view(n.author_agent_id) == author && n.role@ == role
        && n.order_key@ == order_key && n.created_at == ts
}

/// The records of a message `content` sent at `timestamp` to a conversation
/// whose agent `agent_id` replies with the model `model_id`.
pub fn send_message_records(
    conversation_id: &str,
    agent_id: &str,
    model_id: &str,
    content: &str,
    timestamp: i64,
    ids: &SendIds,
    user_order_key: String,
    assistant_order_key: String,
) -> (r: SendRecords)
    ensures
        is_new_node(r.user_node, ids.user_node_id@, conversation_id@, None, "user"@, user_order_key@, timestamp),
        is_new_version(r.user_version, ids.user_version_id@, ids.user_node_id@, "committed"@, None, timestamp),
        is_first_chunk(r.user_content, ids.user_content_id@, ids.user_version_id@, "text/plain"@, content@, timestamp),
        is_new_node(
            r.assistant_node,
            ids.assistant_node_id@,
            conversation_id@,
            Some(agent_id@),
            "assistant"@,
            assistant_order_key@,
            timestamp,
        ),
        is_new_version(
            r.assistant_version,
            ids.assistant_version_id@,
            ids.assistant_node_id@,
            "generating"@,
            Some(model_id@),
            timestamp,
        ),
        r.user_activation.node_id@ == ids.user_node_id@ && r.user_activation.version_id@ == ids.user_version_id@,
        r.assistant_activation.node_id@ == ids.assistant_node_id@ && r.assistant_activation.version_id@
            == ids.assistant_version_id@,
        r.touched_conversation_id@ == conversation_id@ && r.touched_at == timestamp,
{
    SendRecords {
        user_activation: Activation { node_id: ids.user_node_id.clone(), version_id: ids.user_version_id.clone() },
        assistant_activation: Activation {
            node_id: ids.assistant_node_id.clone(),
            version_id: ids.assistant_version_id.clone(),
        },
        touched_conversation_id: String::from_str(conversation_id),
        touched_at: timestamp,
        user_node: NewMessageNode {
            id: ids.user_node_id.clone(),
            conversation_id: String::from_str(conversation_id),
            author_agent_id: None,
            role: String::from_str("user"),
            order_key: user_order_key,
            created_at: timestamp,
        },
        user_version: NewMessageVersion {
            id: ids.user_version_id.clone(),
            node_id: ids.user_node_id.clone(),
            status: String::from_str("committed"),
            model_name: None,
            created_at: timestamp,
        },
        user_content: NewMessageContent {
            id: ids.user_content_id.clone(),
            version_id: ids.user_version_id.clone(),
            chunk_index: 0,
            content_type: String::from_str("text/plain"),
            body: String::from_str(content),
            created_at: timestamp,
        },
        assistant_node: NewMessageNode {
            id: ids.assistant_node_id.clone(),
            conversation_id: String::from_str(conversation_id),
            author_agent_id: Some(String::from_str(agent_id)),
            role: String::from_str("assistant"),
            order_key: assistant_order_key,
            created_at: timestamp,
        },
        assistant_version: NewMessageVersion {
            id: ids.assistant_version_id.clone(),
            node_id: ids.assistant_node_id.clone(),
            status: String::from_str("generating"),
            model_name: Some(String::from_str(model_id)),
            created_at: timestamp,
        },
    }
}

/// What a send reports: the ids of the two nodes and their versions.
pub fn send_result(ids: &SendIds) -> (r: SendMessageResult)
    ensures
        r.user_node_id@ == ids.user_node_id@,
        r.user_version_id@ == ids.user_version_id@,
        r.assistant_node_id@ == ids.assistant_node_id@,
        r.assistant_version_id@ == ids.assistant_version_id@,
{
    SendMessageResult {
        user_node_id: ids.user_node_id.clone(),
        user_version_id: ids.user_version_id.clone(),
        assistant_node_id: ids.assistant_node_id.clone(),
        assistant_version_id: ids.assistant_version_id.clone(),
    }
}

/// The version a reroll adds to an assistant node: generating, with the model.
pub fn reroll_version_record(version_id: String, node_id: &str, model_id: &str, timestamp: i64) -> (v: NewMessageVersion)
    ensures
        is_new_version(v, version_id@, node_id@, "generating"@, Some(model_id@), timestamp),
{
    NewMessageVersion {
        id: version_id,
        node_id: String::from_str(node_id),
        status: String::from_str("generating"),
        model_name: Some(String::from_str(model_id)),
        created_at: timestamp,
    }
}

/// The version an edit adds to a node, committed, and its one chunk of the
/// edited text, of the type of the content it replaces.
pub fn edited_version_records(
    version_id: String,
    content_id: String,
    node_id: &str,
    content: &str,
    content_type: &str,
    timestamp: i64,
) -> (r: (NewMessageVersion, NewMessageContent))
    ensures
        is_new_version(r.0, version_id@, node_id@, "committed"@, None, timestamp),
        is_first_chunk(r.1, content_id@, version_id@, content_type@, content@, timestamp),
{
    let version = NewMessageVersion {
        id: version_id.clone(),
        node_id: String::from_str(node_id),
        status: String::from_str("committed"),
        model_name: None,
        created_at: timestamp,
    };
    let chunk = NewMessageContent {
        id: content_id,
        version_id,
        chunk_index: 0,
        content_type: String::from_str(content_type),
        body: String::from_str(content),
        created_at: timestamp,
    };
    (version, chunk)
}


/// What an edit writes, all together or not at all: the new committed
/// version of the node with its one chunk, the node's active pointer moved
/// to that version, and whether a new reply is to be generated from it.
/// No other version or chunk is touched.
#[derive(Debug, Clone)]
pub struct EditPlan {
    pub version: NewMessageVersion,
    pub content: NewMessageContent,
    pub node_id: String,
    pub active_version_id: String,
    pub resend: bool,
    pub stream: bool,
    pub result: EditMessageResult,
}

/// Whether `p` is the plan of an edit of `node`, whose active content has
/// the type `content_type`, to the text `text`, with the new ids and time.
pub open spec fn is_edit_plan(
    p: EditPlan,
    node: MessageNodeRecord,
    content_type: Seq<char>,
    text: Seq<char>,
    input: EditMessageInput,
    version_id: Seq<char>,
    content_id: Seq<char>,
    ts: i64,
) -> bool {
    &&& is_new_version(p.version, version_id, node.id@, "committed"@, None, ts)
    &&& is_first_chunk(p.content, content_id, version_id, content_type, text, ts)
    &&& p.node_id@ == node.id@
    &&& p.active_version_id@ == version_id
    &&& p.resend == (input.resend == Some(true))
    &&& p.stream == (input.stream != Some(false))
    &&& p.result.edited_version_id@ == version_id
    &&& p.result.assistant_node_id is None
    &&& p.result.assistant_version_id is None
}

/// The edit of `node`, whose active version is `active` and whose active
/// content has the type `content_type`, to the text of `input`. A version
/// still generating is refused first; then a blank text. Either refusal
/// writes nothing. Otherwise the plan adds a committed version `version_id`
/// holding the trimmed text as its one chunk `content_id`, makes it the
/// active version of the node, and reports it; whether a reply is then
/// generated follows `resend`.
pub fn plan_edit(
    node: &MessageNodeRecord,
    active: &VersionMeta,
    content_type: &str,
    input: &EditMessageInput,
    version_id: String,
    content_id: String,
    timestamp: i64,
) -> (r: Result<EditPlan, AppError>)
    ensures
        active.status@ == "generating"@ ==> fails_validation(
            r,
            "MESSAGE_STILL_GENERATING"@,
            "cannot edit a generating version"@,
        ),
        active.status@ != "generating"@ ==> match required_text(input.content@) {
            None => fails_validation(r, "VALIDATION_ERROR"@, "content must not be empty"@),
            Some(t) => r matches Ok(p) && is_edit_plan(p, *node, content_type@, t, *input, version_id@, content_id@, timestamp),
        },
{
    if let Err(e) = ensure_not_generating(active) {
        return Err(e);
    }
    let text = match normalize_message_content(input.content.as_str()) {
        Ok(t) => t,
        Err(e) => return Err(e),
    };
    let (version, content) = edited_version_records(
        version_id.clone(),
        content_id,
        node.id.as_str(),
        text.as_str(),
        content_type,
        timestamp,
    );
    let resend = match input.resend {
        Some(b) => b,
        None => false,
    };
    let stream = match input.stream {
        Some(b) => b,
        None => true,
    };
    Ok(EditPlan {
        version,
        content,
        node_id: node.id.clone(),
        active_version_id: version_id.clone(),
        resend,
        stream,
        result: EditMessageResult { edited_version_id: version_id, assistant_node_id: None, assistant_version_id: None },
    })
}

/// What follows one attempt to store the records of a sent message.
#[derive(Debug, Clone)]
pub enum SendStep {
    /// The records were stored: the result to report.
    Committed(SendMessageResult),
    /// The order key clashed and attempts are left: try again with fresh ids and keys.
    Retry,
    /// The send fails with this error.
    Failed(AppError),
}

/// The step after attempt number `attempt` (from 0) whose transaction
/// ended with `outcome`, for the records with the ids `ids`.
pub open spec fn send_step_spec(attempt: int, ids: SendIds, outcome: Result<(), Seq<char>>, step: SendStep) -> bool {
    match outcome {
        Ok(()) => step matches SendStep::Committed(res) && res.user_node_id@ == ids.user_node_id@
            && res.user_version_id@ == ids.user_version_id@ && res.assistant_node_id@ == ids.assistant_node_id@
            && res.assistant_version_id@ == ids.assistant_version_id@,
        Err(e) => if !is_order_key_conflict_spec(e) {
            step matches SendStep::Failed(err) && is_internal(err, "failed to create message records: "@ + e)
        } else if attempt + 1 < SEND_ATTEMPTS {
            step is Retry
        } else {
            step matches SendStep::Failed(err) && is_internal(
                err,
                "failed to allocate unique order_key after 3 attempts"@,
            )
        },
    }
}

/// The step after attempt number `attempt` (from 0) of storing the records
/// of a sent message in one transaction, given how the transaction ended:
/// committed, retried with fresh keys while attempts are left after an
/// order-key clash, or failed.
pub fn after_send_attempt(attempt: usize, ids: &SendIds, outcome: &Result<(), String>) -> (r: SendStep)
    requires
        attempt < SEND_ATTEMPTS,
    ensures
        send_step_spec(
            attempt as int,
            *ids,
            match outcome {
                Ok(()) => Ok::<(), Seq<char>>(()),
                Err(e) => Err::<(), Seq<char>>(e@),
            },
            r,
        ),
{
    match outcome {
        Ok(()) => SendStep::Committed(send_result(ids)),
        Err(e) => match after_failed_attempt(e.as_str()) {
            Some(err) => SendStep::Failed(err),
            None => {
                if attempt + 1 < SEND_ATTEMPTS {
                    SendStep::Retry
                } else {
                    SendStep::Failed(attempts_exhausted())
                }
            },
        },
    }
}

/// Three order-key clashes in a row end a send with the error that no
/// unique order key could be found; a send never takes a fourth attempt.
pub proof fn law_send_gives_up_after_three_clashes(attempt: int, ids: SendIds, e: Seq<char>, step: SendStep)
    requires
        0 <= attempt,
        is_order_key_conflict_spec(e),
        send_step_spec(attempt, ids, Err(e), step),
    ensures
        attempt + 1 < SEND_ATTEMPTS ==> step is Retry,
        attempt + 1 >= SEND_ATTEMPTS ==> (step matches SendStep::Failed(err) && is_internal(
            err,
            "failed to allocate unique order_key after 3 attempts"@,
        )),
{
}


/// What a reroll of an assistant node writes, all together: a new version
/// that is generating with the model, made the node's active version, and
/// the conversation touched; and what the reroll reports.
#[derive(Debug, Clone)]
pub struct RerollPlan {
    pub version: NewMessageVersion,
    pub node_id: String,
    pub active_version_id: String,
    pub conversation_id: String,
    pub touched_at: i64,
    pub result: RerollResult,
}

/// What rerolling the node `node_id` of a conversation leads to.
#[derive(Debug, Clone)]
pub enum RerollStart {
    /// The node is an assistant node: this plan gives it a new version.
    Assistant(RerollPlan),
    /// The node is a user node: a reply to it is generated.
    UserFollowup(MessageNodeRecord),
}

/// Whether `p` is the reroll of the assistant node `node` of the
/// conversation with the model `model_id`, as the version `version_id` at `ts`.
pub open spec fn is_reroll_plan(p: RerollPlan, conversation_id: Seq<char>, node: MessageNodeRecord, model_id: Seq<char>, version_id: Seq<char>, ts: i64) -> bool {
    &&& is_new_version(p.version, version_id, node.id@, "generating"@, Some(model_id), ts)
    &&& p.node_id@ == node.id@
    &&& p.active_version_id@ == version_id
    &&& p.conversation_id@ == conversation_id
    &&& p.touched_at == ts
    &&& p.result.new_user_version_id is None
    &&& p.result.assistant_node_id@ == node.id@
    &&& p.result.assistant_version_id@ == version_id
}

/// The start of a reroll of the node `node_id`, given what storage answered
/// for it: a node that is missing, or could not be read, fails; an
/// assistant node gets a new generating version `version_id` with the model
/// `model_id`, made active; a user node gets a reply; another role is
/// refused.
pub fn plan_reroll(
    conversation_id: &str,
    node_id: &str,
    found: Result<Option<MessageNodeRecord>, String>,
    model_id: &str,
    version_id: String,
    timestamp: i64,
) -> (r: Result<RerollStart, AppError>)
    ensures
        match found {
            Ok(Some(node)) => if node.role@ == "assistant"@ {
                r matches Ok(RerollStart::Assistant(p)) && is_reroll_plan(p, conversation_id@, node, model_id@, version_id@, timestamp)
            } else if node.role@ == "user"@ {
                r matches Ok(RerollStart::UserFollowup(n)) && n == node
            } else {
                fails_internal(r, unsupported_role_message(node.role@))
            },
            Ok(None) => fails_not_found(r, missing_message("node"@, node_id@)),
            Err(s) => fails_internal(r, "failed to load node: "@ + s@),
        },
{
    let node = match found_or_missing("node", node_id, "failed to load node: ", found) {
        Ok(n) => n,
        Err(e) => return Err(e),
    };
    match reroll_kind(node.role.as_str()) {
        Err(e) => Err(e),
        Ok(RerollKind::UserFollowup) => Ok(RerollStart::UserFollowup(node)),
        Ok(RerollKind::AssistantVersion) => {
            let version = reroll_version_record(version_id.clone(), node.id.as_str(), model_id, timestamp);
            Ok(
                RerollStart::Assistant(
                    RerollPlan {
                        version,
                        node_id: node.id.clone(),
                        active_version_id: version_id.clone(),
                        conversation_id: String::from_str(conversation_id),
                        touched_at: timestamp,
                        result: RerollResult {
                            new_user_version_id: None,
                            assistant_node_id: node.id.clone(),
                            assistant_version_id: version_id,
                        },
                    },
                ),
            )
        },
    }
}

} // verus!
