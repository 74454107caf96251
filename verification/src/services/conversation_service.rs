//! Conversation management: titles are trimmed and default to "新会话", and
//! the agent, channel and model a conversation is bound to must exist and
//! be enabled.

use vstd::prelude::*;

use crate::error::{fails_internal, fails_not_found, fails_validation, AppError, ErrorKind};
use crate::models::agent::Agent;
use crate::models::Channel;
use crate::models::model::ChannelModel;
use crate::models::conversation::{Conversation, ConversationPatch, ConversationSummary, CreateConversationInput, NewConversation, UpdateConversationInput};
use crate::repo::agent_repo::AgentRepo;
use crate::repo::channel_repo::ChannelRepo;
use crate::repo::conversation_repo::ConversationRepo;
use crate::repo::model_repo::ModelRepo;
use crate::services::channel_service::{opt_view, Clock};
use crate::services::outcome::{deleted_as, found_as, stored_as, deleted_or_missing, found_or_missing, missing_message, stored_or_failed};
use crate::domain::copy_opt;
use crate::support::new_uuid_v7;
use crate::text::{concat3, is_blank_seq, str_eq, trim, trim_seq};

verus! {

/// The title of a conversation created without one.
pub open spec fn default_title() -> Seq<char> {
    "新会话"@
}

/// The title stored for an optional title: trimmed, the default when absent;
/// none when it is blank.
pub open spec fn title_spec(value: Option<Seq<char>>) -> Option<Seq<char>> {
    let raw = match value {
        Some(t) => t,
        None => default_title(),
    };
    if is_blank_seq(raw) {
        None
    } else {
        Some(trim_seq(raw))
    }
}

/// The title to store; a blank title is rejected.
pub fn normalize_title(value: Option<String>) -> (r: Result<String, AppError>)
    ensures
        match title_spec(opt_view(value)) {
            Some(t) => r matches Ok(s) && s@ == t,
            None => fails_validation(r, "VALIDATION_ERROR"@, "title must not be empty"@),
        },
{
    let raw = match value {
        Some(t) => t,
        None => String::from_str("新会话"),
    };
    let trimmed = trim(raw.as_str());
    if trimmed.as_str().unicode_len() == 0 {
        return Err(AppError::validation("VALIDATION_ERROR", "title must not be empty"));
    }
    Ok(trimmed)
}

/// The value of a field after a patch: a given value replaces it, a given
/// empty value clears it, no value keeps the current one.
pub open spec fn merged(current: Option<Seq<char>>, patch: Option<Option<Seq<char>>>) -> Option<Seq<char>> {
    match patch {
        Some(p) => p,
        None => current,
    }
}

/// The patch of one field as `(given, value)`: the value matters only when given.
pub open spec fn field_patch(set: bool, value: Option<String>) -> Option<Option<Seq<char>>> {
    if set {
        Some(opt_view(value))
    } else {
        None
    }
}

/// The value of a field after a patch.
pub fn merge_optional_patch(current: Option<&str>, patch: Option<&Option<String>>) -> (r: Option<String>)
    ensures
        opt_view(r) == merged(
            match current {
                Some(c) => Some(c@),
                None => None,
            },
            match patch {
                Some(p) => Some(opt_view(*p)),
                None => None,
            },
        ),
{
    match patch {
        Some(Some(value)) => Some(value.clone()),
        Some(None) => None,
        None => match current {
            Some(c) => Some(String::from_str(c)),
            None => None,
        },
    }
}

/// The text of an optional borrowed string.
pub open spec fn ref_view(o: Option<&str>) -> Option<Seq<char>> {
    match o {
        Some(s) => Some(s@),
        None => None,
    }
}

/// Whether `r` is what the lookup `found` of the agent `id` gives: the
/// storage failure, not found, refused when the agent is disabled, else
/// accepted.
pub open spec fn agent_checked(id: Seq<char>, found: Result<Option<Agent>, String>, r: Result<(), AppError>) -> bool {
    match found {
        Err(s) => fails_internal(r, "failed to load agent: "@ + s@),
        Ok(None) => fails_not_found(r, missing_message("agent"@, id)),
        Ok(Some(a)) => if a.enabled {
            r is Ok
        } else {
            fails_validation(r, "AGENT_DISABLED"@, "agent is disabled"@)
        },
    }
}

/// Whether `r` is what the lookup `found` of the channel `id` gives: the
/// storage failure, not found, refused when the channel is disabled, else
/// accepted.
pub open spec fn channel_checked(id: Seq<char>, found: Result<Option<Channel>, String>, r: Result<(), AppError>) -> bool {
    match found {
        Err(s) => fails_internal(r, "failed to load channel: "@ + s@),
        Ok(None) => fails_not_found(r, missing_message("channel"@, id)),
        Ok(Some(c)) => if c.enabled {
            r is Ok
        } else {
            fails_validation(r, "CHANNEL_DISABLED"@, "channel is disabled"@)
        },
    }
}

/// Whether `r` is what the lookup `found` of the model `id` of a channel
/// gives: the storage failure, not found, else accepted.
pub open spec fn model_checked(id: Seq<char>, found: Result<Option<ChannelModel>, String>, r: Result<(), AppError>) -> bool {
    match found {
        Err(s) => fails_internal(r, "failed to load model: "@ + s@),
        Ok(None) => fails_not_found(r, missing_message("model"@, id)),
        Ok(Some(_)) => r is Ok,
    }
}

/// The binding of an agent, given storage's answer to its lookup.
pub fn agent_binding(found: Result<Option<Agent>, String>, id: &str) -> (r: Result<(), AppError>)
    ensures
        agent_checked(id@, found, r),
{
    let agent = match found_or_missing("agent", id, "failed to load agent: ", found) {
        Ok(a) => a,
        Err(e) => return Err(e),
    };
    if !agent.enabled {
        return Err(AppError::agent_disabled());
    }
    Ok(())
}

/// The binding of a channel, given storage's answer to its lookup.
pub fn channel_binding(found: Result<Option<Channel>, String>, id: &str) -> (r: Result<(), AppError>)
    ensures
        channel_checked(id@, found, r),
{
    let channel = match found_or_missing("channel", id, "failed to load channel: ", found) {
        Ok(c) => c,
        Err(e) => return Err(e),
    };
    if !channel.enabled {
        return Err(AppError::channel_disabled());
    }
    Ok(())
}

/// The binding of a model of a channel, given storage's answer to its lookup.
pub fn model_binding(found: Result<Option<ChannelModel>, String>, id: &str) -> (r: Result<(), AppError>)
    ensures
        model_checked(id@, found, r),
{
    match found_or_missing("model", id, "failed to load model: ", found) {
        Ok(_) => Ok(()),
        Err(e) => Err(e),
    }
}

/// A model bound together with a channel must be one of that channel's
/// models.
pub fn model_belongs_to_channel(channel_id: &str, model: &ChannelModel) -> (r: Result<(), AppError>)
    ensures
        r is Ok <==> model.channel_id@ == channel_id@,
        r is Err ==> fails_validation(r, "VALIDATION_ERROR"@, "channel_model_id does not belong to channel_id"@),
{
    if str_eq(model.channel_id.as_str(), channel_id) {
        Ok(())
    } else {
        Err(AppError::validation("VALIDATION_ERROR", "channel_model_id does not belong to channel_id"))
    }
}

/// The message for a participant type that is not known.
pub open spec fn unsupported_participant_message(t: Seq<char>) -> Seq<char> {
    "unsupported participant_type '"@ + t + "'"@
}

/// Checks a participant of a conversation by its type: an agent names the
/// agent it is (returned, to be looked up), a human or the system needs
/// nothing, and any other type is refused.
pub fn check_participant(participant_type: &str, agent_id: Option<&str>) -> (r: Result<Option<String>, AppError>)
    ensures
        participant_type@ == "agent"@ ==> match agent_id {
            Some(a) => r matches Ok(Some(x)) && x@ == a@,
            None => fails_validation(r, "VALIDATION_ERROR"@, "agent participant requires agent_id"@),
        },
        (participant_type@ == "human"@ || participant_type@ == "system"@) ==> r matches Ok(None),
        !(participant_type@ == "agent"@ || participant_type@ == "human"@ || participant_type@ == "system"@)
            ==> fails_validation(r, "VALIDATION_ERROR"@, unsupported_participant_message(participant_type@)),
{
    proof {
        reveal_strlit("agent");
        reveal_strlit("human");
        reveal_strlit("system");
        assert("agent"@[0] != "human"@[0]);
        assert("agent"@.len() != "system"@.len());
    }
    if str_eq(participant_type, "agent") {
        match agent_id {
            Some(a) => Ok(Some(String::from_str(a))),
            None => Err(AppError::validation("VALIDATION_ERROR", "agent participant requires agent_id")),
        }
    } else if str_eq(participant_type, "human") || str_eq(participant_type, "system") {
        Ok(None)
    } else {
        let message = concat3("unsupported participant_type '", participant_type, "'");
        Err(AppError::validation("VALIDATION_ERROR", message.as_str()))
    }
}

/// Whether `r` is what checking the bindings `agent_id`, `channel_id` and
/// `channel_model_id` gives, where `fa`, `fc` and `fm` are storage's
/// answers to the lookups of the agent, the channel and the model (by the
/// channel and the model's id): the first that fails decides, in that
/// order (the agent, then the channel, then a model without a channel,
/// then the model); when none fails the bindings are accepted.
pub open spec fn bindings_checked(
    agent_id: Option<Seq<char>>,
    channel_id: Option<Seq<char>>,
    channel_model_id: Option<Seq<char>>,
    fa: Result<Option<Agent>, String>,
    fc: Result<Option<Channel>, String>,
    fm: Result<Option<ChannelModel>, String>,
    r: Result<(), AppError>,
) -> bool {
    if agent_id is Some && !(fa matches Ok(Some(a)) && a.enabled) {
        agent_checked(agent_id->0, fa, r)
    } else if channel_id is Some && !(fc matches Ok(Some(c)) && c.enabled) {
        channel_checked(channel_id->0, fc, r)
    } else if channel_model_id is Some && channel_id is None {
        fails_validation(r, "VALIDATION_ERROR"@, "channel_model_id requires channel_id"@)
    } else if channel_model_id is Some && !(fm matches Ok(Some(_))) {
        model_checked(channel_model_id->0, fm, r)
    } else {
        r is Ok
    }
}

/// Whether `r` can be what checking the bindings gives, for some answers
/// of storage to the lookups.
pub open spec fn bindings_check_allows(
    agent_id: Option<Seq<char>>,
    channel_id: Option<Seq<char>>,
    channel_model_id: Option<Seq<char>>,
    r: Result<(), AppError>,
) -> bool {
    exists|fa: Result<Option<Agent>, String>, fc: Result<Option<Channel>, String>, fm: Result<Option<ChannelModel>, String>|
        #[trigger] bindings_checked(agent_id, channel_id, channel_model_id, fa, fc, fm, r)
}

/// What checking the bindings gives for the given answers of storage to the
/// lookups of the agent, the channel and the model: the first that fails
/// decides, in that order, else the bindings are accepted.
pub fn bindings_outcome(
    agent_id: Option<&str>,
    channel_id: Option<&str>,
    channel_model_id: Option<&str>,
    fa: Result<Option<Agent>, String>,
    fc: Result<Option<Channel>, String>,
    fm: Result<Option<ChannelModel>, String>,
) -> (r: Result<(), AppError>)
    ensures
        bindings_checked(ref_view(agent_id), ref_view(channel_id), ref_view(channel_model_id), fa, fc, fm, r),
{
    let ghost ga = fa;
    let ghost gc = fc;
    let ghost gm = fm;
    match agent_id {
        Some(id) => {
            match agent_binding(fa, id) {
                Ok(()) => {},
                Err(e) => return Err(e),
            }
        },
        None => {},
    }
    match channel_id {
        Some(id) => {
            match channel_binding(fc, id) {
                Ok(()) => {},
                Err(e) => return Err(e),
            }
        },
        None => {},
    }
    match channel_model_id {
        Some(model_id) => {
            if channel_id.is_none() {
                return Err(AppError::validation("VALIDATION_ERROR", "channel_model_id requires channel_id"));
            }
            model_binding(fm, model_id)
        },
        None => Ok(()),
    }
}

/// Checks that the agent and the channel given exist and are enabled, and
/// that a given model belongs to the given channel: it looks up what is
/// given, in that order, stops at the first binding that fails, and gives
/// what `bindings_outcome` gives for the answers storage gave.
pub fn validate_bindings<AR: AgentRepo, CHR: ChannelRepo, MR: ModelRepo>(
    agent_repo: &AR,
    channel_repo: &CHR,
    model_repo: &MR,
    agent_id: Option<&str>,
    channel_id: Option<&str>,
    channel_model_id: Option<&str>,
) -> (r: Result<(), AppError>)
    ensures
        agent_id is None && channel_id is None && channel_model_id is None ==> (r is Ok),
        channel_model_id is Some && channel_id is None && agent_id is None ==> fails_validation(
            r,
            "VALIDATION_ERROR"@,
            "channel_model_id requires channel_id"@,
        ),
        r matches Err(e) ==> (e.kind == ErrorKind::Validation || e.kind == ErrorKind::NotFound
            || e.kind == ErrorKind::Internal),
        bindings_check_allows(ref_view(agent_id), ref_view(channel_id), ref_view(channel_model_id), r),
{
    let ghost aid = ref_view(agent_id);
    let ghost cid = ref_view(channel_id);
    let ghost mid = ref_view(channel_model_id);
    let ghost mut fa: Result<Option<Agent>, String> = Ok(None);
    let ghost mut fc: Result<Option<Channel>, String> = Ok(None);
    let ghost mut fm: Result<Option<ChannelModel>, String> = Ok(None);
    match agent_id {
        Some(id) => {
            let found = agent_repo.get(id);
            proof {
                fa = found;
            }
            match agent_binding(found, id) {
                Ok(()) => {},
                Err(e) => {
                    let r = Err(e);
                    assert(bindings_checked(aid, cid, mid, fa, fc, fm, r));
                    return r;
                },
            }
        },
        None => {},
    }
    match channel_id {
        Some(id) => {
            let found = channel_repo.get(id);
            proof {
                fc = found;
            }
            match channel_binding(found, id) {
                Ok(()) => {},
                Err(e) => {
                    let r = Err(e);
                    assert(bindings_checked(aid, cid, mid, fa, fc, fm, r));
                    return r;
                },
            }
        },
        None => {},
    }
    match channel_model_id {
        Some(model_id) => {
            let channel = match channel_id {
                Some(c) => c,
                None => {
                    let r = Err(AppError::validation("VALIDATION_ERROR", "channel_model_id requires channel_id"));
                    assert(bindings_checked(aid, cid, mid, fa, fc, fm, r));
                    return r;
                },
            };
            let found = model_repo.get_by_channel_and_id(channel, model_id);
            proof {
                fm = found;
            }
            match model_binding(found, model_id) {
                Ok(()) => {},
                Err(e) => {
                    let r = Err(e);
                    assert(bindings_checked(aid, cid, mid, fa, fc, fm, r));
                    return r;
                },
            }
        },
        None => {},
    }
    let r = Ok(());
    assert(bindings_checked(aid, cid, mid, fa, fc, fm, r));
    r
}

fn as_str_opt(o: &Option<String>) -> (r: Option<&str>)
    ensures
        match r {
            Some(s) => o matches Some(t) && s@ == t@,
            None => (o is None),
        },
{
    match o {
        Some(s) => Some(s.as_str()),
        None => None,
    }
}

/// Whether `n` is the record stored for a new conversation `id` created
/// from `input` at the time `ts` with the title `title`: the bindings as
/// given, neither archived nor pinned, created and updated at `ts`.
pub open spec fn is_new_conversation_for(n: NewConversation, input: CreateConversationInput, id: Seq<char>, title: Seq<char>, ts: i64) -> bool {
    &&& n.id@ == id
    &&& n.title@ == title
    &&& opt_view(n.agent_id) == opt_view(input.agent_id)
    &&& opt_view(n.channel_id) == opt_view(input.channel_id)
    &&& opt_view(n.channel_model_id) == opt_view(input.channel_model_id)
    &&& !n.archived
    &&& !n.pinned
    &&& n.created_at == ts
    &&& n.updated_at == ts
}

/// The record of a new conversation `id` at the time `ts`: the title
/// trimmed (the default when none is given), refused when blank.
pub fn new_conversation_record(input: CreateConversationInput, id: String, ts: i64) -> (r: Result<NewConversation, AppError>)
    ensures
        match title_spec(opt_view(input.title)) {
            Some(t) => r matches Ok(n) && is_new_conversation_for(n, input, id@, t, ts),
            None => fails_validation(r, "VALIDATION_ERROR"@, "title must not be empty"@),
        },
{
    let title = match normalize_title(input.title) {
        Ok(t) => t,
        Err(e) => return Err(e),
    };
    Ok(NewConversation {
        id,
        title,
        agent_id: input.agent_id,
        channel_id: input.channel_id,
        channel_model_id: input.channel_model_id,
        archived: false,
        pinned: false,
        created_at: ts,
        updated_at: ts,
    })
}

/// Whether `r` is what creating a conversation from `input` gives, given
/// the answers of the check of its bindings and of storage: the check's
/// error, else a blank title refused, else what the insert gave.
pub open spec fn conversation_created(
    input: CreateConversationInput,
    check: Result<(), AppError>,
    stored: Result<Conversation, String>,
    r: Result<Conversation, AppError>,
) -> bool {
    &&& bindings_check_allows(opt_view(input.agent_id), opt_view(input.channel_id), opt_view(input.channel_model_id), check)
    &&& match check {
        Err(e) => r == Err::<Conversation, AppError>(e),
        Ok(()) => match title_spec(opt_view(input.title)) {
            Some(_) => stored_as("failed to create conversation: "@, stored, r),
            None => fails_validation(r, "VALIDATION_ERROR"@, "title must not be empty"@),
        },
    }
}

/// Creates a conversation, neither archived nor pinned, after checking its bindings.
pub fn create_with<CR: ConversationRepo, AR: AgentRepo, CHR: ChannelRepo, MR: ModelRepo, C: Clock>(
    conversation_repo: &CR,
    agent_repo: &AR,
    channel_repo: &CHR,
    model_repo: &MR,
    clock: &C,
    input: CreateConversationInput,
) -> (r: Result<Conversation, AppError>)
    ensures
        title_spec(opt_view(input.title)) is None ==> (r is Err),
        input.agent_id is None && input.channel_id is None && input.channel_model_id is None
            && title_spec(opt_view(input.title)) is None ==> fails_validation(
            r,
            "VALIDATION_ERROR"@,
            "title must not be empty"@,
        ),
        exists|check: Result<(), AppError>, stored: Result<Conversation, String>|
            #[trigger] conversation_created(input, check, stored, r),
{
    let check = validate_bindings(
        agent_repo,
        channel_repo,
        model_repo,
        as_str_opt(&input.agent_id),
        as_str_opt(&input.channel_id),
        as_str_opt(&input.channel_model_id),
    );
    let ghost check_answer = check;
    match check {
        Ok(()) => {},
        Err(e) => {
            let r = Err(e);
            assert(conversation_created(input, check_answer, vstd::pervasive::arbitrary(), r));
            return r;
        },
    }
    let ghost input_value = input;
    let timestamp = clock.now_ms();
    let record = match new_conversation_record(input, new_uuid_v7(), timestamp) {
        Ok(n) => n,
        Err(e) => {
            let r = Err(e);
            assert(conversation_created(input_value, check_answer, vstd::pervasive::arbitrary(), r));
            return r;
        },
    };
    let stored = conversation_repo.insert(&record);
    let ghost stored_answer = stored;
    let r = stored_or_failed("failed to create conversation: ", stored);
    assert(conversation_created(input_value, check_answer, stored_answer, r));
    r
}

/// Lists the archived conversations, or those that are not archived.
pub fn list_with<CR: ConversationRepo>(repo: &CR, archived: bool) -> (r: Result<Vec<ConversationSummary>, AppError>)
    ensures
        r matches Err(e) ==> (e.kind == ErrorKind::Internal),
        exists|listed: Result<Vec<ConversationSummary>, String>| #[trigger] stored_as(
            "failed to list conversations: "@,
            listed,
            r,
        ),
{
    let listed = repo.list(archived);
    let ghost answer = listed;
    let r = stored_or_failed("failed to list conversations: ", listed);
    assert(stored_as("failed to list conversations: "@, answer, r));
    r
}

/// The conversation `id`.
pub fn get_with<CR: ConversationRepo>(repo: &CR, id: &str) -> (r: Result<Conversation, AppError>)
    ensures
        r matches Err(e) ==> (e.kind == ErrorKind::NotFound || e.kind == ErrorKind::Internal),
        crate::error::not_found_is(r, missing_message("conversation"@, id@)),
        exists|found: Result<Option<Conversation>, String>| #[trigger] found_as(
            "conversation"@,
            id@,
            "failed to get conversation: "@,
            found,
            r,
        ),
{
    let found = repo.get(id);
    let ghost answer = found;
    let r = found_or_missing("conversation", id, "failed to get conversation: ", found);
    assert(found_as("conversation"@, id@, "failed to get conversation: "@, answer, r));
    r
}

fn patch_field(set: bool, value: Option<String>) -> (r: Option<Option<String>>)
    ensures
        match r {
            Some(v) => field_patch(set, value) == Some(opt_view(v)),
            None => (field_patch(set, value) is None),
        },
{
    if set {
        Some(value)
    } else {
        None
    }
}

/// Whether `p` is the patch that `input` asks for at the time `ts`.
pub open spec fn is_conversation_patch_for(p: ConversationPatch, input: UpdateConversationInput, title: Option<Seq<char>>, ts: i64) -> bool {
    &&& opt_view(p.title) == title
    &&& match p.agent_id {
        Some(v) => field_patch(input.agent_id_set, input.agent_id) == Some(opt_view(v)),
        None => !input.agent_id_set,
    }
    &&& match p.channel_id {
        Some(v) => field_patch(input.channel_id_set, input.channel_id) == Some(opt_view(v)),
        None => !input.channel_id_set,
    }
    &&& match p.channel_model_id {
        Some(v) => field_patch(input.channel_model_id_set, input.channel_model_id) == Some(opt_view(v)),
        None => !input.channel_model_id_set,
    }
    &&& p.archived == input.archived
    &&& p.pinned == input.pinned
    &&& p.updated_at == ts
}

/// The patch that `input` asks for at the time `ts`: a given title trimmed
/// and not blank, each binding given or cleared as flagged.
pub fn conversation_patch(input: UpdateConversationInput, ts: i64) -> (r: Result<ConversationPatch, AppError>)
    ensures
        match input.title {
            Some(t) => match title_spec(Some(t@)) {
                Some(title) => r matches Ok(p) && is_conversation_patch_for(p, input, Some(title), ts),
                None => fails_validation(r, "VALIDATION_ERROR"@, "title must not be empty"@),
            },
            None => r matches Ok(p) && is_conversation_patch_for(p, input, None, ts),
        },
{
    let title = match &input.title {
        Some(t) => match normalize_title(Some(t.clone())) {
            Ok(t) => Some(t),
            Err(e) => return Err(e),
        },
        None => None,
    };
    Ok(
        ConversationPatch {
            title,
            agent_id: patch_field(input.agent_id_set, input.agent_id),
            channel_id: patch_field(input.channel_id_set, input.channel_id),
            channel_model_id: patch_field(input.channel_model_id_set, input.channel_model_id),
            archived: input.archived,
            pinned: input.pinned,
            updated_at: ts,
        },
    )
}

/// Whether `r` is what updating the conversation `id` gives, given the
/// answers of storage and of the check of bindings: the conversation is
/// loaded; the bindings it would have after the update are checked; a given
/// title must not be blank; then the update is stored.
pub open spec fn conversation_updated(
    id: Seq<char>,
    input: UpdateConversationInput,
    loaded: Result<Option<Conversation>, String>,
    check: Result<(), AppError>,
    updated: Result<Option<Conversation>, String>,
    r: Result<Conversation, AppError>,
) -> bool {
    match loaded {
        Ok(Some(c)) => {
            &&& bindings_check_allows(
                merged(opt_view(c.agent_id), field_patch(input.agent_id_set, input.agent_id)),
                merged(opt_view(c.channel_id), field_patch(input.channel_id_set, input.channel_id)),
                merged(opt_view(c.channel_model_id), field_patch(input.channel_model_id_set, input.channel_model_id)),
                check,
            )
            &&& match check {
                Err(e) => r == Err::<Conversation, AppError>(e),
                Ok(()) => if input.title matches Some(t) && title_spec(Some(t@)) is None {
                    fails_validation(r, "VALIDATION_ERROR"@, "title must not be empty"@)
                } else {
                    found_as("conversation"@, id, "failed to update conversation: "@, updated, r)
                },
            }
        },
        _ => found_as("conversation"@, id, "failed to load conversation: "@, loaded, r),
    }
}

/// Updates the fields of the conversation `id` that `input` gives, after
/// checking the bindings it would have; a given title must not be blank.
pub fn update_with<CR: ConversationRepo, AR: AgentRepo, CHR: ChannelRepo, MR: ModelRepo, C: Clock>(
    conversation_repo: &CR,
    agent_repo: &AR,
    channel_repo: &CHR,
    model_repo: &MR,
    clock: &C,
    id: &str,
    input: UpdateConversationInput,
) -> (r: Result<Conversation, AppError>)
    ensures
        r matches Err(e) ==> (e.kind == ErrorKind::Validation || e.kind == ErrorKind::NotFound
            || e.kind == ErrorKind::Internal),
        exists|
            loaded: Result<Option<Conversation>, String>,
            check: Result<(), AppError>,
            updated: Result<Option<Conversation>, String>,
        | #[trigger] conversation_updated(id@, input, loaded, check, updated, r),
{
    let loaded = conversation_repo.get(id);
    let ghost loaded_answer = loaded;
    let current = match found_or_missing("conversation", id, "failed to load conversation: ", loaded) {
        Ok(c) => c,
        Err(e) => {
            let r = Err(e);
            assert(conversation_updated(
                id@,
                input,
                loaded_answer,
                vstd::pervasive::arbitrary(),
                vstd::pervasive::arbitrary(),
                r,
            ));
            return r;
        },
    };
    let agent_patch = patch_field(input.agent_id_set, copy_opt(&input.agent_id));
    let channel_patch = patch_field(input.channel_id_set, copy_opt(&input.channel_id));
    let model_patch = patch_field(input.channel_model_id_set, copy_opt(&input.channel_model_id));
    let next_agent_id = merge_optional_patch(as_str_opt(&current.agent_id), agent_patch.as_ref());
    let next_channel_id = merge_optional_patch(as_str_opt(&current.channel_id), channel_patch.as_ref());
    let next_channel_model_id = merge_optional_patch(as_str_opt(&current.channel_model_id), model_patch.as_ref());
    let check = validate_bindings(
        agent_repo,
        channel_repo,
        model_repo,
        as_str_opt(&next_agent_id),
        as_str_opt(&next_channel_id),
        as_str_opt(&next_channel_model_id),
    );
    let ghost check_answer = check;
    match check {
        Ok(()) => {},
        Err(e) => {
            let r = Err(e);
            assert(conversation_updated(id@, input, loaded_answer, check_answer, vstd::pervasive::arbitrary(), r));
            return r;
        },
    }
    let ghost input_value = input;
    let patch = match conversation_patch(input, clock.now_ms()) {
        Ok(p) => p,
        Err(e) => {
            let r = Err(e);
            assert(conversation_updated(id@, input_value, loaded_answer, check_answer, vstd::pervasive::arbitrary(), r));
            return r;
        },
    };
    let updated = conversation_repo.update(id, &patch);
    let ghost updated_answer = updated;
    let r = found_or_missing("conversation", id, "failed to update conversation: ", updated);
    assert(conversation_updated(id@, input_value, loaded_answer, check_answer, updated_answer, r));
    r
}

/// Deletes the conversation `id`.
pub fn delete_with<CR: ConversationRepo>(repo: &CR, id: &str) -> (r: Result<(), AppError>)
    ensures
        r matches Err(e) ==> (e.kind == ErrorKind::NotFound || e.kind == ErrorKind::Internal),
        crate::error::not_found_is(r, missing_message("conversation"@, id@)),
        exists|deleted: Result<bool, String>| #[trigger] deleted_as(
            "conversation"@,
            id@,
            "failed to delete conversation: "@,
            deleted,
            r,
        ),
{
    let deleted = repo.delete(id);
    let r = deleted_or_missing("conversation", id, "failed to delete conversation: ", deleted);
    assert(deleted_as("conversation"@, id@, "failed to delete conversation: "@, deleted, r));
    r
}

} // verus!
