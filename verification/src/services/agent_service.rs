//! Agent management: names are trimmed and must not be blank, an empty
//! system prompt is stored as none, ids and times come from the service.

use vstd::prelude::*;

use crate::error::{fails_validation, AppError, ErrorKind};
use crate::models::agent::{Agent, AgentPatch, CreateAgentInput, NewAgent, UpdateAgentInput};
use crate::repo::agent_repo::AgentRepo;
use crate::services::channel_service::{opt_view, Clock};
use crate::services::outcome::{deleted_as, found_as, stored_as, deleted_or_missing, found_or_missing, missing_message, stored_or_failed};
use crate::support::new_uuid_v7;
use crate::text::{is_blank_seq, trim, trim_seq};

verus! {

/// A required text trimmed, or none when it is blank.
pub open spec fn required_text(value: Seq<char>) -> Option<Seq<char>> {
    if is_blank_seq(value) {
        None
    } else {
        Some(trim_seq(value))
    }
}

/// An optional text trimmed, none when absent or blank.
pub open spec fn optional_text(value: Option<Seq<char>>) -> Option<Seq<char>> {
    match value {
        Some(t) => if is_blank_seq(t) {
            None
        } else {
            Some(trim_seq(t))
        },
        None => None,
    }
}

/// The message of the error for a blank required field.
pub open spec fn empty_field_message(field: Seq<char>) -> Seq<char> {
    field + " must not be empty"@
}

/// Trims a required text field; a blank one is rejected with the field's name.
pub fn normalize_required_text(field_name: &str, value: &str) -> (r: Result<String, AppError>)
    ensures
        match required_text(value@) {
            Some(t) => r matches Ok(s) && s@ == t,
            None => fails_validation(r, "VALIDATION_ERROR"@, empty_field_message(field_name@)),
        },
{
    let trimmed = trim(value);
    if trimmed.as_str().unicode_len() == 0 {
        let mut message = String::from_str(field_name);
        message.append(" must not be empty");
        return Err(AppError::validation("VALIDATION_ERROR", message.as_str()));
    }
    Ok(trimmed)
}

/// Trims an optional text field; a blank one becomes none.
pub fn normalize_optional_text(value: Option<String>) -> (r: Option<String>)
    ensures
        opt_view(r) == optional_text(opt_view(value)),
{
    match value {
        Some(text) => {
            let trimmed = trim(text.as_str());
            if trimmed.as_str().unicode_len() == 0 {
                None
            } else {
                Some(trimmed)
            }
        },
        None => None,
    }
}

/// Whether `n` is the record stored for a new agent named `name`.
pub open spec fn is_new_agent_for(n: NewAgent, input: CreateAgentInput, id: Seq<char>, ts: i64) -> bool {
    &&& n.id@ == id
    &&& Some(n.name@) == required_text(input.name@)
    &&& opt_view(n.system_prompt) == optional_text(opt_view(input.system_prompt))
    &&& n.avatar_uri is None
    &&& n.enabled
    &&& n.created_at == ts
    &&& n.updated_at == ts
}

/// The record to store for a new agent: the name trimmed and not blank,
/// the system prompt trimmed or left out when blank, enabled, no avatar.
pub fn new_agent_record(input: CreateAgentInput, id: String, ts: i64) -> (r: Result<NewAgent, AppError>)
    ensures
        match required_text(input.name@) {
            Some(_) => r matches Ok(n) && is_new_agent_for(n, input, id@, ts),
            None => fails_validation(r, "VALIDATION_ERROR"@, empty_field_message("name"@)),
        },
{
    let name = match normalize_required_text("name", input.name.as_str()) {
        Ok(n) => n,
        Err(e) => return Err(e),
    };
    Ok(
        NewAgent {
            id,
            name,
            system_prompt: normalize_optional_text(input.system_prompt),
            avatar_uri: None,
            enabled: true,
            created_at: ts,
            updated_at: ts,
        },
    )
}

/// Whether `r` is what creating an agent from `input` gives, where `n` is
/// the record stored and `stored` storage's answer: a blank name is
/// refused and nothing is stored; otherwise `n` is the new agent record
/// (trimmed name, fresh id of 36 characters) and `r` is what storage made
/// of it.
pub open spec fn agent_created(input: CreateAgentInput, n: NewAgent, stored: Result<Agent, String>, r: Result<Agent, AppError>) -> bool {
    match required_text(input.name@) {
        None => fails_validation(r, "VALIDATION_ERROR"@, empty_field_message("name"@)),
        Some(_) => {
            &&& is_new_agent_for(n, input, n.id@, n.created_at)
            &&& n.id@.len() == 36
            &&& stored_as("failed to create agent: "@, stored, r)
        },
    }
}

/// Creates an agent from `input`, with a fresh id and the time from `clock`.
pub fn create_with<R: AgentRepo, C: Clock>(repo: &R, clock: &C, input: CreateAgentInput) -> (r: Result<Agent, AppError>)
    ensures
        is_blank_seq(input.name@) ==> fails_validation(r, "VALIDATION_ERROR"@, empty_field_message("name"@)),
        r matches Err(e) ==> (e.kind == ErrorKind::Validation || e.kind == ErrorKind::Internal),
        exists|n: NewAgent, stored: Result<Agent, String>| #[trigger] agent_created(input, n, stored, r),
{
    let ghost inp = input;
    let timestamp = clock.now_ms();
    let record = match new_agent_record(input, new_uuid_v7(), timestamp) {
        Ok(n) => n,
        Err(e) => {
            let r = Err(e);
            assert(agent_created(inp, vstd::pervasive::arbitrary(), vstd::pervasive::arbitrary(), r));
            return r;
        },
    };
    let stored = repo.insert(&record);
    let ghost answer = stored;
    let r = stored_or_failed("failed to create agent: ", stored);
    assert(agent_created(inp, record, answer, r));
    r
}

/// Lists the agents, disabled ones only when `include_disabled`.
pub fn list_with<R: AgentRepo>(repo: &R, include_disabled: bool) -> (r: Result<Vec<Agent>, AppError>)
    ensures
        r matches Err(e) ==> (e.kind == ErrorKind::Internal),
        exists|listed: Result<Vec<Agent>, String>| #[trigger] stored_as("failed to list agents: "@, listed, r),
{
    let listed = repo.list(include_disabled);
    let ghost answer = listed;
    let r = stored_or_failed("failed to list agents: ", listed);
    assert(stored_as("failed to list agents: "@, answer, r));
    r
}

/// The agent `id`.
pub fn get_with<R: AgentRepo>(repo: &R, id: &str) -> (r: Result<Agent, AppError>)
    ensures
        r matches Err(e) ==> (e.kind == ErrorKind::NotFound || e.kind == ErrorKind::Internal),
        crate::error::not_found_is(r, missing_message("agent"@, id@)),
        exists|found: Result<Option<Agent>, String>| #[trigger] found_as(
            "agent"@,
            id@,
            "failed to get agent: "@,
            found,
            r,
        ),
{
    let found = repo.get(id);
    let ghost answer = found;
    let r = found_or_missing("agent", id, "failed to get agent: ", found);
    assert(found_as("agent"@, id@, "failed to get agent: "@, answer, r));
    r
}

/// Whether `p` is the patch that `input` asks for at the time `ts`.
pub open spec fn is_agent_patch_for(p: AgentPatch, input: UpdateAgentInput, ts: i64) -> bool {
    &&& opt_view(p.name) == match input.name {
        Some(n) => required_text(n@),
        None => None,
    }
    &&& match (p.system_prompt, input.system_prompt) {
        (Some(a), Some(b)) => opt_view(a) == optional_text(opt_view(b)),
        (None, None) => true,
        _ => false,
    }
    &&& p.enabled == input.enabled
    &&& p.updated_at == ts
}

/// The patch that `input` asks for at the time `ts`; a given name must not be blank.
pub fn agent_patch(input: UpdateAgentInput, ts: i64) -> (r: Result<AgentPatch, AppError>)
    ensures
        match input.name {
            Some(n) if required_text(n@) is None => fails_validation(
                r,
                "VALIDATION_ERROR"@,
                empty_field_message("name"@),
            ),
            _ => r matches Ok(p) && is_agent_patch_for(p, input, ts),
        },
{
    let name = match &input.name {
        Some(value) => match normalize_required_text("name", value.as_str()) {
            Ok(n) => Some(n),
            Err(e) => return Err(e),
        },
        None => None,
    };
    let system_prompt = match input.system_prompt {
        Some(p) => Some(normalize_optional_text(p)),
        None => None,
    };
    Ok(AgentPatch { name, system_prompt, enabled: input.enabled, updated_at: ts })
}

/// Whether `r` is what updating the agent `id` with `input` gives, where
/// `p` is the patch sent and `updated` storage's answer: a blank new name
/// is refused and nothing is sent; otherwise `p` is the patch of `input`
/// and `r` the agent updated, not found, or the storage failure.
pub open spec fn agent_updated(id: Seq<char>, input: UpdateAgentInput, p: AgentPatch, updated: Result<Option<Agent>, String>, r: Result<Agent, AppError>) -> bool {
    if input.name matches Some(n) && required_text(n@) is None {
        fails_validation(r, "VALIDATION_ERROR"@, empty_field_message("name"@))
    } else {
        &&& is_agent_patch_for(p, input, p.updated_at)
        &&& found_as("agent"@, id, "failed to update agent: "@, updated, r)
    }
}

/// Updates the fields of the agent `id` that `input` gives.
pub fn update_with<R: AgentRepo, C: Clock>(repo: &R, clock: &C, id: &str, input: UpdateAgentInput) -> (r: Result<Agent, AppError>)
    ensures
        (input.name matches Some(n) && is_blank_seq(n@)) ==> fails_validation(
            r,
            "VALIDATION_ERROR"@,
            empty_field_message("name"@),
        ),
        crate::error::not_found_is(r, missing_message("agent"@, id@)),
        exists|p: AgentPatch, updated: Result<Option<Agent>, String>| #[trigger] agent_updated(id@, input, p, updated, r),
{
    let ghost inp = input;
    let patch = match agent_patch(input, clock.now_ms()) {
        Ok(p) => p,
        Err(e) => {
            let r = Err(e);
            assert(agent_updated(id@, inp, vstd::pervasive::arbitrary(), vstd::pervasive::arbitrary(), r));
            return r;
        },
    };
    let updated = repo.update(id, &patch);
    let ghost answer = updated;
    let r = found_or_missing("agent", id, "failed to update agent: ", updated);
    assert(agent_updated(id@, inp, patch, answer, r));
    r
}

/// Deletes the agent `id`.
pub fn delete_with<R: AgentRepo>(repo: &R, id: &str) -> (r: Result<(), AppError>)
    ensures
        r matches Err(e) ==> (e.kind == ErrorKind::NotFound || e.kind == ErrorKind::Internal),
        crate::error::not_found_is(r, missing_message("agent"@, id@)),
        exists|deleted: Result<bool, String>| #[trigger] deleted_as(
            "agent"@,
            id@,
            "failed to delete agent: "@,
            deleted,
            r,
        ),
{
    let deleted = repo.delete(id);
    let r = deleted_or_missing("agent", id, "failed to delete agent: ", deleted);
    assert(deleted_as("agent"@, id@, "failed to delete agent: "@, deleted, r));
    r
}

} // verus!
