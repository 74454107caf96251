//! Management of the models of a channel: each operation first checks that
//! the channel exists; model identifiers are trimmed and unique per channel.

use vstd::prelude::*;

use crate::error::{fails_internal, fails_validation, fails_not_found, is_error, AppError, ErrorKind};
use crate::models::model::{ChannelModel, ChannelModelPatch, CreateModelInput, NewChannelModel, RemoteModelInfo, UpdateModelInput};
use crate::models::Channel;
use crate::repo::channel_repo::ChannelRepo;
use crate::repo::model_repo::ModelRepo;
use crate::services::agent_service::optional_text;
use crate::services::channel_service::{channel_found, channel_not_found_message, get_with as get_channel_with, opt_view};
use crate::services::outcome::{deleted_as, found_as, stored_as, deleted_or_missing, found_or_missing, missing, missing_message, storage_failure, stored_or_failed};
use crate::support::new_uuid_v7;
use crate::text::{concat3, is_blank_seq, trim, trim_seq};

pub mod validation;

use self::validation::{normalize_optional_text, validate_model_id};

verus! {

/// Something that can read the model catalogue of a channel from its provider.
pub trait ModelCatalog {
    /// The models the provider of `channel` offers.
    fn fetch_remote_models(&self, channel: &Channel) -> Result<Vec<RemoteModelInfo>, AppError>;
}

/// Whether `r` fails as storage's answer `present`, when it is not that
/// the channel `channel_id` exists, makes an operation on it fail: not
/// found, or an internal error.
pub open spec fn channel_failure_as<T>(channel_id: Seq<char>, present: Result<bool, String>, r: Result<T, AppError>) -> bool {
    match present {
        Ok(true) => false,
        Ok(false) => fails_not_found(r, missing_message("channel"@, channel_id)),
        Err(s) => fails_internal(r, "failed to load channel: "@ + s@),
    }
}

/// Whether `r` is what storage's answer `present` gives when asked whether
/// the channel `channel_id` exists.
pub open spec fn channel_checked(channel_id: Seq<char>, present: Result<bool, String>, r: Result<(), AppError>) -> bool {
    if present == Ok::<bool, String>(true) {
        r is Ok
    } else {
        channel_failure_as(channel_id, present, r)
    }
}

/// The result of checking that the channel exists.
pub fn channel_exists_outcome(channel_id: &str, present: Result<bool, String>) -> (r: Result<(), AppError>)
    ensures
        channel_checked(channel_id@, present, r),
{
    match present {
        Ok(true) => Ok(()),
        Ok(false) => Err(missing("channel", channel_id)),
        Err(s) => Err(storage_failure("failed to load channel: ", &s)),
    }
}

fn ensure_channel_exists<R: ModelRepo>(repo: &R, channel_id: &str) -> (r: Result<(), AppError>)
    ensures
        r matches Err(e) ==> (e.kind == ErrorKind::NotFound || e.kind == ErrorKind::Internal),
        crate::error::not_found_is(r, missing_message("channel"@, channel_id@)),
        exists|present: Result<bool, String>| #[trigger] channel_checked(channel_id@, present, r),
{
    let present = repo.channel_exists(channel_id);
    let ghost answer = present;
    let r = channel_exists_outcome(channel_id, present);
    assert(channel_checked(channel_id@, answer, r));
    r
}

/// The message of the error for a model identifier the channel already has.
pub open spec fn model_conflict_message(model_id: Seq<char>) -> Seq<char> {
    "model_id '"@ + model_id + "' already exists in this channel"@
}

/// The result of the uniqueness check of the trimmed identifier `model_id`.
pub fn conflict_outcome(model_id: &str, present: Result<bool, String>) -> (r: Result<(), AppError>)
    ensures
        match present {
            Ok(false) => (r is Ok),
            Ok(true) => r matches Err(e) && is_error(
                e,
                ErrorKind::Conflict,
                "MODEL_ID_CONFLICT"@,
                model_conflict_message(model_id@),
            ),
            Err(s) => fails_internal(r, "failed to check model conflict: "@ + s@),
        },
{
    match present {
        Ok(false) => Ok(()),
        Ok(true) => {
            let message = concat3("model_id '", model_id, "' already exists in this channel");
            Err(AppError::conflict("MODEL_ID_CONFLICT", message.as_str()))
        },
        Err(s) => Err(storage_failure("failed to check model conflict: ", &s)),
    }
}

/// Whether `n` is the record stored for a new model of the channel.
pub open spec fn is_new_model_for(n: NewChannelModel, channel_id: Seq<char>, input: CreateModelInput) -> bool {
    &&& n.channel_id@ == channel_id
    &&& n.model_id@ == trim_seq(input.model_id@)
    &&& opt_view(n.display_name) == optional_text(opt_view(input.display_name))
    &&& n.context_window == input.context_window
    &&& n.max_output_tokens == input.max_output_tokens
    &&& n.id@.len() == 36
}

/// The record of a new model `id` of the channel `channel_id`: the
/// identifier and display name trimmed (a blank display name left out),
/// the limits as given.
pub fn new_model_record(channel_id: &str, input: CreateModelInput, id: String) -> (n: NewChannelModel)
    requires
        id@.len() == 36,
    ensures
        is_new_model_for(n, channel_id@, input),
        n.id@ == id@,
{
    NewChannelModel {
        id,
        channel_id: String::from_str(channel_id),
        model_id: trim(input.model_id.as_str()),
        display_name: normalize_optional_text(input.display_name),
        context_window: input.context_window,
        max_output_tokens: input.max_output_tokens,
    }
}

/// Whether `r` is what adding a model gives, given storage's answers: the
/// channel check, the check for the trimmed identifier, and the insert.
pub open spec fn model_created(
    channel_id: Seq<char>,
    input: CreateModelInput,
    present: Result<bool, String>,
    duplicate: Result<bool, String>,
    stored: Result<ChannelModel, String>,
    r: Result<ChannelModel, AppError>,
) -> bool {
    if present == Ok::<bool, String>(true) {
        if is_blank_seq(input.model_id@) {
            fails_validation(r, "VALIDATION_ERROR"@, "model_id cannot be empty"@)
        } else {
            match duplicate {
                Ok(false) => stored_as("failed to create model: "@, stored, r),
                Ok(true) => r matches Err(e) && is_error(
                    e,
                    ErrorKind::Conflict,
                    "MODEL_ID_CONFLICT"@,
                    model_conflict_message(trim_seq(input.model_id@)),
                ),
                Err(s) => fails_internal(r, "failed to check model conflict: "@ + s@),
            }
        }
    } else {
        channel_failure_as(channel_id, present, r)
    }
}

/// Adds a model to the channel `channel_id`. The channel must exist, the
/// identifier must not be blank, and the channel must not have it already.
pub fn create_with<R: ModelRepo>(repo: &R, channel_id: &str, input: CreateModelInput) -> (r: Result<ChannelModel, AppError>)
    ensures
        crate::error::not_found_is(r, missing_message("channel"@, channel_id@)),
        r matches Err(e) ==> (e.kind == ErrorKind::Validation ==> is_blank_seq(input.model_id@)),
        r matches Err(e) ==> (e.kind == ErrorKind::Conflict ==> is_error(
            e,
            ErrorKind::Conflict,
            "MODEL_ID_CONFLICT"@,
            model_conflict_message(trim_seq(input.model_id@)),
        )),
        exists|present: Result<bool, String>, duplicate: Result<bool, String>, stored: Result<ChannelModel, String>|
            #[trigger] model_created(channel_id@, input, present, duplicate, stored, r),
{
    let checked = ensure_channel_exists(repo, channel_id);
    let ghost present = choose|p: Result<bool, String>| #[trigger] channel_checked(channel_id@, p, checked);
    match checked {
        Ok(()) => {},
        Err(e) => {
            let r = Err(e);
            assert(model_created(channel_id@, input, present, vstd::pervasive::arbitrary(), vstd::pervasive::arbitrary(), r));
            return r;
        },
    }
    match validate_model_id(input.model_id.as_str()) {
        Ok(()) => {},
        Err(e) => {
            let r = Err(e);
            assert(model_created(channel_id@, input, present, vstd::pervasive::arbitrary(), vstd::pervasive::arbitrary(), r));
            return r;
        },
    }
    let model_id = trim(input.model_id.as_str());
    let duplicate = repo.model_id_exists(channel_id, model_id.as_str());
    let ghost dup_answer = duplicate;
    match conflict_outcome(model_id.as_str(), duplicate) {
        Ok(()) => {},
        Err(e) => {
            let r = Err(e);
            assert(model_created(channel_id@, input, present, dup_answer, vstd::pervasive::arbitrary(), r));
            return r;
        },
    }
    let record = new_model_record(channel_id, input, new_uuid_v7());
    proof {
        assert(is_new_model_for(record, channel_id@, input));
    }
    let stored = repo.insert(&record);
    let ghost stored_answer = stored;
    let r = stored_or_failed("failed to create model: ", stored);
    assert(model_created(channel_id@, input, present, dup_answer, stored_answer, r));
    r
}

/// Whether `r` is what listing the models of the channel `channel_id`
/// gives, given storage's answers: the channel check and the list.
pub open spec fn models_listed(
    channel_id: Seq<char>,
    present: Result<bool, String>,
    listed: Result<Vec<ChannelModel>, String>,
    r: Result<Vec<ChannelModel>, AppError>,
) -> bool {
    if present == Ok::<bool, String>(true) {
        stored_as("failed to list models: "@, listed, r)
    } else {
        channel_failure_as(channel_id, present, r)
    }
}

/// Lists the models of the channel `channel_id`, which must exist.
pub fn list_with<R: ModelRepo>(repo: &R, channel_id: &str) -> (r: Result<Vec<ChannelModel>, AppError>)
    ensures
        r matches Err(e) ==> (e.kind == ErrorKind::NotFound || e.kind == ErrorKind::Internal),
        crate::error::not_found_is(r, missing_message("channel"@, channel_id@)),
        exists|present: Result<bool, String>, listed: Result<Vec<ChannelModel>, String>|
            #[trigger] models_listed(channel_id@, present, listed, r),
{
    let checked = ensure_channel_exists(repo, channel_id);
    let ghost present = choose|p: Result<bool, String>| #[trigger] channel_checked(channel_id@, p, checked);
    match checked {
        Ok(()) => {},
        Err(e) => {
            let r = Err(e);
            assert(models_listed(channel_id@, present, vstd::pervasive::arbitrary(), r));
            return r;
        },
    }
    let listed = repo.list_by_channel(channel_id);
    let ghost answer = listed;
    let r = stored_or_failed("failed to list models: ", listed);
    assert(models_listed(channel_id@, present, answer, r));
    r
}

/// Whether `p` is the patch that `input` asks for: a given display name is
/// trimmed, blank becoming none; the limits as given.
pub open spec fn is_model_patch_for(p: ChannelModelPatch, input: UpdateModelInput) -> bool {
    &&& match (p.display_name, input.display_name) {
        (Some(a), Some(b)) => opt_view(a) == optional_text(opt_view(b)),
        (None, None) => true,
        _ => false,
    }
    &&& p.context_window == input.context_window
    &&& p.max_output_tokens == input.max_output_tokens
}

/// The patch for an update of a model.
pub fn model_patch(input: UpdateModelInput) -> (p: ChannelModelPatch)
    ensures
        is_model_patch_for(p, input),
{
    let display_name = match input.display_name {
        Some(d) => Some(normalize_optional_text(d)),
        None => None,
    };
    ChannelModelPatch {
        display_name,
        context_window: input.context_window,
        max_output_tokens: input.max_output_tokens,
    }
}

/// Whether `r` is what updating the model `id` of the channel `channel_id`
/// gives, given storage's answers: the channel check and the update.
pub open spec fn model_updated(
    channel_id: Seq<char>,
    id: Seq<char>,
    present: Result<bool, String>,
    found: Result<Option<ChannelModel>, String>,
    r: Result<ChannelModel, AppError>,
) -> bool {
    if present == Ok::<bool, String>(true) {
        found_as("model"@, id, "failed to update model: "@, found, r)
    } else {
        channel_failure_as(channel_id, present, r)
    }
}

/// Updates the model `id` of the channel `channel_id`.
pub fn update_with<R: ModelRepo>(repo: &R, channel_id: &str, id: &str, input: UpdateModelInput) -> (r: Result<ChannelModel, AppError>)
    ensures
        r matches Err(e) ==> (e.kind == ErrorKind::NotFound || e.kind == ErrorKind::Internal),
        exists|present: Result<bool, String>, found: Result<Option<ChannelModel>, String>|
            #[trigger] model_updated(channel_id@, id@, present, found, r),
{
    let checked = ensure_channel_exists(repo, channel_id);
    let ghost present = choose|p: Result<bool, String>| #[trigger] channel_checked(channel_id@, p, checked);
    match checked {
        Ok(()) => {},
        Err(e) => {
            let r = Err(e);
            assert(model_updated(channel_id@, id@, present, vstd::pervasive::arbitrary(), r));
            return r;
        },
    }
    let patch = model_patch(input);
    let found = repo.update(channel_id, id, &patch);
    let ghost answer = found;
    let r = found_or_missing("model", id, "failed to update model: ", found);
    assert(model_updated(channel_id@, id@, present, answer, r));
    r
}

/// Whether `r` is what deleting the model `id` of the channel `channel_id`
/// gives, given storage's answers: the channel check and the delete.
pub open spec fn model_deleted(
    channel_id: Seq<char>,
    id: Seq<char>,
    present: Result<bool, String>,
    deleted: Result<bool, String>,
    r: Result<(), AppError>,
) -> bool {
    if present == Ok::<bool, String>(true) {
        deleted_as("model"@, id, "failed to delete model: "@, deleted, r)
    } else {
        channel_failure_as(channel_id, present, r)
    }
}

/// Deletes the model `id` of the channel `channel_id`.
pub fn delete_with<R: ModelRepo>(repo: &R, channel_id: &str, id: &str) -> (r: Result<(), AppError>)
    ensures
        r matches Err(e) ==> (e.kind == ErrorKind::NotFound || e.kind == ErrorKind::Internal),
        exists|present: Result<bool, String>, deleted: Result<bool, String>|
            #[trigger] model_deleted(channel_id@, id@, present, deleted, r),
{
    let checked = ensure_channel_exists(repo, channel_id);
    let ghost present = choose|p: Result<bool, String>| #[trigger] channel_checked(channel_id@, p, checked);
    match checked {
        Ok(()) => {},
        Err(e) => {
            let r = Err(e);
            assert(model_deleted(channel_id@, id@, present, vstd::pervasive::arbitrary(), r));
            return r;
        },
    }
    let deleted = repo.delete(channel_id, id);
    let r = deleted_or_missing("model", id, "failed to delete model: ", deleted);
    assert(model_deleted(channel_id@, id@, present, deleted, r));
    r
}

/// Whether `r` can be what reading the catalogue of the channel
/// `channel_id` gives, given storage's answer to the lookup of the channel:
/// the lookup's failure, or, once the channel is found, whatever its
/// provider's catalogue answered.
pub open spec fn catalogue_read(channel_id: Seq<char>, found: Result<Option<Channel>, String>, r: Result<Vec<RemoteModelInfo>, AppError>) -> bool {
    match found {
        Ok(Some(_)) => true,
        Ok(None) => fails_not_found(r, channel_not_found_message(channel_id)),
        Err(s) => fails_internal(r, "failed to get channel: "@ + s@),
    }
}

/// Reads the model catalogue of the channel `channel_id` from its provider.
pub fn fetch_remote_models_with<R: ChannelRepo, A: ModelCatalog>(repo: &R, adapter: &A, channel_id: &str) -> (r: Result<Vec<RemoteModelInfo>, AppError>)
    ensures
        exists|found: Result<Option<Channel>, String>| #[trigger] catalogue_read(channel_id@, found, r),
{
    let got = get_channel_with(repo, channel_id);
    let ghost answer = got;
    let ghost found = choose|f: Result<Option<Channel>, String>| #[trigger] channel_found(channel_id@, f, answer);
    let channel = match got {
        Ok(c) => c,
        Err(e) => {
            let r = Err(e);
            assert(catalogue_read(channel_id@, found, r));
            return r;
        },
    };
    let r = adapter.fetch_remote_models(&channel);
    assert(catalogue_read(channel_id@, found, r));
    r
}

} // verus!
