//! How the services turn what storage answered into their results: a
//! storage failure becomes an internal error that names the operation, and
//! a missing record becomes a not-found error that names the record.

use vstd::prelude::*;

use crate::error::{fails_internal, fails_not_found, is_internal, is_not_found, AppError};
use crate::text::concat3;

verus! {

/// The message of the error for the record `id` of the kind `entity` that does not exist.
pub open spec fn missing_message(entity: Seq<char>, id: Seq<char>) -> Seq<char> {
    entity + " '"@ + id + "' not found"@
}

/// An internal error for a storage failure: `context` followed by the failure.
pub fn storage_failure(context: &str, err: &String) -> (e: AppError)
    ensures
        is_internal(e, context@ + err@),
{
    let mut message = String::from_str(context);
    message.append(err.as_str());
    AppError::internal(message.as_str())
}

/// A not-found error for the record `id` of the kind `entity`.
pub fn missing(entity: &str, id: &str) -> (e: AppError)
    ensures
        is_not_found(e, missing_message(entity@, id@)),
{
    let mut message = concat3(entity, " '", id);
    message.append("' not found");
    proof {
        assert(message@ =~= missing_message(entity@, id@));
    }
    AppError::not_found(message.as_str())
}

/// Whether `r` is what storage's answer `stored` gives: the value stored,
/// or the failure under `context`.
pub open spec fn stored_as<T>(context: Seq<char>, stored: Result<T, String>, r: Result<T, AppError>) -> bool {
    match stored {
        Ok(v) => r == Ok::<T, AppError>(v),
        Err(s) => fails_internal(r, context + s@),
    }
}

/// Whether `r` is what storage's answer `found` gives: the record found,
/// not found, or the failure under `context`.
pub open spec fn found_as<T>(entity: Seq<char>, id: Seq<char>, context: Seq<char>, found: Result<Option<T>, String>, r: Result<T, AppError>) -> bool {
    match found {
        Ok(Some(v)) => r == Ok::<T, AppError>(v),
        Ok(None) => fails_not_found(r, missing_message(entity, id)),
        Err(s) => fails_internal(r, context + s@),
    }
}

/// Whether `r` is what storage's answer `deleted` gives: done, not found, or
/// the failure under `context`.
pub open spec fn deleted_as(entity: Seq<char>, id: Seq<char>, context: Seq<char>, deleted: Result<bool, String>, r: Result<(), AppError>) -> bool {
    match deleted {
        Ok(true) => r is Ok,
        Ok(false) => fails_not_found(r, missing_message(entity, id)),
        Err(s) => fails_internal(r, context + s@),
    }
}

/// The stored value, or the storage failure under `context`.
pub fn stored_or_failed<T>(context: &str, stored: Result<T, String>) -> (r: Result<T, AppError>)
    ensures
        stored_as(context@, stored, r),
{
    match stored {
        Ok(v) => Ok(v),
        Err(s) => Err(storage_failure(context, &s)),
    }
}

/// The record found, not found, or the storage failure under `context`.
pub fn found_or_missing<T>(entity: &str, id: &str, context: &str, found: Result<Option<T>, String>) -> (r: Result<T, AppError>)
    ensures
        found_as(entity@, id@, context@, found, r),
{
    match found {
        Ok(Some(v)) => Ok(v),
        Ok(None) => Err(missing(entity, id)),
        Err(s) => Err(storage_failure(context, &s)),
    }
}

/// Done when a record was deleted, not found when none was, or the storage
/// failure under `context`.
pub fn deleted_or_missing(entity: &str, id: &str, context: &str, deleted: Result<bool, String>) -> (r: Result<(), AppError>)
    ensures
        deleted_as(entity@, id@, context@, deleted, r),
{
    match deleted {
        Ok(true) => Ok(()),
        Ok(false) => Err(missing(entity, id)),
        Err(s) => Err(storage_failure(context, &s)),
    }
}

} // verus!
