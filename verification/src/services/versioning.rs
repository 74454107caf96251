//! Switching between the versions of a message: the version asked for must
//! be one of those the group holds, numbered from one.

use vstd::prelude::*;

use crate::error::{fails_internal, AppError};
use crate::text::{push_signed_decimal, signed_decimal};

verus! {

/// The message of the error for a version outside the group.
pub open spec fn out_of_range_message(target: i64, max_index: i64) -> Seq<char> {
    "target version "@ + signed_decimal(target as int) + " is out of range 1..="@ + signed_decimal(max_index as int)
}

/// Checks that `target_index` names one of the `max_index` versions of a
/// group, numbered from one.
pub fn check_version_index(target_index: i64, max_index: i64) -> (r: Result<(), AppError>)
    ensures
        r is Ok <==> 1 <= target_index <= max_index,
        r is Err ==> fails_internal(r, out_of_range_message(target_index, max_index)),
{
    if target_index < 1 || target_index > max_index {
        let mut message = String::from_str("target version ");
        push_signed_decimal(&mut message, target_index);
        message.append(" is out of range 1..=");
        push_signed_decimal(&mut message, max_index);
        return Err(AppError::internal(message.as_str()));
    }
    Ok(())
}

} // verus!
