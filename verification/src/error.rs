//! The error type shared by the services of the library.

use vstd::prelude::*;

verus! {

/// The category of a failure.
#[derive(Debug, Clone, Copy, PartialEq, Eq, Structural)]
pub enum ErrorKind {
    /// The input breaks a rule.
    Validation,
    /// The record asked for does not exist.
    NotFound,
    /// The input clashes with a record that exists.
    Conflict,
    /// A dependency such as the database failed.
    Internal,
    /// The remote channel could not be reached.
    ChannelUnreachable,
    /// The secret store failed or holds no such secret.
    Keyring,
    /// The model's provider reported a failure while generating.
    AiRequest,
}

/// An error returned by a service: a category, a stable machine code and a
/// human readable message.
#[derive(Debug, Clone, PartialEq, Eq)]
pub struct AppError {
    pub kind: ErrorKind,
    pub code: String,
    pub message: String,
}

/// Whether `e` is an error of kind `kind` with the code `code` and the message `message`.
pub open spec fn is_error(e: AppError, kind: ErrorKind, code: Seq<char>, message: Seq<char>) -> bool {
    e.kind == kind && e.code@ == code && e.message@ == message
}

/// Whether `e` is a validation error with the code `code` and the message `message`.
pub open spec fn is_validation(e: AppError, code: Seq<char>, message: Seq<char>) -> bool {
    is_error(e, ErrorKind::Validation, code, message)
}

/// Whether `e` is a not-found error with the message `message`.
pub open spec fn is_not_found(e: AppError, message: Seq<char>) -> bool {
    is_error(e, ErrorKind::NotFound, "NOT_FOUND"@, message)
}

/// Whether `e` is an internal error with the message `message`.
pub open spec fn is_internal(e: AppError, message: Seq<char>) -> bool {
    is_error(e, ErrorKind::Internal, "INTERNAL_ERROR"@, message)
}

/// Whether `e` is an unreachable-channel error with the message `message`.
pub open spec fn is_unreachable(e: AppError, message: Seq<char>) -> bool {
    is_error(e, ErrorKind::ChannelUnreachable, "CHANNEL_UNREACHABLE"@, message)
}

/// Whether `r` failed with a validation error with the code `code` and the message `message`.
pub open spec fn fails_validation<T>(r: Result<T, AppError>, code: Seq<char>, message: Seq<char>) -> bool {
    r matches Err(e) && is_validation(e, code, message)
}

/// Whether `r` failed with a not-found error with the message `message`.
pub open spec fn fails_not_found<T>(r: Result<T, AppError>, message: Seq<char>) -> bool {
    r matches Err(e) && is_not_found(e, message)
}

/// Whether `r` failed with an internal error with the message `message`.
pub open spec fn fails_internal<T>(r: Result<T, AppError>, message: Seq<char>) -> bool {
    r matches Err(e) && is_internal(e, message)
}

/// Whether `r` failed with an unreachable-channel error with the message `message`.
pub open spec fn fails_unreachable<T>(r: Result<T, AppError>, message: Seq<char>) -> bool {
    r matches Err(e) && is_unreachable(e, message)
}

/// Whether `r` failed with an error of the kind `kind`.
pub open spec fn fails_kind<T>(r: Result<T, AppError>, kind: ErrorKind) -> bool {
    r matches Err(e) && e.kind == kind
}

/// Whether every not-found error in `r` has the message `message`.
pub open spec fn not_found_is<T>(r: Result<T, AppError>, message: Seq<char>) -> bool {
    fails_kind(r, ErrorKind::NotFound) ==> fails_not_found(r, message)
}

impl AppError {
    /// A rejected input, with its own code.
    pub fn validation(code: &str, message: &str) -> (e: AppError)
        ensures
            is_validation(e, code@, message@),
    {
        AppError {
            kind: ErrorKind::Validation,
            code: String::from_str(code),
            message: String::from_str(message),
        }
    }

    /// A missing record.
    pub fn not_found(message: &str) -> (e: AppError)
        ensures
            is_not_found(e, message@),
    {
        AppError {
            kind: ErrorKind::NotFound,
            code: String::from_str("NOT_FOUND"),
            message: String::from_str(message),
        }
    }

    /// A failure of a dependency.
    pub fn internal(message: &str) -> (e: AppError)
        ensures
            is_internal(e, message@),
    {
        AppError {
            kind: ErrorKind::Internal,
            code: String::from_str("INTERNAL_ERROR"),
            message: String::from_str(message),
        }
    }

    /// An input that clashes with an existing record, with its own code.
    pub fn conflict(code: &str, message: &str) -> (e: AppError)
        ensures
            is_error(e, ErrorKind::Conflict, code@, message@),
    {
        AppError {
            kind: ErrorKind::Conflict,
            code: String::from_str(code),
            message: String::from_str(message),
        }
    }

    /// An agent that is switched off cannot take part.
    pub fn agent_disabled() -> (e: AppError)
        ensures
            is_validation(e, "AGENT_DISABLED"@, "agent is disabled"@),
    {
        AppError::validation("AGENT_DISABLED", "agent is disabled")
    }

    /// A channel that is switched off cannot serve replies.
    pub fn channel_disabled() -> (e: AppError)
        ensures
            is_validation(e, "CHANNEL_DISABLED"@, "channel is disabled"@),
    {
        AppError::validation("CHANNEL_DISABLED", "channel is disabled")
    }

    /// A conversation without an agent cannot generate a reply.
    pub fn no_agent() -> (e: AppError)
        ensures
            is_validation(e, "NO_AGENT"@, "conversation has no agent"@),
    {
        AppError::validation("NO_AGENT", "conversation has no agent")
    }

    /// A conversation without a channel cannot generate a reply.
    pub fn no_channel() -> (e: AppError)
        ensures
            is_validation(e, "NO_CHANNEL"@, "conversation has no channel"@),
    {
        AppError::validation("NO_CHANNEL", "conversation has no channel")
    }

    /// A conversation without a usable model cannot generate a reply.
    pub fn no_model() -> (e: AppError)
        ensures
            is_validation(e, "NO_MODEL"@, "conversation has no model"@),
    {
        AppError::validation("NO_MODEL", "conversation has no model")
    }

    /// A version named together with a node it does not belong to.
    pub fn version_not_in_node() -> (e: AppError)
        ensures
            is_validation(e, "VERSION_NOT_IN_NODE"@, "version does not belong to the node"@),
    {
        AppError::validation("VERSION_NOT_IN_NODE", "version does not belong to the node")
    }

    /// A failure of the secret store.
    pub fn keyring(message: &str) -> (e: AppError)
        ensures
            is_error(e, ErrorKind::Keyring, "KEYRING_ERROR"@, message@),
    {
        AppError {
            kind: ErrorKind::Keyring,
            code: String::from_str("KEYRING_ERROR"),
            message: String::from_str(message),
        }
    }

    /// A failure the model's provider reported while generating.
    pub fn ai_request_failed(message: &str) -> (e: AppError)
        ensures
            is_error(e, ErrorKind::AiRequest, "AI_REQUEST_FAILED"@, message@),
    {
        AppError {
            kind: ErrorKind::AiRequest,
            code: String::from_str("AI_REQUEST_FAILED"),
            message: String::from_str(message),
        }
    }

    /// A channel that could not be reached.
    pub fn channel_unreachable(message: &str) -> (e: AppError)
        ensures
            is_unreachable(e, message@),
    {
        AppError {
            kind: ErrorKind::ChannelUnreachable,
            code: String::from_str("CHANNEL_UNREACHABLE"),
            message: String::from_str(message),
        }
    }
}

} // verus!
