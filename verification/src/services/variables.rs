//! Who may change a conversation variable: users and plugins as the
//! variable allows, the model action by action, workflows and the system
//! always; a variable only lives in the scope it was defined for; and a
//! value must suit the type of its variable.

use vstd::prelude::*;

use crate::error::{fails_validation, AppError};
use crate::services::channel_service::opt_view;
use crate::support::{json_parse_of, parse_json_text};
use crate::text::{concat3, str_eq};

verus! {

/// What an actor does to a variable.
#[derive(Debug, Clone, Copy, PartialEq, Eq, Structural)]
pub enum VariableActionKind {
    Create,
    Update,
    Delete,
    Lock,
    Unlock,
}

/// A variable definition, with the permissions it grants.
#[derive(Debug, Clone, PartialEq, Eq)]
pub struct VariableDef {
    pub id: String,
    pub var_key: String,
    pub name: String,
    pub value_type: String,
    pub scope_type: String,
    pub namespace: String,
    pub is_user_editable: bool,
    pub is_plugin_editable: bool,
    pub ai_can_create: bool,
    pub ai_can_update: bool,
    pub ai_can_delete: bool,
    pub ai_can_lock: bool,
    pub ai_can_unlock_own_lock: bool,
    pub ai_can_unlock_any_lock: bool,
    pub default_json: String,
    pub config_json: String,
    pub created_at: i64,
    pub updated_at: i64,
}

/// A lock on a variable value.
#[derive(Debug, Clone, PartialEq, Eq)]
pub struct VariableLockRow {
    pub id: String,
    pub variable_value_id: String,
    pub lock_kind: String,
    pub owner_kind: String,
    pub owner_ref_id: Option<String>,
    pub unlock_policy: String,
    pub active: bool,
    pub config_json: String,
    pub created_at: i64,
    pub updated_at: i64,
}

/// The name of an action in messages.
pub open spec fn action_name(a: VariableActionKind) -> Seq<char> {
    match a {
        VariableActionKind::Create => "Create"@,
        VariableActionKind::Update => "Update"@,
        VariableActionKind::Delete => "Delete"@,
        VariableActionKind::Lock => "Lock"@,
        VariableActionKind::Unlock => "Unlock"@,
    }
}

/// The verb of an action in the model's messages.
pub open spec fn action_verb(a: VariableActionKind) -> Seq<char> {
    match a {
        VariableActionKind::Create => "create"@,
        VariableActionKind::Update => "update"@,
        VariableActionKind::Delete => "delete"@,
        VariableActionKind::Lock => "lock"@,
        VariableActionKind::Unlock => "unlock"@,
    }
}

impl VariableActionKind {
    /// The name of the action in messages.
    pub fn name(&self) -> (r: &'static str)
        ensures
            r@ == action_name(*self),
    {
        match self {
            VariableActionKind::Create => "Create",
            VariableActionKind::Update => "Update",
            VariableActionKind::Delete => "Delete",
            VariableActionKind::Lock => "Lock",
            VariableActionKind::Unlock => "Unlock",
        }
    }

    /// The verb of the action in the model's messages.
    pub fn verb(&self) -> (r: &'static str)
        ensures
            r@ == action_verb(*self),
    {
        match self {
            VariableActionKind::Create => "create",
            VariableActionKind::Update => "update",
            VariableActionKind::Delete => "delete",
            VariableActionKind::Lock => "lock",
            VariableActionKind::Unlock => "unlock",
        }
    }
}

/// Whether the model may take an action other than unlocking.
pub open spec fn ai_may(def: VariableDef, a: VariableActionKind) -> bool {
    match a {
        VariableActionKind::Create => def.ai_can_create,
        VariableActionKind::Update => def.ai_can_update,
        VariableActionKind::Delete => def.ai_can_delete,
        VariableActionKind::Lock => def.ai_can_lock,
        VariableActionKind::Unlock => true,
    }
}

/// Whether the lock is held by the actor.
pub open spec fn owns_lock(lock: VariableLockRow, actor_kind: Seq<char>, actor_ref_id: Option<Seq<char>>) -> bool {
    lock.owner_kind@ == actor_kind && opt_view(lock.owner_ref_id) == actor_ref_id
}

/// The message that refuses an action, if the actor may not take it.
pub open spec fn refusal(
    def: VariableDef,
    action: VariableActionKind,
    actor_kind: Seq<char>,
    actor_ref_id: Option<Seq<char>>,
    lock: Option<VariableLockRow>,
) -> Option<Seq<char>> {
    let key = def.var_key@;
    if actor_kind == "user"@ {
        if def.is_user_editable {
            None
        } else {
            Some("user is not allowed to "@ + action_name(action) + " variable '"@ + key + "'"@)
        }
    } else if actor_kind == "plugin"@ {
        if def.is_plugin_editable {
            None
        } else {
            Some("plugin is not allowed to "@ + action_name(action) + " variable '"@ + key + "'"@)
        }
    } else if actor_kind == "ai"@ {
        if action == VariableActionKind::Unlock {
            match lock {
                Some(l) => if owns_lock(l, actor_kind, actor_ref_id) {
                    if def.ai_can_unlock_own_lock {
                        None
                    } else {
                        Some("ai is not allowed to unlock its own lock on variable '"@ + key + "'"@)
                    }
                } else {
                    if def.ai_can_unlock_any_lock {
                        None
                    } else {
                        Some("ai is not allowed to unlock this variable lock on '"@ + key + "'"@)
                    }
                },
                None => Some("ai is not allowed to unlock this variable lock on '"@ + key + "'"@),
            }
        } else if ai_may(def, action) {
            None
        } else {
            Some("ai is not allowed to "@ + action_verb(action) + " variable '"@ + key + "'"@)
        }
    } else {
        None
    }
}

fn refuse(prefix: &str, middle: &str, key: &str) -> (e: AppError)
    ensures
        crate::error::is_validation(e, "VALIDATION_ERROR"@, prefix@ + middle@ + " variable '"@ + key@ + "'"@),
{
    let mut message = concat3(prefix, middle, " variable '");
    message.append(key);
    message.append("'");
    AppError::validation("VALIDATION_ERROR", message.as_str())
}

fn refuse_simple(prefix: &str, key: &str) -> (e: AppError)
    ensures
        crate::error::is_validation(e, "VALIDATION_ERROR"@, prefix@ + key@ + "'"@),
{
    let message = concat3(prefix, key, "'");
    AppError::validation("VALIDATION_ERROR", message.as_str())
}

/// Refuses an action that the actor may not take on the variable: a user or a
/// plugin when the variable is not editable by it; the model when the
/// variable does not allow the action, or, for unlocking, does not allow
/// unlocking its own lock or another's; workflows, the system and other
/// actors are never refused.
pub fn enforce_action_permission(
    variable_def: &VariableDef,
    action: VariableActionKind,
    actor_kind: &str,
    actor_ref_id: Option<&str>,
    lock: Option<&VariableLockRow>,
) -> (r: Result<(), AppError>)
    ensures
        match refusal(
            *variable_def,
            action,
            actor_kind@,
            match actor_ref_id {
                Some(s) => Some(s@),
                None => None,
            },
            match lock {
                Some(l) => Some(*l),
                None => None,
            },
        ) {
            Some(m) => fails_validation(r, "VALIDATION_ERROR"@, m),
            None => (r is Ok),
        },
{
    let key = variable_def.var_key.as_str();
    if str_eq(actor_kind, "user") {
        if !variable_def.is_user_editable {
            return Err(refuse("user is not allowed to ", action.name(), key));
        }
    } else if str_eq(actor_kind, "plugin") {
        if !variable_def.is_plugin_editable {
            return Err(refuse("plugin is not allowed to ", action.name(), key));
        }
    } else if str_eq(actor_kind, "ai") {
        match action {
            VariableActionKind::Unlock => {
                let own = match lock {
                    Some(l) => Some(str_eq(l.owner_kind.as_str(), actor_kind) && match (&l.owner_ref_id, actor_ref_id) {
                        (Some(a), Some(b)) => str_eq(a.as_str(), b),
                        (None, None) => true,
                        _ => false,
                    }),
                    None => None,
                };
                match own {
                    Some(true) => {
                        if !variable_def.ai_can_unlock_own_lock {
                            return Err(refuse_simple("ai is not allowed to unlock its own lock on variable '", key));
                        }
                    },
                    Some(false) => {
                        if !variable_def.ai_can_unlock_any_lock {
                            return Err(refuse_simple("ai is not allowed to unlock this variable lock on '", key));
                        }
                    },
                    None => {
                        return Err(refuse_simple("ai is not allowed to unlock this variable lock on '", key));
                    },
                }
            },
            _ => {
                let allowed = match action {
                    VariableActionKind::Create => variable_def.ai_can_create,
                    VariableActionKind::Update => variable_def.ai_can_update,
                    VariableActionKind::Delete => variable_def.ai_can_delete,
                    _ => variable_def.ai_can_lock,
                };
                if !allowed {
                    return Err(refuse("ai is not allowed to ", action.verb(), key));
                }
            },
        }
    }
    Ok(())
}

/// Refuses a scope other than the one the variable was defined for.
pub fn validate_scope_matches(variable_def: &VariableDef, scope_type: &str) -> (r: Result<(), AppError>)
    ensures
        r is Ok <==> variable_def.scope_type@ == scope_type@,
        r is Err ==> fails_validation(
            r,
            "VALIDATION_ERROR"@,
            "variable '"@ + variable_def.var_key@ + "' only supports scope_type '"@
                + variable_def.scope_type@ + "'"@,
        ),
{
    if !str_eq(variable_def.scope_type.as_str(), scope_type) {
        let mut message = concat3("variable '", variable_def.var_key.as_str(), "' only supports scope_type '");
        message.append(variable_def.scope_type.as_str());
        message.append("'");
        return Err(AppError::validation("VALIDATION_ERROR", message.as_str()));
    }
    Ok(())
}

/// The type of the values of a variable.
#[derive(Debug, Clone, Copy, PartialEq, Eq, Structural)]
pub enum VariableValueType {
    String,
    Number,
    Boolean,
    Json,
    ContentRef,
}

/// The kind of a JSON document, told by the first character of its compact
/// form: a string starts with `"`, a number with a digit or `-`, a boolean
/// with `t` or `f`.
#[derive(Debug, Clone, Copy, PartialEq, Eq, Structural)]
pub enum JsonKind {
    Text,
    Number,
    Boolean,
    Other,
}

/// The kind of a JSON document from its compact form.
pub open spec fn json_kind_of(compact: Seq<char>) -> JsonKind {
    if compact.len() == 0 {
        JsonKind::Other
    } else if compact[0] == '"' {
        JsonKind::Text
    } else if compact[0] == '-' || ('0' <= compact[0] && compact[0] <= '9') {
        JsonKind::Number
    } else if compact[0] == 't' || compact[0] == 'f' {
        JsonKind::Boolean
    } else {
        JsonKind::Other
    }
}

/// The kind of the JSON document `text` holds; text that is not JSON has none.
pub open spec fn value_kind(text: Seq<char>) -> JsonKind {
    match json_parse_of(text) {
        Ok(c) => json_kind_of(c),
        Err(_) => JsonKind::Other,
    }
}

fn kind_of_text(text: &str) -> (k: JsonKind)
    ensures
        k == value_kind(text@),
{
    match parse_json_text(text) {
        Ok(c) => {
            if c.as_str().unicode_len() == 0 {
                JsonKind::Other
            } else {
                let first = c.as_str().get_char(0);
                if first == '"' {
                    JsonKind::Text
                } else if first == '-' || ('0' <= first && first <= '9') {
                    JsonKind::Number
                } else if first == 't' || first == 'f' {
                    JsonKind::Boolean
                } else {
                    JsonKind::Other
                }
            }
        },
        Err(_) => JsonKind::Other,
    }
}

/// The message of the error for a value of `value_type`, or none when the
/// JSON value of kind `kind` and the presence of content suit it.
pub open spec fn value_input_error(value_type: VariableValueType, kind: JsonKind, has_content: bool) -> Option<Seq<char>> {
    match value_type {
        VariableValueType::String => if kind != JsonKind::Text {
            Some("string variable requires value_json to be a string"@)
        } else if has_content {
            Some("string variable does not accept value_content"@)
        } else {
            None
        },
        VariableValueType::Number => if kind != JsonKind::Number {
            Some("number variable requires value_json to be a number"@)
        } else if has_content {
            Some("number variable does not accept value_content"@)
        } else {
            None
        },
        VariableValueType::Boolean => if kind != JsonKind::Boolean {
            Some("boolean variable requires value_json to be a boolean"@)
        } else if has_content {
            Some("boolean variable does not accept value_content"@)
        } else {
            None
        },
        VariableValueType::Json => if has_content {
            Some("json variable does not accept value_content"@)
        } else {
            None
        },
        VariableValueType::ContentRef => if !has_content {
            Some("content_ref variable requires value_content"@)
        } else {
            None
        },
    }
}

/// Whether a value given as the JSON text `value_json`, with or without
/// content, suits a variable whose values are of `value_type`.
pub fn validate_value_input(value_type: VariableValueType, value_json: &str, has_value_content: bool) -> (r: Result<(), AppError>)
    ensures
        match value_input_error(value_type, value_kind(value_json@), has_value_content) {
            None => r is Ok,
            Some(m) => fails_validation(r, "VALIDATION_ERROR"@, m),
        },
{
    let kind = kind_of_text(value_json);
    let message: Option<&str> = match value_type {
        VariableValueType::String => if kind != JsonKind::Text {
            Some("string variable requires value_json to be a string")
        } else if has_value_content {
            Some("string variable does not accept value_content")
        } else {
            None
        },
        VariableValueType::Number => if kind != JsonKind::Number {
            Some("number variable requires value_json to be a number")
        } else if has_value_content {
            Some("number variable does not accept value_content")
        } else {
            None
        },
        VariableValueType::Boolean => if kind != JsonKind::Boolean {
            Some("boolean variable requires value_json to be a boolean")
        } else if has_value_content {
            Some("boolean variable does not accept value_content")
        } else {
            None
        },
        VariableValueType::Json => if has_value_content {
            Some("json variable does not accept value_content")
        } else {
            None
        },
        VariableValueType::ContentRef => if !has_value_content {
            Some("content_ref variable requires value_content")
        } else {
            None
        },
    };
    match message {
        Some(m) => Err(AppError::validation("VALIDATION_ERROR", m)),
        None => Ok(()),
    }
}

} // verus!
