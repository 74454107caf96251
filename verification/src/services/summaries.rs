//! Which summary stands in for a message: among the enabled usages whose
//! scope, target and activation rule fit the message, the one with the
//! highest priority, then the latest update, then the latest creation.

use vstd::prelude::*;

use crate::domain::{
    copy_opt, ContextPolicy, MessageRole, ApiChannel, ApiChannelModel, ContentType, ContentWriteInput, ProviderChatMessage, ProviderChatRequest,
    ProviderChatResponse, ProviderMessagePart, StoredContent,
};
use crate::services::context_builder::MessageContentRefView;
use crate::services::generation::{first_some, kind_for, part_kind_for, BuiltContextItem};
use crate::error::{fails_validation, AppError};
use crate::services::channel_service::opt_view;
use crate::text::{is_blank, is_blank_seq, str_eq};

verus! {

/// Where a summary usage applies.
#[derive(Debug, Clone, Copy, PartialEq, Eq, Structural)]
pub enum SummaryUsageScope {
    /// When the conversation is shown.
    Viewer,
    /// When a request is sent to a provider.
    Request,
    /// In both places.
    Both,
}

/// What a summary usage replaces.
#[derive(Debug, Clone, Copy, PartialEq, Eq, Structural)]
pub enum SummaryTargetKind {
    /// One version of a message.
    MessageVersion,
    /// The messages between two nodes, both included.
    NodeRange,
    /// Every message of a conversation.
    Conversation,
}

/// When a summary usage takes effect.
#[derive(Debug, Clone, Copy, PartialEq, Eq, Structural)]
pub enum SummaryActivationMode {
    /// Whenever it applies.
    Manual,
    /// Only once its thresholds are reached.
    Auto,
}

/// A summary usage as stored.
#[derive(Debug, Clone, PartialEq, Eq)]
pub struct SummaryUsageRow {
    pub id: String,
    pub summary_group_id: String,
    pub summary_version_id: Option<String>,
    pub usage_scope: String,
    pub target_kind: String,
    pub target_message_version_id: Option<String>,
    pub target_start_node_id: Option<String>,
    pub target_end_node_id: Option<String>,
    pub conversation_id: Option<String>,
    pub activation_mode: String,
    pub replace_from_node_id: Option<String>,
    pub replace_after_message_count: Option<i64>,
    pub replace_after_total_bytes: Option<i64>,
    pub enabled: bool,
    pub priority: i64,
    pub config_json: String,
    pub created_at: i64,
    pub updated_at: i64,
}

/// A visible message version, as the summary rules and the assembly of a
/// generation context see it.
#[derive(Debug, Clone, PartialEq, Eq)]
pub struct MessageVersionView {
    pub conversation_id: String,
    pub node_id: String,
    pub version_id: String,
    /// The role of its message.
    pub role: MessageRole,
    pub primary_content: StoredContent,
    /// The contents attached to it.
    pub content_refs: Vec<MessageContentRefView>,
    /// Whether it goes into the context of a generation.
    pub context_policy: ContextPolicy,
}

/// The stored name of a usage scope.
pub open spec fn scope_name(s: SummaryUsageScope) -> Seq<char> {
    match s {
        SummaryUsageScope::Viewer => "viewer"@,
        SummaryUsageScope::Request => "request"@,
        SummaryUsageScope::Both => "both"@,
    }
}

/// The stored name of a target kind.
pub open spec fn target_kind_name(k: SummaryTargetKind) -> Seq<char> {
    match k {
        SummaryTargetKind::MessageVersion => "message_version"@,
        SummaryTargetKind::NodeRange => "node_range"@,
        SummaryTargetKind::Conversation => "conversation"@,
    }
}

/// The stored name of an activation mode.
pub open spec fn activation_mode_name(m: SummaryActivationMode) -> Seq<char> {
    match m {
        SummaryActivationMode::Manual => "manual"@,
        SummaryActivationMode::Auto => "auto"@,
    }
}

/// The scope with the stored name `s`, if any.
pub open spec fn parse_scope(s: Seq<char>) -> Option<SummaryUsageScope> {
    if s == "viewer"@ {
        Some(SummaryUsageScope::Viewer)
    } else if s == "request"@ {
        Some(SummaryUsageScope::Request)
    } else if s == "both"@ {
        Some(SummaryUsageScope::Both)
    } else {
        None
    }
}

/// The target kind with the stored name `s`, if any.
pub open spec fn parse_target_kind(s: Seq<char>) -> Option<SummaryTargetKind> {
    if s == "message_version"@ {
        Some(SummaryTargetKind::MessageVersion)
    } else if s == "node_range"@ {
        Some(SummaryTargetKind::NodeRange)
    } else if s == "conversation"@ {
        Some(SummaryTargetKind::Conversation)
    } else {
        None
    }
}

/// The activation mode with the stored name `s`, if any.
pub open spec fn parse_activation_mode(s: Seq<char>) -> Option<SummaryActivationMode> {
    if s == "manual"@ {
        Some(SummaryActivationMode::Manual)
    } else if s == "auto"@ {
        Some(SummaryActivationMode::Auto)
    } else {
        None
    }
}

impl SummaryUsageScope {
    /// The scope with the stored name `value`, if any.
    pub fn parse(value: &str) -> (r: Option<SummaryUsageScope>)
        ensures
            r == parse_scope(value@),
    {
        if str_eq(value, "viewer") {
            Some(SummaryUsageScope::Viewer)
        } else if str_eq(value, "request") {
            Some(SummaryUsageScope::Request)
        } else if str_eq(value, "both") {
            Some(SummaryUsageScope::Both)
        } else {
            None
        }
    }

    /// Whether the usage applies when the conversation is shown.
    pub fn matches_viewer(&self) -> (r: bool)
        ensures
            r == (*self != SummaryUsageScope::Request),
    {
        match self {
            SummaryUsageScope::Request => false,
            _ => true,
        }
    }

    /// Whether the usage applies when a request is sent.
    pub fn matches_request(&self) -> (r: bool)
        ensures
            r == (*self != SummaryUsageScope::Viewer),
    {
        match self {
            SummaryUsageScope::Viewer => false,
            _ => true,
        }
    }
}

impl SummaryTargetKind {
    /// The target kind with the stored name `value`, if any.
    pub fn parse(value: &str) -> (r: Option<SummaryTargetKind>)
        ensures
            r == parse_target_kind(value@),
    {
        if str_eq(value, "message_version") {
            Some(SummaryTargetKind::MessageVersion)
        } else if str_eq(value, "node_range") {
            Some(SummaryTargetKind::NodeRange)
        } else if str_eq(value, "conversation") {
            Some(SummaryTargetKind::Conversation)
        } else {
            None
        }
    }
}

impl SummaryActivationMode {
    /// The activation mode with the stored name `value`, if any.
    pub fn parse(value: &str) -> (r: Option<SummaryActivationMode>)
        ensures
            r == parse_activation_mode(value@),
    {
        if str_eq(value, "manual") {
            Some(SummaryActivationMode::Manual)
        } else if str_eq(value, "auto") {
            Some(SummaryActivationMode::Auto)
        } else {
            None
        }
    }
}

/// The position of the node `id` in the conversation, given as its node ids
/// in order; the last position where an id occurs twice.
pub open spec fn position_of(order: Seq<String>, id: Seq<char>) -> Option<int>
    decreases order.len(),
{
    if order.len() == 0 {
        None
    } else if order.last()@ == id {
        Some(order.len() - 1)
    } else {
        position_of(order.drop_last(), id)
    }
}

/// The position of the node `id` in `order`, if it is there.
pub fn order_position(order: &[String], id: &str) -> (r: Option<usize>)
    ensures
        match r {
            Some(i) => position_of(order@, id@) == Some(i as int),
            None => position_of(order@, id@) is None,
        },
{
    let mut j = order.len();
    assert(order@.take(j as int) =~= order@);
    loop
        invariant
            j <= order@.len(),
            position_of(order@, id@) == position_of(order@.take(j as int), id@),
        decreases j,
    {
        if j == 0 {
            return None;
        }
        let ghost t = order@.take(j as int);
        assert(t.drop_last() =~= order@.take(j - 1 as int));
        if str_eq(order[j - 1].as_str(), id) {
            return Some(j - 1);
        }
        j = j - 1;
    }
}

/// Whether the usage's target covers the message.
pub open spec fn targets_spec(usage: SummaryUsageRow, message: MessageVersionView, order: Seq<String>) -> bool {
    match parse_target_kind(usage.target_kind@) {
        Some(SummaryTargetKind::MessageVersion) => opt_view(usage.target_message_version_id) == Some(
            message.version_id@,
        ),
        Some(SummaryTargetKind::NodeRange) => match (
            usage.target_start_node_id,
            usage.target_end_node_id,
        ) {
            (Some(start_id), Some(end_id)) => match (
                position_of(order, message.node_id@),
                position_of(order, start_id@),
                position_of(order, end_id@),
            ) {
                (Some(current), Some(start), Some(end)) => {
                    let lower = if start <= end {
                        start
                    } else {
                        end
                    };
                    let upper = if start <= end {
                        end
                    } else {
                        start
                    };
                    lower <= current <= upper
                },
                _ => false,
            },
            _ => false,
        },
        Some(SummaryTargetKind::Conversation) => opt_view(usage.conversation_id) == Some(
            message.conversation_id@,
        ),
        None => false,
    }
}

/// Whether the usage's target covers the message.
pub fn usage_targets_message(usage: &SummaryUsageRow, message: &MessageVersionView, order_index: &[String]) -> (r: bool)
    ensures
        r == targets_spec(*usage, *message, order_index@),
{
    match SummaryTargetKind::parse(usage.target_kind.as_str()) {
        Some(SummaryTargetKind::MessageVersion) => match &usage.target_message_version_id {
            Some(id) => str_eq(id.as_str(), message.version_id.as_str()),
            None => false,
        },
        Some(SummaryTargetKind::NodeRange) => {
            let start_id = match &usage.target_start_node_id {
                Some(s) => s,
                None => return false,
            };
            let end_id = match &usage.target_end_node_id {
                Some(e) => e,
                None => return false,
            };
            let current = match order_position(order_index, message.node_id.as_str()) {
                Some(c) => c,
                None => return false,
            };
            let start = match order_position(order_index, start_id.as_str()) {
                Some(s) => s,
                None => return false,
            };
            let end = match order_position(order_index, end_id.as_str()) {
                Some(e) => e,
                None => return false,
            };
            let (lower, upper) = if start <= end {
                (start, end)
            } else {
                (end, start)
            };
            current >= lower && current <= upper
        },
        Some(SummaryTargetKind::Conversation) => match &usage.conversation_id {
            Some(id) => str_eq(id.as_str(), message.conversation_id.as_str()),
            None => false,
        },
        None => false,
    }
}

/// A node-range usage targets a message exactly when the message's node
/// lies between the start and the end node of the range, both included, in
/// whichever order the two are given; in particular it targets the messages
/// on its start node and on its end node.
pub proof fn law_node_range_includes_both_ends(
    usage: &SummaryUsageRow,
    message: &MessageVersionView,
    order_index: &[String],
    r: bool,
)
    requires
        usage.target_kind@ == "node_range"@,
        usage.target_start_node_id is Some,
        usage.target_end_node_id is Some,
        position_of(order_index@, usage.target_start_node_id->0@) is Some,
        position_of(order_index@, usage.target_end_node_id->0@) is Some,
        position_of(order_index@, message.node_id@) is Some,
        call_ensures(usage_targets_message, (usage, message, order_index), r),
    ensures
        ({
            let c = position_of(order_index@, message.node_id@)->0;
            let s = position_of(order_index@, usage.target_start_node_id->0@)->0;
            let e = position_of(order_index@, usage.target_end_node_id->0@)->0;
            r == ((s <= c && c <= e) || (e <= c && c <= s))
        }),
        message.node_id@ == usage.target_start_node_id->0@ ==> r,
        message.node_id@ == usage.target_end_node_id->0@ ==> r,
{
    reveal_strlit("node_range");
    reveal_strlit("message_version");
    reveal_strlit("conversation");
    assert("node_range"@.len() != "message_version"@.len());
    assert("node_range"@[0] != "conversation"@[0]);
}

/// A usage aimed at a message version targets exactly the message of that
/// version, and one aimed at a conversation exactly the messages of that
/// conversation.
pub proof fn law_version_and_conversation_targets(
    usage: &SummaryUsageRow,
    message: &MessageVersionView,
    order_index: &[String],
    r: bool,
)
    requires
        call_ensures(usage_targets_message, (usage, message, order_index), r),
    ensures
        usage.target_kind@ == "message_version"@ ==> (r <==> (usage.target_message_version_id matches Some(v)
            && v@ == message.version_id@)),
        usage.target_kind@ == "conversation"@ ==> (r <==> (usage.conversation_id matches Some(c)
            && c@ == message.conversation_id@)),
{
    reveal_strlit("node_range");
    reveal_strlit("message_version");
    reveal_strlit("conversation");
    assert("node_range"@.len() != "message_version"@.len());
    assert("node_range"@[0] != "conversation"@[0]);
    assert("message_version"@[0] != "conversation"@[0]);
}

/// Whether the usage's activation rule lets it take effect: always when
/// manual; when automatic, only from its starting node on and once the
/// conversation has as many messages and bytes as it asks for.
pub open spec fn activation_spec(
    usage: SummaryUsageRow,
    message: MessageVersionView,
    total_messages: i64,
    total_bytes: i64,
    order: Seq<String>,
) -> bool {
    match parse_activation_mode(usage.activation_mode@) {
        Some(SummaryActivationMode::Manual) => true,
        Some(SummaryActivationMode::Auto) => {
            &&& match usage.replace_from_node_id {
                Some(from) => match (position_of(order, message.node_id@), position_of(order, from@)) {
                    (Some(m), Some(f)) => m >= f,
                    _ => false,
                },
                None => true,
            }
            &&& match usage.replace_after_message_count {
                Some(min) => total_messages >= min,
                None => true,
            }
            &&& match usage.replace_after_total_bytes {
                Some(min) => total_bytes >= min,
                None => true,
            }
        },
        None => false,
    }
}

/// Whether the usage's activation rule lets it take effect.
pub fn usage_activation_passes(
    usage: &SummaryUsageRow,
    message: &MessageVersionView,
    total_messages: i64,
    total_bytes: i64,
    order_index: &[String],
) -> (r: bool)
    ensures
        r == activation_spec(*usage, *message, total_messages, total_bytes, order_index@),
{
    match SummaryActivationMode::parse(usage.activation_mode.as_str()) {
        Some(SummaryActivationMode::Manual) => true,
        Some(SummaryActivationMode::Auto) => {
            match &usage.replace_from_node_id {
                Some(from) => {
                    let message_index = match order_position(order_index, message.node_id.as_str()) {
                        Some(m) => m,
                        None => return false,
                    };
                    let replace_index = match order_position(order_index, from.as_str()) {
                        Some(f) => f,
                        None => return false,
                    };
                    if message_index < replace_index {
                        return false;
                    }
                },
                None => {},
            }
            match usage.replace_after_message_count {
                Some(min) => {
                    if total_messages < min {
                        return false;
                    }
                },
                None => {},
            }
            match usage.replace_after_total_bytes {
                Some(min) => {
                    if total_bytes < min {
                        return false;
                    }
                },
                None => {},
            }
            true
        },
        None => false,
    }
}

/// Whether a usage stored with the scope name `stored` applies in `wanted`.
pub open spec fn scope_fits(stored: Seq<char>, wanted: SummaryUsageScope) -> bool {
    match parse_scope(stored) {
        Some(s) => match wanted {
            SummaryUsageScope::Viewer => s != SummaryUsageScope::Request,
            SummaryUsageScope::Request => s != SummaryUsageScope::Viewer,
            SummaryUsageScope::Both => true,
        },
        None => false,
    }
}

/// Whether the usage can stand in for the message.
pub open spec fn is_candidate(
    usage: SummaryUsageRow,
    message: MessageVersionView,
    scope: SummaryUsageScope,
    total_messages: i64,
    total_bytes: i64,
    order: Seq<String>,
) -> bool {
    &&& usage.enabled
    &&& scope_fits(usage.usage_scope@, scope)
    &&& targets_spec(usage, message, order)
    &&& activation_spec(usage, message, total_messages, total_bytes, order)
}

/// Whether `a` ranks below `b`: by priority, then update time, then creation time.
pub open spec fn ranks_below(a: SummaryUsageRow, b: SummaryUsageRow) -> bool {
    a.priority < b.priority || (a.priority == b.priority && (a.updated_at < b.updated_at || (
    a.updated_at == b.updated_at && a.created_at < b.created_at)))
}

/// Whether `usages[i]` is the usage chosen: a candidate that no candidate
/// ranks above, and the first such in the list.
pub open spec fn is_best_usage(
    usages: Seq<SummaryUsageRow>,
    i: int,
    message: MessageVersionView,
    scope: SummaryUsageScope,
    total_messages: i64,
    total_bytes: i64,
    order: Seq<String>,
) -> bool {
    &&& 0 <= i < usages.len()
    &&& is_candidate(usages[i], message, scope, total_messages, total_bytes, order)
    &&& forall|j: int|
        0 <= j < usages.len() && is_candidate(
            #[trigger] usages[j],
            message,
            scope,
            total_messages,
            total_bytes,
            order,
        ) ==> !ranks_below(usages[i], usages[j])
    &&& forall|j: int|
        0 <= j < i && is_candidate(#[trigger] usages[j], message, scope, total_messages, total_bytes, order)
            ==> ranks_below(usages[j], usages[i])
}

fn scope_fits_exec(stored: &str, wanted: SummaryUsageScope) -> (r: bool)
    ensures
        r == scope_fits(stored@, wanted),
{
    match SummaryUsageScope::parse(stored) {
        Some(s) => match wanted {
            SummaryUsageScope::Viewer => s.matches_viewer(),
            SummaryUsageScope::Request => s.matches_request(),
            SummaryUsageScope::Both => true,
        },
        None => false,
    }
}

fn ranks_below_exec(a: &SummaryUsageRow, b: &SummaryUsageRow) -> (r: bool)
    ensures
        r == ranks_below(*a, *b),
{
    a.priority < b.priority || (a.priority == b.priority && (a.updated_at < b.updated_at || (
    a.updated_at == b.updated_at && a.created_at < b.created_at)))
}

/// The position of the usage that stands in for the message, if any.
pub fn best_usage_index(
    usages: &[SummaryUsageRow],
    message: &MessageVersionView,
    usage_scope: SummaryUsageScope,
    total_messages: i64,
    total_bytes: i64,
    order_index: &[String],
) -> (r: Option<usize>)
    ensures
        match r {
            Some(i) => is_best_usage(
                usages@,
                i as int,
                *message,
                usage_scope,
                total_messages,
                total_bytes,
                order_index@,
            ),
            None => forall|j: int|
                0 <= j < usages@.len() ==> !is_candidate(
                    #[trigger] usages@[j],
                    *message,
                    usage_scope,
                    total_messages,
                    total_bytes,
                    order_index@,
                ),
        },
{
    let mut best: Option<usize> = None;
    let mut i: usize = 0;
    while i < usages.len()
        invariant
            i <= usages@.len(),
            match best {
                Some(b) => {
                    &&& b < i
                    &&& is_candidate(usages@[b as int], *message, usage_scope, total_messages, total_bytes, order_index@)
                    &&& forall|j: int|
                        0 <= j < i && is_candidate(
                            #[trigger] usages@[j],
                            *message,
                            usage_scope,
                            total_messages,
                            total_bytes,
                            order_index@,
                        ) ==> !ranks_below(usages@[b as int], usages@[j])
                    &&& forall|j: int|
                        0 <= j < b && is_candidate(
                            #[trigger] usages@[j],
                            *message,
                            usage_scope,
                            total_messages,
                            total_bytes,
                            order_index@,
                        ) ==> ranks_below(usages@[j], usages@[b as int])
                },
                None => forall|j: int|
                    0 <= j < i ==> !is_candidate(
                        #[trigger] usages@[j],
                        *message,
                        usage_scope,
                        total_messages,
                        total_bytes,
                        order_index@,
                    ),
            },
        decreases usages.len() - i,
    {
        let usage = &usages[i];
        let candidate = usage.enabled && scope_fits_exec(usage.usage_scope.as_str(), usage_scope)
            && usage_targets_message(usage, message, order_index) && usage_activation_passes(
            usage,
            message,
            total_messages,
            total_bytes,
            order_index,
        );
        if candidate {
            match best {
                None => {
                    best = Some(i);
                },
                Some(b) => {
                    if ranks_below_exec(&usages[b], usage) {
                        best = Some(i);
                    }
                },
            }
        }
        i = i + 1;
    }
    best
}

/// The usage that stands in for the message: among the enabled usages whose
/// scope, target and activation rule fit, the highest priority, then the
/// latest update, then the latest creation, the first listed on a tie.
pub fn pick_best_usage<'a>(
    usages: &'a [SummaryUsageRow],
    message: &MessageVersionView,
    usage_scope: SummaryUsageScope,
    total_messages: i64,
    total_bytes: i64,
    order_index: &[String],
) -> (r: Option<&'a SummaryUsageRow>)
    ensures
        match r {
            Some(u) => exists|i: int|
                is_best_usage(usages@, i, *message, usage_scope, total_messages, total_bytes, order_index@)
                    && #[trigger] usages@[i] == *u,
            None => forall|j: int|
                0 <= j < usages@.len() ==> !is_candidate(
                    #[trigger] usages@[j],
                    *message,
                    usage_scope,
                    total_messages,
                    total_bytes,
                    order_index@,
                ),
        },
{
    match best_usage_index(usages, message, usage_scope, total_messages, total_bytes, order_index) {
        Some(i) => Some(&usages[i]),
        None => None,
    }
}

/// The text of an optional string slice.
pub open spec fn str_opt_view(o: Option<&str>) -> Option<Seq<char>> {
    match o {
        Some(s) => Some(s@),
        None => None,
    }
}

/// The scope of a summary: one node, a range of nodes, or the whole conversation.
#[derive(Debug, Clone, PartialEq, Eq)]
pub enum ScopeSpec {
    Node { node_id: String },
    NodeRange { start_node_id: String, end_node_id: String },
    Conversation,
}

impl ScopeSpec {
    /// The stored columns of the scope: its kind, and the version, start
    /// node, end node and conversation it names.
    pub fn to_parts(&self) -> (r: (&str, Option<&str>, Option<&str>, Option<&str>, Option<&str>))
        ensures
            match *self {
                ScopeSpec::Node { node_id } => r.0@ == "node"@ && r.1 is None && str_opt_view(r.2) == Some(
                    node_id@,
                ) && str_opt_view(r.3) == Some(node_id@) && (r.4 is None),
                ScopeSpec::NodeRange { start_node_id, end_node_id } => r.0@ == "node_range"@ && r.1 is None
                    && str_opt_view(r.2) == Some(start_node_id@) && str_opt_view(r.3) == Some(end_node_id@)
                    && (r.4 is None),
                ScopeSpec::Conversation => r.0@ == "conversation"@ && r.1 is None && r.2 is None && r.3 is None
                    && (r.4 is None),
            },
    {
        match self {
            ScopeSpec::Node { node_id } => ("node", None, Some(node_id.as_str()), Some(node_id.as_str()), None),
            ScopeSpec::NodeRange { start_node_id, end_node_id } => (
                "node_range",
                None,
                Some(start_node_id.as_str()),
                Some(end_node_id.as_str()),
                None,
            ),
            ScopeSpec::Conversation => ("conversation", None, None, None, None),
        }
    }
}

/// Whether a part carries summary text: text or content text that is not blank.
pub open spec fn has_summary_text(part: crate::domain::ProviderMessagePart) -> bool {
    (part.text matches Some(t) && !is_blank_seq(t@)) || (part.content matches Some(c) && (
    c.text_content matches Some(t) && !is_blank_seq(t@)))
}

/// Whether `w` is what the summary part `part` stores: its text as plain
/// text, from its content where it has one.
pub open spec fn is_summary_input_of(w: ContentWriteInput, part: crate::domain::ProviderMessagePart) -> bool {
    &&& w.content_type == ContentType::Text
    &&& opt_view(w.mime_type) == Some("text/plain"@)
    &&& w.source_file_path is None
    &&& w.primary_storage_uri is None
    &&& w.config_json@ == part.metadata_json@
    &&& match part.content {
        Some(c) => {
            &&& opt_view(w.text_content) == match c.text_content {
                Some(t) => Some(t@),
                None => opt_view(c.preview_text),
            }
            &&& w.size_bytes_hint == Some(c.size_bytes)
            &&& opt_view(w.preview_text) == opt_view(c.preview_text)
        },
        None => {
            &&& opt_view(w.text_content) == opt_view(part.text)
            &&& w.size_bytes_hint is None
            &&& w.preview_text is None
        },
    }
}

fn clone_opt_string(o: &Option<String>) -> (r: Option<String>)
    ensures
        opt_view(r) == opt_view(*o),
{
    match o {
        Some(s) => Some(s.clone()),
        None => None,
    }
}

fn part_has_summary_text(part: &crate::domain::ProviderMessagePart) -> (r: bool)
    ensures
        r == has_summary_text(*part),
{
    let from_text = match &part.text {
        Some(t) => !is_blank(t.as_str()),
        None => false,
    };
    let from_content = match &part.content {
        Some(c) => match &c.text_content {
            Some(t) => !is_blank(t.as_str()),
            None => false,
        },
        None => false,
    };
    from_text || from_content
}

/// What to store for the summary a provider returned: the first part with
/// text that is not blank; a response without one is rejected.
pub fn extract_summary_content_input(response: &ProviderChatResponse) -> (r: Result<ContentWriteInput, AppError>)
    ensures
        match r {
            Ok(w) => exists|i: int|
                0 <= i < response.parts@.len() && has_summary_text(#[trigger] response.parts@[i])
                    && (forall|j: int| 0 <= j < i ==> !has_summary_text(#[trigger] response.parts@[j]))
                    && is_summary_input_of(w, response.parts@[i]),
            Err(_) => (forall|j: int|
                0 <= j < response.parts@.len() ==> !has_summary_text(#[trigger] response.parts@[j]))
                && fails_validation(
                r,
                "VALIDATION_ERROR"@,
                "provider response contained no usable summary content"@,
            ),
        },
{
    let mut i: usize = 0;
    while i < response.parts.len()
        invariant
            i <= response.parts@.len(),
            forall|j: int| 0 <= j < i ==> !has_summary_text(#[trigger] response.parts@[j]),
        decreases response.parts.len() - i,
    {
        let part = &response.parts[i];
        if part_has_summary_text(part) {
            let w = match &part.content {
                Some(content) => ContentWriteInput {
                    content_type: ContentType::Text,
                    mime_type: Some(String::from_str("text/plain")),
                    text_content: match &content.text_content {
                        Some(t) => Some(t.clone()),
                        None => clone_opt_string(&content.preview_text),
                    },
                    source_file_path: None,
                    primary_storage_uri: None,
                    size_bytes_hint: Some(content.size_bytes),
                    preview_text: clone_opt_string(&content.preview_text),
                    config_json: part.metadata_json.clone(),
                },
                None => ContentWriteInput {
                    content_type: ContentType::Text,
                    mime_type: Some(String::from_str("text/plain")),
                    text_content: clone_opt_string(&part.text),
                    source_file_path: None,
                    primary_storage_uri: None,
                    size_bytes_hint: None,
                    preview_text: None,
                    config_json: part.metadata_json.clone(),
                },
            };
            return Ok(w);
        }
        i = i + 1;
    }
    Err(AppError::validation("VALIDATION_ERROR", "provider response contained no usable summary content"))
}

/// Whether `m` is the message of a summary request that sends the context
/// item `item`: its content as one part, with its text or else its preview
/// as text, and the item's settings.
pub open spec fn is_summary_message_of(m: ProviderChatMessage, item: BuiltContextItem) -> bool {
    let c = item.rendered_content;
    &&& m.role == item.send_role
    &&& m.name is None
    &&& m.parts@.len() == 1
    &&& m.parts@[0].kind == part_kind_for(c.content_type)
    &&& opt_view(m.parts@[0].text) == first_some(opt_view(c.text_content), opt_view(c.preview_text))
    &&& m.parts@[0].content == Some(c)
    &&& m.parts@[0].metadata_json@ == item.config_json@
    &&& m.metadata_json@ == item.config_json@
}

/// The request that asks a model for a summary of the context items.
pub fn build_summary_provider_request(
    api_channel: ApiChannel,
    api_channel_model: ApiChannelModel,
    request_parameters_json: String,
    items: &[BuiltContextItem],
) -> (r: ProviderChatRequest)
    ensures
        r.api_channel == api_channel,
        r.api_channel_model == api_channel_model,
        r.request_parameters_json@ == request_parameters_json@,
        r.messages@.len() == items@.len(),
        forall|i: int| 0 <= i < r.messages@.len() ==> is_summary_message_of(#[trigger] r.messages@[i], items@[i]),
{
    let mut messages: Vec<ProviderChatMessage> = Vec::new();
    let mut i: usize = 0;
    while i < items.len()
        invariant
            i <= items@.len(),
            messages@.len() == i,
            forall|j: int| 0 <= j < i ==> is_summary_message_of(#[trigger] messages@[j], items@[j]),
        decreases items.len() - i,
    {
        let item = &items[i];
        let c = &item.rendered_content;
        let text = match &c.text_content {
            Some(t) => Some(t.clone()),
            None => copy_opt(&c.preview_text),
        };
        let mut parts = Vec::new();
        parts.push(
            ProviderMessagePart {
                kind: kind_for(c.content_type),
                text,
                content: Some(c.duplicate()),
                metadata_json: item.config_json.clone(),
            },
        );
        messages.push(
            ProviderChatMessage {
                role: item.send_role,
                name: None,
                parts,
                metadata_json: item.config_json.clone(),
            },
        );
        i = i + 1;
    }
    ProviderChatRequest { api_channel, api_channel_model, request_parameters_json, messages }
}

} // verus!
