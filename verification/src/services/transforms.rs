//! Text transforms: the rules a transform binding and its steps obey, and
//! the regular-expression steps that rewrite, remove or gate a text. The
//! expressions are compiled and run by the `regex` crate.

use vstd::prelude::*;

use crate::domain::{ContentType, StoredContent};
use crate::error::{fails_validation, AppError};
use crate::services::channel_service::opt_view;
use crate::services::content::{derive_preview_text, preview_of};
use crate::services::message_service::utf8_len;
use crate::text::{concat3, str_eq};

verus! {

/// A binding of a transform pipeline to where it applies.
#[derive(Debug, Clone, PartialEq, Eq)]
pub struct TransformBindingInput {
    pub pipeline_id: String,
    pub conversation_id: Option<String>,
    pub agent_id: Option<String>,
    pub preset_id: Option<String>,
    pub workflow_def_node_id: Option<String>,
    pub apply_viewer: bool,
    pub apply_request: bool,
    pub apply_file: bool,
    pub sort_order: i64,
    pub enabled: bool,
    pub config_json: String,
}

/// A step of a transform pipeline as stored.
#[derive(Debug, Clone, PartialEq, Eq)]
pub struct TransformStepRow {
    pub id: String,
    pub pipeline_id: String,
    pub step_order: i64,
    pub step_type: String,
    pub pattern: Option<String>,
    pub replacement_template: Option<String>,
    pub regex_flags: String,
    pub max_replacements: Option<i64>,
    pub stop_on_match: bool,
    pub child_pipeline_id: Option<String>,
    pub config_json: String,
}

/// What a step did to the text.
#[derive(Debug, Clone, PartialEq, Eq)]
pub struct StepOutcome {
    /// Whether the pipeline stops after this step.
    pub stop_pipeline: bool,
    /// The text after the step.
    pub text: String,
    /// Whether the step changed the text.
    pub changed: bool,
    /// The pipelines the step ran, for a step that runs another pipeline.
    pub traversed_pipeline_ids: Vec<String>,
}

/// The number of scopes a binding names.
pub open spec fn scope_count(input: TransformBindingInput) -> int {
    (if input.conversation_id is Some { 1int } else { 0int }) + (if input.agent_id is Some {
        1int
    } else {
        0int
    }) + (if input.preset_id is Some { 1int } else { 0int }) + (if input.workflow_def_node_id is Some {
        1int
    } else {
        0int
    })
}

/// Refuses a binding that does not name exactly one of a conversation, an
/// agent, a preset and a workflow node.
pub fn validate_binding_scope(input: &TransformBindingInput) -> (r: Result<(), AppError>)
    ensures
        r is Ok <==> scope_count(*input) == 1,
        r is Err ==> fails_validation(r, "VALIDATION_ERROR"@, "transform binding must target exactly one scope"@),
{
    let mut count: u8 = 0;
    if input.conversation_id.is_some() {
        count = count + 1;
    }
    if input.agent_id.is_some() {
        count = count + 1;
    }
    if input.preset_id.is_some() {
        count = count + 1;
    }
    if input.workflow_def_node_id.is_some() {
        count = count + 1;
    }
    if count != 1 {
        return Err(AppError::validation("VALIDATION_ERROR", "transform binding must target exactly one scope"));
    }
    Ok(())
}

/// Refuses a binding that applies at no stage.
pub fn validate_binding_stages(input: &TransformBindingInput) -> (r: Result<(), AppError>)
    ensures
        r is Ok <==> (input.apply_viewer || input.apply_request || input.apply_file),
        r is Err ==> fails_validation(r, "VALIDATION_ERROR"@, "transform binding must enable at least one stage"@),
{
    if !(input.apply_viewer || input.apply_request || input.apply_file) {
        return Err(AppError::validation("VALIDATION_ERROR", "transform binding must enable at least one stage"));
    }
    Ok(())
}

/// Whether `value` is a known pipeline kind.
pub open spec fn is_pipeline_kind(value: Seq<char>) -> bool {
    value == "regex"@ || value == "composite"@
}

/// Refuses an unknown pipeline kind.
pub fn validate_pipeline_kind(value: &str) -> (r: Result<(), AppError>)
    ensures
        r is Ok <==> is_pipeline_kind(value@),
        r is Err ==> fails_validation(
            r,
            "VALIDATION_ERROR"@,
            "unsupported transform pipeline_kind '"@ + value@ + "'"@,
        ),
{
    if str_eq(value, "regex") || str_eq(value, "composite") {
        return Ok(());
    }
    let message = concat3("unsupported transform pipeline_kind '", value, "'");
    Err(AppError::validation("VALIDATION_ERROR", message.as_str()))
}

/// Whether `value` is a known step type.
pub open spec fn is_step_type(value: Seq<char>) -> bool {
    value == "regex_replace"@ || value == "regex_extract"@ || value == "regex_remove"@ || value
        == "regex_match_gate"@ || value == "pipeline_ref"@
}

/// Refuses an unknown step type.
pub fn validate_step_type(value: &str) -> (r: Result<(), AppError>)
    ensures
        r is Ok <==> is_step_type(value@),
        r is Err ==> fails_validation(
            r,
            "VALIDATION_ERROR"@,
            "unsupported transform step_type '"@ + value@ + "'"@,
        ),
{
    if str_eq(value, "regex_replace") || str_eq(value, "regex_extract") || str_eq(value, "regex_remove")
        || str_eq(value, "regex_match_gate") || str_eq(value, "pipeline_ref") {
        return Ok(());
    }
    let message = concat3("unsupported transform step_type '", value, "'");
    Err(AppError::validation("VALIDATION_ERROR", message.as_str()))
}

/// Whether transforms apply to content of this type: text, Markdown, JSON and HTML.
pub open spec fn is_textual(t: ContentType) -> bool {
    t == ContentType::Text || t == ContentType::Markdown || t == ContentType::Json || t == ContentType::Html
}

/// Whether transforms apply to content of this type.
pub fn is_textual_content_type(content_type: ContentType) -> (r: bool)
    ensures
        r == is_textual(content_type),
{
    match content_type {
        ContentType::Text | ContentType::Markdown | ContentType::Json | ContentType::Html => true,
        _ => false,
    }
}

/// A copy of `source` that holds `text` instead, with its preview and size.
pub fn build_ephemeral_text_content(source: &StoredContent, text: String) -> (r: StoredContent)
    requires
        utf8_len(text@) <= usize::MAX,
    ensures
        r.content_id == source.content_id,
        r.content_type == source.content_type,
        r.mime_type == source.mime_type,
        r.primary_storage_uri == source.primary_storage_uri,
        r.config_json == source.config_json,
        opt_view(r.text_content) == Some(text@),
        opt_view(r.preview_text) == Some(preview_of(text@)),
        r.size_bytes == utf8_len(text@),
{
    let mut content = source.duplicate();
    let preview = derive_preview_text(text.as_str());
    let size = text.as_str().len() as u64;
    content.text_content = Some(text);
    content.preview_text = Some(preview);
    content.size_bytes = size;
    content
}

/// The replacement limit of a step: none, or a count that must not be negative.
pub fn normalize_max_replacements(value: Option<i64>) -> (r: Result<Option<usize>, AppError>)
    ensures
        match value {
            Some(v) => if v < 0 {
                fails_validation(r, "VALIDATION_ERROR"@, "max_replacements must be >= 0"@)
            } else {
                r matches Ok(Some(n)) && n == v as usize
            },
            None => r == Ok::<Option<usize>, AppError>(None),
        },
{
    match value {
        Some(v) => {
            if v < 0 {
                Err(AppError::validation("VALIDATION_ERROR", "max_replacements must be >= 0"))
            } else if v == 0 {
                Ok(Some(0))
            } else {
                Ok(Some(v as usize))
            }
        },
        None => Ok(None),
    }
}

/// The options of a regular expression, from the flag letters of a step:
/// `i` ignores case, `m` makes `^` and `$` match at lines, `s` lets `.`
/// match a line feed, `x` allows spaces and comments in the pattern.
#[derive(Debug, Clone, Copy, PartialEq, Eq, Structural)]
pub struct RegexOptions {
    pub case_insensitive: bool,
    pub multi_line: bool,
    pub dot_matches_new_line: bool,
    pub ignore_whitespace: bool,
}

/// The options that the flag letters `flags` ask for.
pub open spec fn options_of(flags: Seq<char>) -> RegexOptions {
    RegexOptions {
        case_insensitive: flags.contains('i'),
        multi_line: flags.contains('m'),
        dot_matches_new_line: flags.contains('s'),
        ignore_whitespace: flags.contains('x'),
    }
}

fn has_flag(flags: &str, c: char) -> (r: bool)
    ensures
        r == flags@.contains(c),
{
    let n = flags.unicode_len();
    let mut i: usize = 0;
    while i < n
        invariant
            n == flags@.len(),
            i <= n,
            forall|j: int| 0 <= j < i ==> flags@[j] != c,
        decreases n - i,
    {
        if flags.get_char(i) == c {
            return true;
        }
        i = i + 1;
    }
    false
}

/// The options that the flag letters `flags` ask for.
pub fn regex_options(flags: &str) -> (o: RegexOptions)
    ensures
        o == options_of(flags@),
{
    RegexOptions {
        case_insensitive: has_flag(flags, 'i'),
        multi_line: has_flag(flags, 'm'),
        dot_matches_new_line: has_flag(flags, 's'),
        ignore_whitespace: has_flag(flags, 'x'),
    }
}

/// Whether `regex::RegexBuilder` compiles `pattern` with these options and
/// Unicode on, or else the text of its error.
pub uninterp spec fn regex_build(pattern: Seq<char>, ci: bool, ml: bool, ds: bool, iw: bool) -> Result<(), Seq<char>>;

/// Whether the compiled expression matches somewhere in `text`.
pub uninterp spec fn regex_is_match(pattern: Seq<char>, ci: bool, ml: bool, ds: bool, iw: bool, text: Seq<char>) -> bool;

/// `text` with the first `limit` matches of the compiled expression
/// replaced by the template `rep`, all of them when `limit` is zero.
pub uninterp spec fn regex_replacen(
    pattern: Seq<char>,
    ci: bool,
    ml: bool,
    ds: bool,
    iw: bool,
    text: Seq<char>,
    limit: nat,
    rep: Seq<char>,
) -> Seq<char>;

/// The type `regex::Regex`, declared so that a compiled expression can be
/// kept in a field; nothing inside it is visible to the proofs.
#[verifier::external_type_specification]
#[verifier::external_body]
pub struct ExRegex(regex::Regex);

/// A compiled regular expression, with the pattern and the options it was compiled from.
pub struct CompiledRegex {
    regex: regex::Regex,
    source: Ghost<(Seq<char>, RegexOptions)>,
}

impl View for CompiledRegex {
    type V = (Seq<char>, RegexOptions);

    /// The pattern and the options.
    closed spec fn view(&self) -> (Seq<char>, RegexOptions) {
        self.source@
    }
}

/// Compiles `pattern` with `options` and Unicode on, through
/// `regex::RegexBuilder::build`. The claim is that it succeeds exactly when
/// `regex_build` says, with the error text of that name otherwise: the
/// outcome is a function of the pattern and the options alone.
#[verifier::external_body]
pub(crate) fn compile_regex(pattern: &str, options: RegexOptions) -> (r: Result<CompiledRegex, String>)
    ensures
        match r {
            Ok(re) => regex_build(
                pattern@,
                options.case_insensitive,
                options.multi_line,
                options.dot_matches_new_line,
                options.ignore_whitespace,
            ) is Ok && re@ == (pattern@, options),
            Err(e) => regex_build(
                pattern@,
                options.case_insensitive,
                options.multi_line,
                options.dot_matches_new_line,
                options.ignore_whitespace,
            ) == Err::<(), Seq<char>>(e@),
        },
{
    match regex::RegexBuilder::new(pattern).case_insensitive(options.case_insensitive).multi_line(
        options.multi_line,
    ).dot_matches_new_line(options.dot_matches_new_line).ignore_whitespace(options.ignore_whitespace).unicode(true).build() {
        Ok(regex) => Ok(CompiledRegex { regex, source: Ghost((pattern@, options)) }),
        Err(err) => Err(err.to_string()),
    }
}

/// Whether the expression matches somewhere in `text`, through `regex::Regex::is_match`.
#[verifier::external_body]
pub(crate) fn regex_matches(re: &CompiledRegex, text: &str) -> (r: bool)
    ensures
        r == regex_is_match(
            re@.0,
            re@.1.case_insensitive,
            re@.1.multi_line,
            re@.1.dot_matches_new_line,
            re@.1.ignore_whitespace,
            text@,
        ),
{
    re.regex.is_match(text)
}

/// `text` with the first `limit` matches replaced by the template `rep`,
/// all of them when `limit` is zero, through `regex::Regex::replacen`.
#[verifier::external_body]
fn regex_replace_n(re: &CompiledRegex, text: &str, limit: usize, rep: &str) -> (r: String)
    ensures
        r@ == regex_replacen(
            re@.0,
            re@.1.case_insensitive,
            re@.1.multi_line,
            re@.1.dot_matches_new_line,
            re@.1.ignore_whitespace,
            text@,
            limit as nat,
            rep@,
        ),
{
    re.regex.replacen(text, limit, rep).to_string()
}

/// `text` with every match replaced by the template `rep`, through
/// `regex::Regex::replace_all`, which its documentation defines as
/// `replacen` with a limit of zero.
#[verifier::external_body]
fn regex_replace_all(re: &CompiledRegex, text: &str, rep: &str) -> (r: String)
    ensures
        r@ == regex_replacen(
            re@.0,
            re@.1.case_insensitive,
            re@.1.multi_line,
            re@.1.dot_matches_new_line,
            re@.1.ignore_whitespace,
            text@,
            0,
            rep@,
        ),
{
    re.regex.replace_all(text, rep).to_string()
}

/// The message of the error for a pattern that does not compile.
pub open spec fn invalid_regex_message(pattern: Seq<char>, err: Seq<char>) -> Seq<char> {
    "invalid regex '"@ + pattern + "': "@ + err
}

/// Compiles the pattern of a step with the options of its flags.
pub fn build_regex(pattern: &str, flags: &str) -> (r: Result<CompiledRegex, AppError>)
    ensures
        ({
            let o = options_of(flags@);
            match regex_build(pattern@, o.case_insensitive, o.multi_line, o.dot_matches_new_line, o.ignore_whitespace) {
                Ok(()) => r matches Ok(re) && re@ == (pattern@, o),
                Err(e) => fails_validation(r, "VALIDATION_ERROR"@, invalid_regex_message(pattern@, e)),
            }
        }),
{
    let options = regex_options(flags);
    match compile_regex(pattern, options) {
        Ok(re) => Ok(re),
        Err(err) => {
            let mut message = concat3("invalid regex '", pattern, "': ");
            message.append(err.as_str());
            Err(AppError::validation("VALIDATION_ERROR", message.as_str()))
        },
    }
}

/// The expression a step compiles to: its pattern with the options of its flags.
pub open spec fn step_regex(pattern: Seq<char>, flags: Seq<char>) -> (Seq<char>, RegexOptions) {
    (pattern, options_of(flags))
}

/// `text` rewritten by the step's expression: up to `limit` replacements by
/// `rep`, all of them without a limit.
pub open spec fn rewritten(re: (Seq<char>, RegexOptions), text: Seq<char>, limit: Option<usize>, rep: Seq<char>) -> Seq<char> {
    regex_replacen(
        re.0,
        re.1.case_insensitive,
        re.1.multi_line,
        re.1.dot_matches_new_line,
        re.1.ignore_whitespace,
        text,
        match limit {
            Some(n) => n as nat,
            None => 0,
        },
        rep,
    )
}

/// Whether the step's expression matches in `text`.
pub open spec fn matched(re: (Seq<char>, RegexOptions), text: Seq<char>) -> bool {
    regex_is_match(re.0, re.1.case_insensitive, re.1.multi_line, re.1.dot_matches_new_line, re.1.ignore_whitespace, text)
}

fn rewrite(re: &CompiledRegex, text: &str, limit: Option<usize>, rep: &str) -> (r: String)
    ensures
        r@ == rewritten(re@, text@, limit, rep@),
{
    match limit {
        Some(n) => regex_replace_n(re, text, n, rep),
        None => regex_replace_all(re, text, rep),
    }
}

/// The outcome of a step that rewrote `input` into `output`, where the
/// expression did or did not match: the pipeline stops when the step asks
/// to stop on a match and there was one.
pub open spec fn rewrite_outcome(o: StepOutcome, stop_on_match: bool, was_match: bool, input: Seq<char>, output: Seq<char>) -> bool {
    &&& o.stop_pipeline == (stop_on_match && was_match)
    &&& o.changed == (output != input)
    &&& o.text@ == output
    &&& o.traversed_pipeline_ids@.len() == 0
}

/// Rewrites the text with the pattern of a `regex_replace` step and its
/// replacement template. The step must have both; its pattern must
/// compile and its limit must not be negative.
pub fn apply_regex_replace(step: &TransformStepRow, input_text: String) -> (r: Result<StepOutcome, AppError>)
    ensures
        step.pattern is None ==> fails_validation(r, "VALIDATION_ERROR"@, "regex_replace step requires pattern"@),
        step.pattern is Some && step.replacement_template is None ==> fails_validation(
            r,
            "VALIDATION_ERROR"@,
            "regex_replace step requires replacement_template"@,
        ),
        step.pattern is Some && step.replacement_template is Some && ({
            let re = step_regex(step.pattern->0@, step.regex_flags@);
            regex_build(re.0, re.1.case_insensitive, re.1.multi_line, re.1.dot_matches_new_line, re.1.ignore_whitespace) is Ok
        })
            && (step.max_replacements matches Some(v) ==> v >= 0) ==> (r is Ok),
        r matches Ok(o) ==> ({
            let re = step_regex(step.pattern->0@, step.regex_flags@);
            &&& regex_build(re.0, re.1.case_insensitive, re.1.multi_line, re.1.dot_matches_new_line, re.1.ignore_whitespace) is Ok
            &&& step.max_replacements matches Some(v) ==> v >= 0
            &&& rewrite_outcome(
                o,
                step.stop_on_match,
                matched(re, input_text@),
                input_text@,
                rewritten(
                    re,
                    input_text@,
                    match step.max_replacements {
                        Some(v) => Some(v as usize),
                        None => None,
                    },
                    step.replacement_template->0@,
                ),
            )
        }),
{
    let pattern = match &step.pattern {
        Some(p) => p,
        None => return Err(AppError::validation("VALIDATION_ERROR", "regex_replace step requires pattern")),
    };
    let replacement = match &step.replacement_template {
        Some(t) => t,
        None => return Err(
            AppError::validation("VALIDATION_ERROR", "regex_replace step requires replacement_template"),
        ),
    };
    let regex = match build_regex(pattern.as_str(), step.regex_flags.as_str()) {
        Ok(re) => re,
        Err(e) => return Err(e),
    };
    let limit = match normalize_max_replacements(step.max_replacements) {
        Ok(l) => l,
        Err(e) => return Err(e),
    };
    let was_match = regex_matches(&regex, input_text.as_str());
    let replaced = rewrite(&regex, input_text.as_str(), limit, replacement.as_str());
    let changed = !(replaced == input_text);
    Ok(StepOutcome { stop_pipeline: step.stop_on_match && was_match, changed, text: replaced, traversed_pipeline_ids: Vec::new() })
}

/// Removes the matches of the pattern of a `regex_remove` step. The step
/// must have a pattern that compiles, and its limit must not be negative.
pub fn apply_regex_remove(step: &TransformStepRow, input_text: String) -> (r: Result<StepOutcome, AppError>)
    ensures
        step.pattern is None ==> fails_validation(r, "VALIDATION_ERROR"@, "regex_remove step requires pattern"@),
        step.pattern is Some && ({
            let re = step_regex(step.pattern->0@, step.regex_flags@);
            regex_build(re.0, re.1.case_insensitive, re.1.multi_line, re.1.dot_matches_new_line, re.1.ignore_whitespace) is Ok
        }) && (step.max_replacements matches Some(v) ==> v >= 0)
            ==> (r is Ok),
        r matches Ok(o) ==> ({
            let re = step_regex(step.pattern->0@, step.regex_flags@);
            &&& regex_build(re.0, re.1.case_insensitive, re.1.multi_line, re.1.dot_matches_new_line, re.1.ignore_whitespace) is Ok
            &&& step.max_replacements matches Some(v) ==> v >= 0
            &&& rewrite_outcome(
                o,
                step.stop_on_match,
                matched(re, input_text@),
                input_text@,
                rewritten(
                    re,
                    input_text@,
                    match step.max_replacements {
                        Some(v) => Some(v as usize),
                        None => None,
                    },
                    Seq::empty(),
                ),
            )
        }),
{
    let pattern = match &step.pattern {
        Some(p) => p,
        None => return Err(AppError::validation("VALIDATION_ERROR", "regex_remove step requires pattern")),
    };
    let regex = match build_regex(pattern.as_str(), step.regex_flags.as_str()) {
        Ok(re) => re,
        Err(e) => return Err(e),
    };
    let limit = match normalize_max_replacements(step.max_replacements) {
        Ok(l) => l,
        Err(e) => return Err(e),
    };
    let was_match = regex_matches(&regex, input_text.as_str());
    let empty = "";
    proof {
        reveal_strlit("");
        assert(empty@ =~= Seq::<char>::empty());
    }
    let replaced = rewrite(&regex, input_text.as_str(), limit, empty);
    let changed = !(replaced == input_text);
    Ok(StepOutcome { stop_pipeline: step.stop_on_match && was_match, changed, text: replaced, traversed_pipeline_ids: Vec::new() })
}

/// Lets the text through unchanged, and stops the pipeline when the pattern
/// of a `regex_match_gate` step does not match, or when it matches and the
/// step asks to stop on a match.
pub fn apply_regex_match_gate(step: &TransformStepRow, input_text: String) -> (r: Result<StepOutcome, AppError>)
    ensures
        step.pattern is None ==> fails_validation(r, "VALIDATION_ERROR"@, "regex_match_gate step requires pattern"@),
        step.pattern is Some && ({
            let re = step_regex(step.pattern->0@, step.regex_flags@);
            regex_build(re.0, re.1.case_insensitive, re.1.multi_line, re.1.dot_matches_new_line, re.1.ignore_whitespace) is Ok
        }) ==> (r is Ok),
        r matches Ok(o) ==> ({
            let re = step_regex(step.pattern->0@, step.regex_flags@);
            let m = matched(re, input_text@);
            &&& regex_build(re.0, re.1.case_insensitive, re.1.multi_line, re.1.dot_matches_new_line, re.1.ignore_whitespace) is Ok
            &&& o.stop_pipeline == (!m || step.stop_on_match)
            &&& !o.changed
            &&& o.text@ == input_text@
            &&& o.traversed_pipeline_ids@.len() == 0
        }),
{
    let pattern = match &step.pattern {
        Some(p) => p,
        None => return Err(AppError::validation("VALIDATION_ERROR", "regex_match_gate step requires pattern")),
    };
    let regex = match build_regex(pattern.as_str(), step.regex_flags.as_str()) {
        Ok(re) => re,
        Err(e) => return Err(e),
    };
    let was_match = regex_matches(&regex, input_text.as_str());
    Ok(StepOutcome {
        stop_pipeline: !was_match || (step.stop_on_match && was_match),
        changed: false,
        text: input_text,
        traversed_pipeline_ids: Vec::new(),
    })
}

/// A `regex_remove` step whose pattern is given and compiles, and whose
/// limit is absent or not negative, always succeeds: it hands back the text
/// with the matches of the pattern removed (up to the limit), changed
/// exactly when that differs from the input, and stops the pipeline only
/// when the step asks to stop on a match and the pattern matched.
pub proof fn law_regex_remove_succeeds(step: &TransformStepRow, input_text: String, r: Result<StepOutcome, AppError>)
    requires
        step.pattern is Some,
        ({
            let o = options_of(step.regex_flags@);
            regex_build(step.pattern->0@, o.case_insensitive, o.multi_line, o.dot_matches_new_line, o.ignore_whitespace) is Ok
        }),
        step.max_replacements matches Some(v) ==> v >= 0,
        call_ensures(apply_regex_remove, (step, input_text), r),
    ensures
        r matches Ok(out) && ({
            let o = options_of(step.regex_flags@);
            let p = step.pattern->0@;
            let removed = regex_replacen(
                p,
                o.case_insensitive,
                o.multi_line,
                o.dot_matches_new_line,
                o.ignore_whitespace,
                input_text@,
                match step.max_replacements {
                    Some(v) => (v as usize) as nat,
                    None => 0,
                },
                Seq::empty(),
            );
            &&& out.text@ == removed
            &&& out.changed == (removed != input_text@)
            &&& out.stop_pipeline == (step.stop_on_match && regex_is_match(
                p,
                o.case_insensitive,
                o.multi_line,
                o.dot_matches_new_line,
                o.ignore_whitespace,
                input_text@,
            ))
        }),
{
}

} // verus!
