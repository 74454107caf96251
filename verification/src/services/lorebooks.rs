//! Keyword activation of lorebook entries: which enabled keys of an entry
//! occur in the recent conversation, and whether the entry's keyword logic
//! lets it in. Keys are plain text, matched with or without case, or
//! regular expressions.

use vstd::prelude::*;

use crate::domain::ContentType;
use crate::error::{fails_validation, AppError};
use crate::services::transforms::{compile_regex, regex_build, regex_is_match, regex_matches, RegexOptions};
use crate::providers::common::{join_lines, string_views};
use crate::text::{concat3, find, nowhere, str_eq};

verus! {

/// A key of a lorebook entry.
#[derive(Debug, Clone, PartialEq, Eq)]
pub struct LorebookEntryKeyDetail {
    pub id: String,
    pub pattern_text: String,
    /// `regex`, or anything else for plain text.
    pub match_type: String,
    pub case_sensitive: bool,
    pub enabled: bool,
}

/// The outcome of a keyword match: the keys found and how many keys were looked for.
#[derive(Debug, Clone, PartialEq, Eq)]
pub struct KeywordMatch {
    pub matched_keys: Vec<String>,
    pub matched_count: usize,
    pub total_count: usize,
}

/// The text in lower case, as `str::to_lowercase` gives it.
pub uninterp spec fn lowercase_of(s: Seq<char>) -> Seq<char>;

/// The text in lower case, from `str::to_lowercase`; the claim is that the
/// result is a function of the text alone.
#[verifier::external_body]
fn to_lowercase(s: &str) -> (r: String)
    ensures
        r@ == lowercase_of(s@),
{
    s.to_lowercase()
}

/// Whether a regular-expression key matches: it compiles with case ignored
/// unless the key is case sensitive, and matches somewhere in the corpus;
/// or else the compile error.
pub open spec fn regex_key_result(key: LorebookEntryKeyDetail, corpus: Seq<char>) -> Result<bool, Seq<char>> {
    let ci = !key.case_sensitive;
    match regex_build(key.pattern_text@, ci, false, false, false) {
        Ok(()) => Ok(regex_is_match(key.pattern_text@, ci, false, false, false, corpus)),
        Err(e) => Err(e),
    }
}

/// Whether a plain key occurs in the corpus, in lower case unless the key is case sensitive.
pub open spec fn plain_key_matches(key: LorebookEntryKeyDetail, corpus: Seq<char>) -> bool {
    if key.case_sensitive {
        !nowhere(corpus, key.pattern_text@)
    } else {
        !nowhere(lowercase_of(corpus), lowercase_of(key.pattern_text@))
    }
}

/// Whether the key matches the corpus, or the message of the error for a
/// regular expression that does not compile.
pub open spec fn key_result(key: LorebookEntryKeyDetail, corpus: Seq<char>) -> Result<bool, Seq<char>> {
    if key.match_type@ == "regex"@ {
        match regex_key_result(key, corpus) {
            Ok(b) => Ok(b),
            Err(e) => Err("invalid lorebook entry regex '"@ + key.pattern_text@ + "': "@ + e),
        }
    } else {
        Ok(plain_key_matches(key, corpus))
    }
}

/// Whether the key matches the corpus.
pub fn key_matches(key: &LorebookEntryKeyDetail, corpus: &str) -> (r: Result<bool, AppError>)
    ensures
        match key_result(*key, corpus@) {
            Ok(b) => r == Ok::<bool, AppError>(b),
            Err(m) => fails_validation(r, "VALIDATION_ERROR"@, m),
        },
{
    if str_eq(key.match_type.as_str(), "regex") {
        let options = RegexOptions {
            case_insensitive: !key.case_sensitive,
            multi_line: false,
            dot_matches_new_line: false,
            ignore_whitespace: false,
        };
        match compile_regex(key.pattern_text.as_str(), options) {
            Ok(re) => Ok(regex_matches(&re, corpus)),
            Err(err) => {
                let mut message = concat3("invalid lorebook entry regex '", key.pattern_text.as_str(), "': ");
                message.append(err.as_str());
                Err(AppError::validation("VALIDATION_ERROR", message.as_str()))
            },
        }
    } else if key.case_sensitive {
        Ok(find(corpus, key.pattern_text.as_str()).is_some())
    } else {
        let lower_corpus = to_lowercase(corpus);
        let lower_key = to_lowercase(key.pattern_text.as_str());
        Ok(find(lower_corpus.as_str(), lower_key.as_str()).is_some())
    }
}

/// A regular-expression key is compiled ignoring case exactly when the key
/// is not case sensitive: when its pattern compiles that way, whether the
/// key matches is whether that expression matches somewhere in the corpus.
pub proof fn law_regex_key_case(key: &LorebookEntryKeyDetail, corpus: &str, r: Result<bool, AppError>)
    requires
        key.match_type@ == "regex"@,
        call_ensures(key_matches, (key, corpus), r),
    ensures
        key.case_sensitive && regex_build(key.pattern_text@, false, false, false, false) is Ok ==> r == Ok::<
            bool,
            AppError,
        >(regex_is_match(key.pattern_text@, false, false, false, false, corpus@)),
        !key.case_sensitive && regex_build(key.pattern_text@, true, false, false, false) is Ok ==> r == Ok::<
            bool,
            AppError,
        >(regex_is_match(key.pattern_text@, true, false, false, false, corpus@)),
{
}

/// A plain key always gives an answer: a case-sensitive one matches exactly
/// when its text occurs in the corpus as it is, any other when its lower
/// case occurs in the lower-case corpus.
pub proof fn law_plain_key_case(key: &LorebookEntryKeyDetail, corpus: &str, r: Result<bool, AppError>)
    requires
        key.match_type@ != "regex"@,
        call_ensures(key_matches, (key, corpus), r),
    ensures
        key.case_sensitive ==> r == Ok::<bool, AppError>(!nowhere(corpus@, key.pattern_text@)),
        !key.case_sensitive ==> r == Ok::<bool, AppError>(
            !nowhere(lowercase_of(corpus@), lowercase_of(key.pattern_text@)),
        ),
{
}

/// Whether the entry is let in, given how many of its keys matched: `and_any`
/// (and anything unknown) asks for one, `and_all` for all, `not_any` for
/// none, `not_all` for fewer than all.
pub open spec fn logic_admits(logic: Seq<char>, matched: nat, total: nat) -> bool {
    if logic == "and_all"@ {
        matched == total
    } else if logic == "not_any"@ {
        matched == 0
    } else if logic == "not_all"@ {
        matched < total
    } else {
        matched > 0
    }
}

/// The patterns of the enabled keys that matched, in order, when every
/// regular expression compiles.
pub open spec fn matched_patterns(keys: Seq<LorebookEntryKeyDetail>, corpus: Seq<char>) -> Seq<Seq<char>>
    decreases keys.len(),
{
    if keys.len() == 0 {
        Seq::empty()
    } else {
        let k = keys.last();
        let before = matched_patterns(keys.drop_last(), corpus);
        if k.enabled && key_result(k, corpus) == Ok::<bool, Seq<char>>(true) {
            before.push(k.pattern_text@)
        } else {
            before
        }
    }
}

/// The number of enabled keys.
pub open spec fn enabled_count(keys: Seq<LorebookEntryKeyDetail>) -> nat
    decreases keys.len(),
{
    if keys.len() == 0 {
        0
    } else {
        enabled_count(keys.drop_last()) + if keys.last().enabled {
            1nat
        } else {
            0nat
        }
    }
}

/// Whether every enabled key can be evaluated: its regular expression compiles.
pub open spec fn all_keys_evaluate(keys: Seq<LorebookEntryKeyDetail>, corpus: Seq<char>) -> bool {
    forall|i: int| 0 <= i < keys.len() && (#[trigger] keys[i]).enabled ==> key_result(keys[i], corpus) is Ok
}

/// Which enabled keys of an entry occur in the corpus, and whether the
/// entry's keyword logic lets it in; an entry without enabled keys never
/// matches. A regular expression that does not compile is an error.
pub fn evaluate_keyword_match(keys: &[LorebookEntryKeyDetail], keyword_logic: &str, corpus: &str) -> (r: Result<
    Option<KeywordMatch>,
    AppError,
>)
    ensures
        r is Ok ==> all_keys_evaluate(keys@, corpus@),
        r is Err ==> !all_keys_evaluate(keys@, corpus@),
        r matches Ok(m) ==> (match m {
            Some(km) => enabled_count(keys@) > 0 && km.total_count == enabled_count(keys@)
                && km.matched_count == km.matched_keys@.len() && km.matched_keys@.map_values(
                |s: String| s@,
            ) == matched_patterns(keys@, corpus@) && logic_admits(
                keyword_logic@,
                km.matched_count as nat,
                km.total_count as nat,
            ),
            None => enabled_count(keys@) == 0 || !logic_admits(
                keyword_logic@,
                matched_patterns(keys@, corpus@).len(),
                enabled_count(keys@),
            ),
        }),
{
    let mut matched_keys: Vec<String> = Vec::new();
    let mut total: usize = 0;
    let mut i: usize = 0;
    while i < keys.len()
        invariant
            i <= keys@.len(),
            total == enabled_count(keys@.take(i as int)),
            total <= i,
            matched_keys@.map_values(|s: String| s@) == matched_patterns(keys@.take(i as int), corpus@),
            all_keys_evaluate(keys@.take(i as int), corpus@),
        decreases keys.len() - i,
    {
        let key = &keys[i];
        let ghost before = matched_keys@;
        proof {
            assert(keys@.take(i + 1 as int).drop_last() =~= keys@.take(i as int));
            assert(keys@.take(i + 1 as int).last() == keys@[i as int]);
        }
        if key.enabled {
            match key_matches(key, corpus) {
                Ok(true) => {
                    matched_keys.push(key.pattern_text.clone());
                    proof {
                        assert(matched_keys@.map_values(|s: String| s@) =~= before.map_values(|s: String| s@).push(
                            key.pattern_text@,
                        ));
                    }
                },
                Ok(false) => {},
                Err(e) => {
                    proof {
                        assert(!all_keys_evaluate(keys@, corpus@)) by {
                            assert(keys@[i as int].enabled);
                        }
                    }
                    return Err(e);
                },
            }
            total = total + 1;
        }
        proof {
            assert forall|j: int| 0 <= j < i + 1 && (#[trigger] keys@.take(i + 1 as int)[j]).enabled implies key_result(
                keys@.take(i + 1 as int)[j],
                corpus@,
            ) is Ok by {
                if j < i {
                    assert(keys@.take(i + 1 as int)[j] == keys@.take(i as int)[j]);
                }
            }
        }
        i = i + 1;
    }
    proof {
        assert(keys@.take(keys@.len() as int) =~= keys@);
    }
    if total == 0 {
        return Ok(None);
    }
    let matched_count = matched_keys.len();
    let admitted = if str_eq(keyword_logic, "and_all") {
        matched_count == total
    } else if str_eq(keyword_logic, "not_any") {
        matched_count == 0
    } else if str_eq(keyword_logic, "not_all") {
        matched_count < total
    } else {
        matched_count > 0
    };
    proof {
        assert(matched_count == matched_patterns(keys@, corpus@).len());
    }
    if !admitted {
        return Ok(None);
    }
    Ok(Some(KeywordMatch { matched_keys, matched_count, total_count: total }))
}

/// Refuses entry content that is not textual: text, Markdown, HTML or JSON.
pub fn ensure_prompt_content(content_type: &ContentType) -> (r: Result<(), AppError>)
    ensures
        r is Ok <==> (*content_type == ContentType::Text || *content_type == ContentType::Markdown
            || *content_type == ContentType::Html || *content_type == ContentType::Json),
        r is Err ==> fails_validation(r, "VALIDATION_ERROR"@, "lorebook entry content must be textual"@),
{
    match content_type {
        ContentType::Text | ContentType::Markdown | ContentType::Html | ContentType::Json => Ok(()),
        _ => Err(AppError::validation("VALIDATION_ERROR", "lorebook entry content must be textual")),
    }
}

/// How an entry of a lorebook takes part in a match.
#[derive(Debug, Clone, Copy, PartialEq, Eq, Structural)]
pub enum EntryActivation {
    /// The entry is left out: switched off, or of a strategy that is not
    /// matched here (`vector`, or an unknown one).
    Skipped,
    /// The entry always comes in, with the full score.
    Constant,
    /// The entry comes in when its keys match.
    Keyword,
}

/// How an entry takes part: switched-off entries are left out unless they
/// are asked for; `constant` entries always come in; `keyword` entries
/// come in by their keys; any other strategy is left out.
pub fn entry_activation(enabled: bool, include_disabled: bool, strategy: &str) -> (r: EntryActivation)
    ensures
        !include_disabled && !enabled ==> r == EntryActivation::Skipped,
        include_disabled || enabled ==> r == (if strategy@ == "constant"@ {
            EntryActivation::Constant
        } else if strategy@ == "keyword"@ {
            EntryActivation::Keyword
        } else {
            EntryActivation::Skipped
        }),
{
    if !include_disabled && !enabled {
        return EntryActivation::Skipped;
    }
    if str_eq(strategy, "constant") {
        EntryActivation::Constant
    } else if str_eq(strategy, "keyword") {
        EntryActivation::Keyword
    } else {
        EntryActivation::Skipped
    }
}

/// The text keys are looked for in: the recent messages joined with line feeds.
pub fn match_corpus(recent_messages: &[String]) -> (r: String)
    ensures
        r@ == join_lines(string_views(recent_messages@)),
{
    let mut r = String::new();
    let mut i: usize = 0;
    while i < recent_messages.len()
        invariant
            i <= recent_messages@.len(),
            r@ == join_lines(string_views(recent_messages@.take(i as int))),
        decreases recent_messages.len() - i,
    {
        proof {
            assert(string_views(recent_messages@.take(i + 1 as int)).drop_last() =~= string_views(
                recent_messages@.take(i as int),
            ));
            assert(string_views(recent_messages@.take(i + 1 as int)).last() == recent_messages@[i as int]@);
        }
        if i > 0 {
            r.append("\n");
            proof {
                reveal_strlit("\n");
            }
        }
        r.append(recent_messages[i].as_str());
        i = i + 1;
        proof {
            if i == 1 {
                assert(string_views(recent_messages@.take(1)) =~= seq![recent_messages@[0]@]);
            }
        }
    }
    assert(recent_messages@.take(recent_messages@.len() as int) =~= recent_messages@);
    r
}

} // verus!
