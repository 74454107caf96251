//! Identifiers and clock readings, taken from the `uuid` and `chrono`
//! crates, and the reading and writing of JSON text with `serde_json`: a
//! document in its compact form, the members of an object, and objects
//! made of given members.

use vstd::prelude::*;

use crate::services::channel_service::opt_view;
use crate::text::str_eq;

verus! {

/// A fresh UUID version 7 (time ordered, random tail) in its hyphenated
/// lower-case form, from `uuid::Uuid::now_v7` rendered by its `Display`
/// impl. The value depends on the time and on chance, so the only claim is
/// the length of the hyphenated form, 36 characters.
#[verifier::external_body]
pub fn new_uuid_v7() -> (id: String)
    ensures
        id@.len() == 36,
{
    uuid::Uuid::now_v7().to_string()
}

/// The current time in milliseconds since the Unix epoch, from
/// `chrono::Utc::now().timestamp_millis()`. It depends on the clock, so
/// nothing is claimed of it.
#[verifier::external_body]
pub fn current_timestamp_ms() -> (ms: i64) {
    chrono::Utc::now().timestamp_millis()
}

/// What `serde_json` makes of `text`: the compact text of the document it
/// holds, as `serde_json::Value` prints it, or the message of the error.
pub uninterp spec fn json_parse_of(text: Seq<char>) -> Result<Seq<char>, Seq<char>>;

/// Reads `text` with `serde_json::from_str::<serde_json::Value>` and hands
/// back the document printed again in its compact form (`Value`'s
/// `Display`: no spaces, object keys in sorted order, so an empty object
/// prints as `{}` and only an object starts with `{`), or the error's
/// message. The claim is that the outcome is a function of the text alone.
#[verifier::external_body]
pub fn parse_json_text(text: &str) -> (r: Result<String, String>)
    ensures
        match r {
            Ok(t) => json_parse_of(text@) == Ok::<Seq<char>, Seq<char>>(t@),
            Err(e) => json_parse_of(text@) == Err::<Seq<char>, Seq<char>>(e@),
        },
{
    match serde_json::from_str::<serde_json::Value>(text) {
        Ok(value) => Ok(value.to_string()),
        Err(err) => Err(err.to_string()),
    }
}

/// One member of a JSON object: its key, its value when that value is a
/// string, and the compact text of the value.
pub type JsonMember = (String, Option<String>, String);

/// The text of a member.
pub open spec fn member_view(m: JsonMember) -> (Seq<char>, Option<Seq<char>>, Seq<char>) {
    (m.0@, opt_view(m.1), m.2@)
}

/// The texts of members.
pub open spec fn members_view(v: Seq<JsonMember>) -> Seq<(Seq<char>, Option<Seq<char>>, Seq<char>)> {
    v.map_values(|m: JsonMember| member_view(m))
}

/// What `serde_json` finds in `text` when it holds an object: its members,
/// in the order in which the object hands them out.
pub uninterp spec fn json_object_members_of(text: Seq<char>) -> Option<Seq<(Seq<char>, Option<Seq<char>>, Seq<char>)>>;

/// Reads `text` with `serde_json::from_str::<serde_json::Value>`; when it
/// holds an object (`Value::as_object`), hands back each member in the
/// order of the object's iterator: the key, the value as a string when it
/// is one (`Value::as_str`), and the value printed compactly (`Display`).
/// Text that does not parse, or holds another kind of value, gives `None`.
/// The claim is that the outcome is a function of the text alone.
#[verifier::external_body]
pub fn json_object_members(text: &str) -> (r: Option<Vec<JsonMember>>)
    ensures
        match r {
            Some(v) => json_object_members_of(text@) == Some(members_view(v@)),
            None => json_object_members_of(text@) is None,
        },
{
    let value: serde_json::Value = match serde_json::from_str(text) {
        Ok(value) => value,
        Err(_) => return None,
    };
    let object = value.as_object()?;
    Some(object.iter().map(|(key, member)| (key.clone(), member.as_str().map(str::to_string), member.to_string())).collect())
}

/// The text of a member: key, string value if any, compact value.
pub type MemberText = (Seq<char>, Option<Seq<char>>, Seq<char>);

/// The first member under `key`.
pub open spec fn first_member(ms: Seq<MemberText>, key: Seq<char>) -> Option<MemberText>
    decreases ms.len(),
{
    if ms.len() == 0 {
        None
    } else if ms[0].0 == key {
        Some(ms[0])
    } else {
        first_member(ms.drop_first(), key)
    }
}

/// Where the first member under `key` stands.
pub fn find_member(ms: &Vec<JsonMember>, key: &str) -> (r: Option<usize>)
    ensures
        match r {
            Some(j) => j < ms@.len() && first_member(members_view(ms@), key@) == Some(
                member_view(ms@[j as int]),
            ),
            None => first_member(members_view(ms@), key@) is None,
        },
{
    let ghost all = members_view(ms@);
    let mut i: usize = 0;
    assert(all.subrange(0, all.len() as int) =~= all);
    while i < ms.len()
        invariant
            i <= ms@.len(),
            all == members_view(ms@),
            first_member(all.subrange(i as int, all.len() as int), key@) == first_member(all, key@),
        decreases ms.len() - i,
    {
        let ghost rest = all.subrange(i as int, all.len() as int);
        assert(rest[0] == member_view(ms@[i as int]));
        if str_eq(ms[i].0.as_str(), key) {
            return Some(i);
        }
        assert(rest.drop_first() =~= all.subrange(i + 1, all.len() as int));
        i = i + 1;
    }
    None
}

/// The members of the object held by the member `key` of the object in
/// `config`; none where either object is missing.
pub open spec fn nested_members(config: Seq<char>, key: Seq<char>) -> Seq<MemberText> {
    match json_object_members_of(config) {
        Some(ms) => match first_member(ms, key) {
            Some(m) => match json_object_members_of(m.2) {
                Some(inner) => inner,
                None => Seq::empty(),
            },
            None => Seq::empty(),
        },
        None => Seq::empty(),
    }
}

/// The members of the object held by the member `key` of the object in `config`.
pub fn nested_object_members(config: &str, key: &str) -> (r: Vec<JsonMember>)
    ensures
        members_view(r@) == nested_members(config@, key@),
{
    assert(members_view(Seq::<JsonMember>::empty()) =~= Seq::empty());
    match json_object_members(config) {
        Some(ms) => match find_member(&ms, key) {
            Some(j) => match json_object_members(ms[j].2.as_str()) {
                Some(inner) => inner,
                None => Vec::new(),
            },
            None => Vec::new(),
        },
        None => Vec::new(),
    }
}

/// The string held by the member `key` of the object in `config`, if any.
pub open spec fn string_member(config: Seq<char>, key: Seq<char>) -> Option<Seq<char>> {
    match json_object_members_of(config) {
        Some(ms) => match first_member(ms, key) {
            Some(m) => m.1,
            None => None,
        },
        None => None,
    }
}

/// The string held by the member `key` of the object in `config`, if any.
pub fn string_member_of(config: &str, key: &str) -> (r: Option<String>)
    ensures
        opt_view(r) == string_member(config@, key@),
{
    match json_object_members(config) {
        Some(ms) => match find_member(&ms, key) {
            Some(j) => ms[j].1.clone(),
            None => None,
        },
        None => None,
    }
}

/// The texts of pairs of strings.
pub open spec fn string_pairs_view(v: Seq<(String, String)>) -> Seq<(Seq<char>, Seq<char>)> {
    v.map_values(|p: (String, String)| (p.0@, p.1@))
}

/// The compact text of the JSON object whose members are the given keys
/// with the given strings as values, as `serde_json` prints it.
pub uninterp spec fn json_string_object_of(members: Seq<(Seq<char>, Seq<char>)>) -> Seq<char>;

/// Collects the pairs into a `serde_json::Map`, each value a
/// `Value::String` (a later pair replaces an earlier one under the same
/// key), and prints the object with `Value`'s `Display`. The claim is that
/// the text is a function of the pairs alone.
#[verifier::external_body]
pub fn json_string_object(members: &[(String, String)]) -> (r: String)
    ensures
        r@ == json_string_object_of(string_pairs_view(members@)),
{
    serde_json::Value::Object(
        members.iter().map(|(key, value)| (key.clone(), serde_json::Value::String(value.clone()))).collect(),
    ).to_string()
}

/// The compact text of the JSON object whose members are the given keys
/// with the values whose compact texts are given, as `serde_json` prints it.
pub uninterp spec fn json_value_object_of(members: Seq<(Seq<char>, Seq<char>)>) -> Seq<char>;

/// Collects the pairs into a `serde_json::Map`, each value read back from
/// its JSON text with `serde_json::from_str` (text that does not parse
/// becomes `null`; a later pair replaces an earlier one under the same
/// key), and prints the object with `Value`'s `Display`. The claim is that
/// the text is a function of the pairs alone.
#[verifier::external_body]
pub fn json_value_object(members: &[(String, String)]) -> (r: String)
    ensures
        r@ == json_value_object_of(string_pairs_view(members@)),
{
    serde_json::Value::Object(
        members
            .iter()
            .map(|(key, text)| (key.clone(), serde_json::from_str(text).unwrap_or(serde_json::Value::Null)))
            .collect(),
    ).to_string()
}

/// The compact text of the member `key` of the object in `text`, if any.
pub open spec fn member_json(text: Seq<char>, key: Seq<char>) -> Option<Seq<char>> {
    match json_object_members_of(text) {
        Some(ms) => match first_member(ms, key) {
            Some(m) => Some(m.2),
            None => None,
        },
        None => None,
    }
}

/// The compact text of the member `key` of the object in `text`, if any.
pub fn member_json_of(text: &str, key: &str) -> (r: Option<String>)
    ensures
        opt_view(r) == member_json(text@, key@),
{
    match json_object_members(text) {
        Some(ms) => match find_member(&ms, key) {
            Some(j) => Some(ms[j].2.clone()),
            None => None,
        },
        None => None,
    }
}

/// The member `key` of the value in `o`, if both are there.
pub open spec fn then_member(o: Option<Seq<char>>, key: Seq<char>) -> Option<Seq<char>> {
    match o {
        Some(t) => member_json(t, key),
        None => None,
    }
}

/// The member `key` of the value in `o`, if both are there.
pub fn then_member_of(o: &Option<String>, key: &str) -> (r: Option<String>)
    ensures
        opt_view(r) == then_member(opt_view(*o), key@),
{
    match o {
        Some(t) => member_json_of(t.as_str(), key),
        None => None,
    }
}

/// The string held by the member `key` of the value in `o`, if any.
pub open spec fn then_string(o: Option<Seq<char>>, key: Seq<char>) -> Option<Seq<char>> {
    match o {
        Some(t) => string_member(t, key),
        None => None,
    }
}

/// The string held by the member `key` of the value in `o`, if any.
pub fn then_string_of(o: &Option<String>, key: &str) -> (r: Option<String>)
    ensures
        opt_view(r) == then_string(opt_view(*o), key@),
{
    match o {
        Some(t) => string_member_of(t.as_str(), key),
        None => None,
    }
}

/// What `serde_json` reads as a signed 64-bit integer from `text`.
pub uninterp spec fn json_i64_of(text: Seq<char>) -> Option<i64>;

/// Reads `text` with `serde_json::from_str::<serde_json::Value>` and hands
/// back `Value::as_i64` of it (`None` for text that does not parse or holds
/// no integer in range). The claim is that the outcome is a function of the
/// text alone.
#[verifier::external_body]
pub fn json_i64(text: &str) -> (r: Option<i64>)
    ensures
        r == json_i64_of(text@),
{
    serde_json::from_str::<serde_json::Value>(text).ok().and_then(|value| value.as_i64())
}

/// The integer held by the value in `o`, if any.
pub open spec fn i64_in(o: Option<Seq<char>>) -> Option<i64> {
    match o {
        Some(t) => json_i64_of(t),
        None => None,
    }
}

/// The integer held by the value in `o`, if any.
pub fn i64_in_of(o: &Option<String>) -> (r: Option<i64>)
    ensures
        r == i64_in(opt_view(*o)),
{
    match o {
        Some(t) => json_i64(t.as_str()),
        None => None,
    }
}

/// What `serde_json` finds in `text` when it holds an array: the compact
/// texts of its elements, in order.
pub uninterp spec fn json_array_items_of(text: Seq<char>) -> Option<Seq<Seq<char>>>;

/// The texts of strings.
pub open spec fn texts_view(v: Seq<String>) -> Seq<Seq<char>> {
    v.map_values(|s: String| s@)
}

/// Reads `text` with `serde_json::from_str::<serde_json::Value>`; when it
/// holds an array (`Value::as_array`), hands back each element printed
/// compactly (`Display`), in order. Text that does not parse, or holds
/// another kind of value, gives `None`. The claim is that the outcome is a
/// function of the text alone.
#[verifier::external_body]
pub fn json_array_items(text: &str) -> (r: Option<Vec<String>>)
    ensures
        match r {
            Some(v) => json_array_items_of(text@) == Some(texts_view(v@)),
            None => json_array_items_of(text@) is None,
        },
{
    let value: serde_json::Value = match serde_json::from_str(text) {
        Ok(value) => value,
        Err(_) => return None,
    };
    let items = value.as_array()?;
    Some(items.iter().map(|item| item.to_string()).collect())
}

/// The hexadecimal digit of `n` (below 16), in lower case.
pub open spec fn hex_digit(n: u32) -> char {
    if n < 10 {
        (48 + n) as char
    } else {
        (87 + n) as char
    }
}

/// How `serde_json` writes a character inside a string: a quote, a
/// backslash and the control characters escaped (backspace, tab, line
/// feed, form feed and carriage return by their letter, the others as
/// `\u00` and two lower-case hex digits); every other character as it is.
pub open spec fn json_char_escape(c: char) -> Seq<char> {
    if c == '"' {
        seq!['\\', '"']
    } else if c == '\\' {
        seq!['\\', '\\']
    } else if c == '\u{8}' {
        seq!['\\', 'b']
    } else if c == '\t' {
        seq!['\\', 't']
    } else if c == '\n' {
        seq!['\\', 'n']
    } else if c == '\u{c}' {
        seq!['\\', 'f']
    } else if c == '\r' {
        seq!['\\', 'r']
    } else if (c as u32) < 0x20 {
        seq!['\\', 'u', '0', '0', hex_digit((c as u32) / 16), hex_digit((c as u32) % 16)]
    } else {
        seq![c]
    }
}

/// The characters of `s`, each as `serde_json` writes it inside a string.
pub open spec fn json_escaped(s: Seq<char>) -> Seq<char>
    decreases s.len(),
{
    if s.len() == 0 {
        Seq::empty()
    } else {
        json_escaped(s.drop_last()) + json_char_escape(s.last())
    }
}

/// The JSON string holding `s`, as `serde_json` writes it: in quotes, with
/// the characters escaped.
pub open spec fn json_quoted(s: Seq<char>) -> Seq<char> {
    seq!['"'] + json_escaped(s) + seq!['"']
}

/// Prints `serde_json::Value::String` of `s` with `Value`'s `Display`,
/// which writes it in quotes and escapes a quote, a backslash and the
/// control characters (`format_escaped_str` and its escape table in
/// `ser.rs`).
#[verifier::external_body]
pub fn json_string_text(s: &str) -> (r: String)
    ensures
        r@ == json_quoted(s@),
{
    serde_json::Value::String(s.to_string()).to_string()
}

/// The compact text of the JSON array of the values whose compact texts are
/// given, as `serde_json` prints it.
pub uninterp spec fn json_value_array_of(items: Seq<Seq<char>>) -> Seq<char>;

/// Reads each text back with `serde_json::from_str` (text that does not
/// parse becomes `null`), collects them into a `Value::Array` and prints it
/// with `Display`. The claim is that the text is a function of the items
/// alone.
#[verifier::external_body]
pub fn json_value_array(items: &[String]) -> (r: String)
    ensures
        r@ == json_value_array_of(texts_view(items@)),
{
    serde_json::Value::Array(
        items.iter().map(|text| serde_json::from_str(text).unwrap_or(serde_json::Value::Null)).collect(),
    ).to_string()
}


/// What `serde_json` reads as an unsigned 64-bit integer from `text`.
pub uninterp spec fn json_u64_of(text: Seq<char>) -> Option<u64>;

/// Reads `text` with `serde_json::from_str::<serde_json::Value>` and hands
/// back `Value::as_u64` of it (`None` for text that does not parse or holds
/// no integer in range). The claim is that the outcome is a function of the
/// text alone.
#[verifier::external_body]
pub fn json_u64(text: &str) -> (r: Option<u64>)
    ensures
        r == json_u64_of(text@),
{
    serde_json::from_str::<serde_json::Value>(text).ok().and_then(|value| value.as_u64())
}

} // verus!
