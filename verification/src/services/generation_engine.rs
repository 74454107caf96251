//! Separation of "thinking" text from the visible reply while a response
//! streams in: the model wraps its reasoning in configurable tags such as
//! `<think>...</think>`, and the detector routes the text between them to the
//! thinking channel, even when a tag is split across two chunks.

use vstd::prelude::*;

pub mod lifecycle;

use crate::text::{
    concat3, find, find_from, first_occurrence, lemma_find_first, lemma_find_from, lemma_find_none,
    lemma_find_sound, lemma_first_extend, lemma_occurs_prefix, lemma_occurs_shift,
    lemma_occurs_suffix, occurs_at,
};

verus! {

/// A piece of streamed text with the channel it belongs to.
#[derive(Debug, Clone, PartialEq, Eq)]
pub enum TextSegment {
    Normal(String),
    Thinking(String),
}

/// A pair of texts: the visible reply and the thinking text.
pub type Split = (Seq<char>, Seq<char>);

/// The two channels of `a` followed by those of `b`.
pub open spec fn plus(a: Split, b: Split) -> Split {
    (a.0 + b.0, a.1 + b.1)
}

/// The empty pair.
pub open spec fn nothing() -> Split {
    (Seq::empty(), Seq::empty())
}

/// The opening form `<tag>` of a tag.
pub open spec fn open_tag(t: Seq<char>) -> Seq<char> {
    seq!['<'] + t + seq!['>']
}

/// The closing form `</tag>` of a tag.
pub open spec fn close_tag(t: Seq<char>) -> Seq<char> {
    seq!['<', '/'] + t + seq!['>']
}

/// A tag name that holds neither `<` nor `>`.
pub open spec fn tag_ok(t: Seq<char>) -> bool {
    forall|i: int| 0 <= i < t.len() ==> t[i] != '<' && t[i] != '>'
}

/// Every tag name holds neither `<` nor `>`.
pub open spec fn tags_ok(tags: Seq<Seq<char>>) -> bool {
    forall|k: int| 0 <= k < tags.len() ==> tag_ok(#[trigger] tags[k])
}

/// Tags whose text splits the same however it is cut into chunks: at most
/// one tag, or tag names that hold neither `<` nor `>`.
pub open spec fn chunking_safe(tags: Seq<Seq<char>>) -> bool {
    tags.len() <= 1 || tags_ok(tags)
}

/// The opening tag of `tags[k]` starts at `i` in `s`, no opening tag starts
/// before `i`, and no earlier tag of the list opens at `i`.
pub open spec fn is_earliest_open(s: Seq<char>, tags: Seq<Seq<char>>, i: int, k: int) -> bool {
    &&& 0 <= k < tags.len()
    &&& occurs_at(s, open_tag(tags[k]), i)
    &&& forall|k2: int, j: int|
        0 <= k2 < tags.len() && 0 <= j < i ==> !#[trigger] occurs_at(s, open_tag(tags[k2]), j)
    &&& forall|k2: int| 0 <= k2 < k ==> !#[trigger] occurs_at(s, open_tag(tags[k2]), i)
}

/// No opening tag occurs in `s`.
pub open spec fn no_open(s: Seq<char>, tags: Seq<Seq<char>>) -> bool {
    forall|k: int, j: int| 0 <= k < tags.len() ==> !#[trigger] occurs_at(s, open_tag(tags[k]), j)
}

/// The earliest opening tag in `s` among `tags[k..]`: its index and the
/// position of its name; on a tie the tag listed first wins.
pub open spec fn earliest_from(s: Seq<char>, tags: Seq<Seq<char>>, k: int) -> Option<(int, int)>
    decreases tags.len() - k,
{
    if k < 0 || k >= tags.len() {
        None
    } else {
        let rest = earliest_from(s, tags, k + 1);
        match find_from(s, open_tag(tags[k]), 0) {
            None => rest,
            Some(i) => match rest {
                Some((j, kk)) => if j < i {
                    Some((j, kk))
                } else {
                    Some((i, k))
                },
                None => Some((i, k)),
            },
        }
    }
}

/// How `s` divides into reply and thinking text, starting outside any tag
/// (`active` is `None`) or inside the tag `active`: outside, the text up to
/// the earliest opening tag is reply; inside, the text up to the first
/// closing tag is thinking; the tags themselves belong to neither.
pub open spec fn split_text(tags: Seq<Seq<char>>, active: Option<Seq<char>>, s: Seq<char>) -> Split
    decreases s.len(),
{
    match active {
        Some(t) => match find_from(s, close_tag(t), 0) {
            Some(i) => {
                let c = close_tag(t);
                if 0 <= i && i + c.len() <= s.len() {
                    let rest = split_text(tags, None, s.subrange(i + c.len(), s.len() as int));
                    (rest.0, s.subrange(0, i) + rest.1)
                } else {
                    (Seq::empty(), s)
                }
            },
            None => (Seq::empty(), s),
        },
        None => match earliest_from(s, tags, 0) {
            Some((i, k)) => {
                if 0 <= k < tags.len() && 0 <= i && i + open_tag(tags[k]).len() <= s.len() {
                    let o = open_tag(tags[k]);
                    let rest = split_text(tags, Some(tags[k]), s.subrange(i + o.len(), s.len() as int));
                    (s.subrange(0, i) + rest.0, rest.1)
                } else {
                    (s, Seq::empty())
                }
            },
            None => (s, Seq::empty()),
        },
    }
}

/// Where the division of `s` stands after its last tag: the tag open
/// there, if any, and the text after that last tag.
pub open spec fn tail_of(tags: Seq<Seq<char>>, active: Option<Seq<char>>, s: Seq<char>) -> (Option<Seq<char>>, Seq<char>)
    decreases s.len(),
{
    match active {
        Some(t) => match find_from(s, close_tag(t), 0) {
            Some(i) => {
                let c = close_tag(t);
                if 0 <= i && i + c.len() <= s.len() {
                    tail_of(tags, None, s.subrange(i + c.len(), s.len() as int))
                } else {
                    (active, s)
                }
            },
            None => (active, s),
        },
        None => match earliest_from(s, tags, 0) {
            Some((i, k)) => {
                if 0 <= k < tags.len() && 0 <= i && i + open_tag(tags[k]).len() <= s.len() {
                    let o = open_tag(tags[k]);
                    tail_of(tags, Some(tags[k]), s.subrange(i + o.len(), s.len() as int))
                } else {
                    (None, s)
                }
            },
            None => (None, s),
        },
    }
}

/// How many characters of a tail of `len` characters are held back when a
/// tag of length `bound` may still start in it: one less than the tag, at
/// most the whole tail.
pub open spec fn held_count(len: int, bound: int) -> int {
    if bound == 0 {
        0
    } else if len < bound - 1 {
        len
    } else {
        bound - 1
    }
}

/// A segment as its channel (`true` for thinking) and its text.
pub open spec fn seg_view(seg: TextSegment) -> (bool, Seq<char>) {
    match seg {
        TextSegment::Normal(t) => (false, t@),
        TextSegment::Thinking(t) => (true, t@),
    }
}

/// The segments of a list, each as its channel and its text.
pub open spec fn segs_view(segs: Seq<TextSegment>) -> Seq<(bool, Seq<char>)> {
    segs.map_values(|seg: TextSegment| seg_view(seg))
}

/// One segment on the given channel holding `t`, or none when `t` is empty.
pub open spec fn piece_of(thinking: bool, t: Seq<char>) -> Seq<(bool, Seq<char>)> {
    if t.len() == 0 {
        Seq::empty()
    } else {
        seq![(thinking, t)]
    }
}

/// The segments handed out for the text `s`, starting outside any tag or
/// inside `active`: one for each stretch of text between two tags, on the
/// channel it belongs to, none for an empty stretch; of the text after the
/// last tag, the last characters that may still start a tag stay back (one
/// less than the closing tag inside a tag, than `longest` outside one).
pub open spec fn handed_out(tags: Seq<Seq<char>>, active: Option<Seq<char>>, s: Seq<char>, longest: int) -> Seq<(bool, Seq<char>)>
    decreases s.len(),
{
    match active {
        Some(t) => match find_from(s, close_tag(t), 0) {
            Some(i) => {
                let c = close_tag(t);
                if 0 <= i && i + c.len() <= s.len() {
                    piece_of(true, s.subrange(0, i)) + handed_out(
                        tags,
                        None,
                        s.subrange(i + c.len(), s.len() as int),
                        longest,
                    )
                } else {
                    Seq::empty()
                }
            },
            None => piece_of(
                true,
                s.subrange(0, s.len() - held_count(s.len() as int, close_tag(t).len() as int)),
            ),
        },
        None => match earliest_from(s, tags, 0) {
            Some((i, k)) => {
                if 0 <= k < tags.len() && 0 <= i && i + open_tag(tags[k]).len() <= s.len() {
                    let o = open_tag(tags[k]);
                    piece_of(false, s.subrange(0, i)) + handed_out(
                        tags,
                        Some(tags[k]),
                        s.subrange(i + o.len(), s.len() as int),
                        longest,
                    )
                } else {
                    Seq::empty()
                }
            },
            None => piece_of(false, s.subrange(0, s.len() - held_count(s.len() as int, longest))),
        },
    }
}

proof fn lemma_push_piece(segs: Seq<TextSegment>, seg: TextSegment)
    requires
        seg_view(seg).1.len() > 0,
    ensures
        segs_view(segs.push(seg)) == segs_view(segs) + piece_of(seg_view(seg).0, seg_view(seg).1),
{
    assert(segs_view(segs.push(seg)) =~= segs_view(segs) + piece_of(seg_view(seg).0, seg_view(seg).1));
}

proof fn lemma_earliest_from(s: Seq<char>, tags: Seq<Seq<char>>, k: int)
    requires
        0 <= k,
    ensures
        match earliest_from(s, tags, k) {
            Some((i, kk)) => {
                &&& k <= kk < tags.len()
                &&& occurs_at(s, open_tag(tags[kk]), i)
                &&& forall|k2: int, j: int|
                    k <= k2 < tags.len() && 0 <= j < i ==> !#[trigger] occurs_at(
                        s,
                        open_tag(tags[k2]),
                        j,
                    )
                &&& forall|k2: int| k <= k2 < kk ==> !#[trigger] occurs_at(s, open_tag(tags[k2]), i)
            },
            None => forall|k2: int, j: int|
                k <= k2 < tags.len() ==> !#[trigger] occurs_at(s, open_tag(tags[k2]), j),
        },
    decreases tags.len() - k,
{
    if k >= tags.len() {
    } else {
        lemma_earliest_from(s, tags, k + 1);
        lemma_find_from(s, open_tag(tags[k]), 0);
        match find_from(s, open_tag(tags[k]), 0) {
            None => {
                assert forall|j: int| !#[trigger] occurs_at(s, open_tag(tags[k]), j) by {
                    if j < 0 {
                    }
                }
            },
            Some(i) => {},
        }
    }
}

/// The earliest opening tag is what `earliest_from` finds from the first tag.
proof fn lemma_earliest_found(s: Seq<char>, tags: Seq<Seq<char>>, i: int, k: int)
    requires
        is_earliest_open(s, tags, i, k),
    ensures
        earliest_from(s, tags, 0) == Some((i, k)),
{
    lemma_earliest_from(s, tags, 0);
    match earliest_from(s, tags, 0) {
        Some((i2, k2)) => {
            if i2 < i {
                assert(!occurs_at(s, open_tag(tags[k2]), i2));
            } else if i < i2 {
                assert(!occurs_at(s, open_tag(tags[k]), i));
            } else if k2 < k {
                assert(!occurs_at(s, open_tag(tags[k2]), i));
            } else if k < k2 {
                assert(!occurs_at(s, open_tag(tags[k]), i));
            }
        },
        None => {
            assert(!occurs_at(s, open_tag(tags[k]), i));
        },
    }
}

/// Where no opening tag occurs, `earliest_from` finds nothing.
proof fn lemma_earliest_none(s: Seq<char>, tags: Seq<Seq<char>>)
    requires
        no_open(s, tags),
    ensures
        (earliest_from(s, tags, 0) is None),
{
    lemma_earliest_from(s, tags, 0);
    match earliest_from(s, tags, 0) {
        Some((i2, k2)) => {
            assert(!occurs_at(s, open_tag(tags[k2]), i2));
        },
        None => {},
    }
}

/// What `earliest_from` finds from the first tag is the earliest opening tag.
proof fn lemma_earliest_sound(s: Seq<char>, tags: Seq<Seq<char>>)
    ensures
        match earliest_from(s, tags, 0) {
            Some((i, k)) => is_earliest_open(s, tags, i, k),
            None => no_open(s, tags),
        },
{
    lemma_earliest_from(s, tags, 0);
    match earliest_from(s, tags, 0) {
        Some((i, k)) => {
            assert forall|k2: int, j: int| 0 <= k2 < tags.len() && 0 <= j < i implies !#[trigger] occurs_at(
                s,
                open_tag(tags[k2]),
                j,
            ) by {}
        },
        None => {
            assert forall|k2: int, j: int| 0 <= k2 < tags.len() implies !#[trigger] occurs_at(
                s,
                open_tag(tags[k2]),
                j,
            ) by {}
        },
    }
}

/// The text of one segment, on its channel.
pub open spec fn segment_split(seg: TextSegment) -> Split {
    match seg {
        TextSegment::Normal(t) => (t@, Seq::empty()),
        TextSegment::Thinking(t) => (Seq::empty(), t@),
    }
}

/// The texts of a list of segments, each channel concatenated in order.
pub open spec fn segments_split(segs: Seq<TextSegment>) -> Split
    decreases segs.len(),
{
    if segs.len() == 0 {
        nothing()
    } else {
        plus(segments_split(segs.drop_last()), segment_split(segs.last()))
    }
}

/// The length of the longest opening tag `<name>` among `tags`; zero for none.
pub open spec fn longest_open(tags: Seq<Seq<char>>) -> nat
    decreases tags.len(),
{
    if tags.len() == 0 {
        0
    } else {
        let before = longest_open(tags.drop_last());
        let here = tags.last().len() + 2;
        if here > before {
            here
        } else {
            before
        }
    }
}

/// The most text the detector may hold back after a chunk: less than the
/// closing tag of the tag that is open, else less than the longest opening
/// tag it looks for.
pub open spec fn holds_little(carry: Seq<char>, active: Option<Seq<char>>, longest: nat) -> bool {
    carry.len() == 0 || carry.len() < match active {
        Some(t) => close_tag(t).len(),
        None => longest,
    }
}

/// The names of a list of tags.
pub open spec fn tag_names(tags: Seq<String>) -> Seq<Seq<char>> {
    tags.map_values(|t: String| t@)
}

proof fn lemma_push_segment(segs: Seq<TextSegment>, seg: TextSegment)
    ensures
        segments_split(segs.push(seg)) == plus(segments_split(segs), segment_split(seg)),
{
    assert(segs.push(seg).drop_last() =~= segs);
}

/// Inside the opening tag of a name free of `<`, only the first character is `<`.
proof fn lemma_no_lt_inside(s: Seq<char>, t: Seq<char>, j: int, i: int)
    requires
        tag_ok(t),
        occurs_at(s, open_tag(t), j),
        j < i < j + open_tag(t).len(),
    ensures
        s[i] != '<',
{
    let o = open_tag(t);
    assert(s.subrange(j, j + o.len())[i - j] == s[i]);
    if i - j <= t.len() {
        assert(o[i - j] == t[i - j - 1]);
    } else {
        assert(o[i - j] == '>');
    }
}

/// The earliest opening tag found in `r` is still the earliest once more
/// text follows, when there is one tag or no tag name holds `<` or `>`.
proof fn lemma_earliest_extend(r: Seq<char>, x: Seq<char>, tags: Seq<Seq<char>>, i: int, k: int)
    requires
        chunking_safe(tags),
        is_earliest_open(r, tags, i, k),
    ensures
        is_earliest_open(r + x, tags, i, k),
{
    let s = r + x;
    let ok = open_tag(tags[k]);
    lemma_occurs_prefix(r, x, ok, i);
    assert(s[i] == '<') by {
        assert(r.subrange(i, i + ok.len())[0] == r[i]);
        assert(ok[0] == '<');
    }
    assert(s[i + ok.len() - 1] == '>') by {
        assert(r.subrange(i, i + ok.len())[ok.len() - 1] == r[i + ok.len() - 1]);
    }
    assert forall|k2: int, j: int| 0 <= k2 < tags.len() && 0 <= j < i implies !#[trigger] occurs_at(
        s,
        open_tag(tags[k2]),
        j,
    ) by {
        let o2 = open_tag(tags[k2]);
        if j + o2.len() <= r.len() {
            lemma_occurs_prefix(r, x, o2, j);
        } else if occurs_at(s, o2, j) {
            if tags.len() > 1 {
                assert(tag_ok(tags[k2]));
                lemma_no_lt_inside(s, tags[k2], j, i);
            } else {
                assert(k2 == k);
            }
        }
    }
    assert forall|k2: int| 0 <= k2 < k implies !#[trigger] occurs_at(s, open_tag(tags[k2]), i) by {
        let o2 = open_tag(tags[k2]);
        if i + o2.len() <= r.len() {
            lemma_occurs_prefix(r, x, o2, i);
        } else if occurs_at(s, o2, i) {
            let t2 = tags[k2];
            assert(tag_ok(t2));
            let m = ok.len() - 1;
            assert(s.subrange(i, i + o2.len())[m] == s[i + m]);
            assert(o2[m] == t2[m - 1]);
        }
    }
}

/// Reply text before the point `e`, when no opening tag can start before it.
proof fn lemma_outside_prefix(tags: Seq<Seq<char>>, r: Seq<char>, x: Seq<char>, e: int)
    requires
        0 <= e <= r.len(),
        forall|k: int, j: int|
            0 <= k < tags.len() && 0 <= j < e ==> !#[trigger] occurs_at(r + x, open_tag(tags[k]), j),
    ensures
        split_text(tags, None, r + x) == plus(
            (r.subrange(0, e), Seq::empty()),
            split_text(tags, None, r.subrange(e, r.len() as int) + x),
        ),
{
    let s = r + x;
    let b = r.subrange(e, r.len() as int) + x;
    assert(s =~= r.subrange(0, e) + b);
    lemma_earliest_sound(s, tags);
    match earliest_from(s, tags, 0) {
        Some((i, k)) => {
            assert(i >= e) by {
                if i < e {
                    assert(!occurs_at(s, open_tag(tags[k]), i));
                }
            }
            assert(is_earliest_open(b, tags, i - e, k)) by {
                lemma_occurs_shift(r, x, open_tag(tags[k]), e, i);
                assert forall|k2: int, j: int| 0 <= k2 < tags.len() && 0 <= j < i - e implies !#[trigger] occurs_at(
                    b,
                    open_tag(tags[k2]),
                    j,
                ) by {
                    lemma_occurs_shift(r, x, open_tag(tags[k2]), e, j + e);
                }
                assert forall|k2: int| 0 <= k2 < k implies !#[trigger] occurs_at(
                    b,
                    open_tag(tags[k2]),
                    i - e,
                ) by {
                    lemma_occurs_shift(r, x, open_tag(tags[k2]), e, i);
                }
            }
            lemma_earliest_found(b, tags, i - e, k);
            let o = open_tag(tags[k]);
            assert(s.subrange(i + o.len(), s.len() as int) =~= b.subrange(i - e + o.len(), b.len() as int));
            assert(s.subrange(0, i) =~= r.subrange(0, e) + b.subrange(0, i - e));
            let rest = split_text(tags, Some(tags[k]), b.subrange(i - e + o.len(), b.len() as int));
            assert(r.subrange(0, e) + (b.subrange(0, i - e) + rest.0) =~= s.subrange(0, i) + rest.0);
            assert(Seq::<char>::empty() + rest.1 =~= rest.1);
        },
        None => {
            assert forall|k2: int, j: int| 0 <= k2 < tags.len() implies !#[trigger] occurs_at(
                b,
                open_tag(tags[k2]),
                j,
            ) by {
                if j >= 0 {
                    lemma_occurs_shift(r, x, open_tag(tags[k2]), e, j + e);
                }
            }
            lemma_earliest_none(b, tags);
            assert(Seq::<char>::empty() + Seq::<char>::empty() =~= Seq::<char>::empty());
        },
    }
}

/// Thinking text before the point `e`, when no closing tag can start before it.
proof fn lemma_inside_prefix(tags: Seq<Seq<char>>, t: Seq<char>, r: Seq<char>, x: Seq<char>, e: int)
    requires
        0 <= e <= r.len(),
        forall|j: int| 0 <= j < e ==> !#[trigger] occurs_at(r + x, close_tag(t), j),
    ensures
        split_text(tags, Some(t), r + x) == plus(
            (Seq::empty(), r.subrange(0, e)),
            split_text(tags, Some(t), r.subrange(e, r.len() as int) + x),
        ),
{
    let s = r + x;
    let b = r.subrange(e, r.len() as int) + x;
    let c = close_tag(t);
    assert(s =~= r.subrange(0, e) + b);
    lemma_find_sound(s, c);
    match find_from(s, c, 0) {
        Some(i) => {
            assert(i >= e) by {
                if i < e {
                    assert(!occurs_at(s, c, i));
                }
            }
            assert(first_occurrence(b, c, i - e)) by {
                lemma_occurs_shift(r, x, c, e, i);
                assert forall|j: int| 0 <= j < i - e implies !#[trigger] occurs_at(b, c, j) by {
                    lemma_occurs_shift(r, x, c, e, j + e);
                }
            }
            lemma_find_first(b, c, i - e);
            assert(s.subrange(i + c.len(), s.len() as int) =~= b.subrange(i - e + c.len(), b.len() as int));
            assert(s.subrange(0, i) =~= r.subrange(0, e) + b.subrange(0, i - e));
            let rest = split_text(tags, None, b.subrange(i - e + c.len(), b.len() as int));
            assert(r.subrange(0, e) + (b.subrange(0, i - e) + rest.1) =~= s.subrange(0, i) + rest.1);
            assert(Seq::<char>::empty() + rest.0 =~= rest.0);
        },
        None => {
            assert forall|j: int| !#[trigger] occurs_at(b, c, j) by {
                if j >= 0 {
                    lemma_occurs_shift(r, x, c, e, j + e);
                }
            }
            lemma_find_none(b, c);
            assert(Seq::<char>::empty() + Seq::<char>::empty() =~= Seq::<char>::empty());
        },
    }
}

/// Inside the tag `t`, a closing tag found first at `i` in `r` ends the thinking text.
proof fn lemma_inside_close(tags: Seq<Seq<char>>, t: Seq<char>, r: Seq<char>, x: Seq<char>, i: int)
    requires
        first_occurrence(r, close_tag(t), i),
    ensures
        split_text(tags, Some(t), r + x) == plus(
            (Seq::empty(), r.subrange(0, i)),
            split_text(tags, None, r.subrange(i + close_tag(t).len(), r.len() as int) + x),
        ),
{
    let s = r + x;
    let c = close_tag(t);
    lemma_first_extend(r, x, c, i);
    lemma_find_first(s, c, i);
    assert(s.subrange(i + c.len(), s.len() as int) =~= r.subrange(i + c.len(), r.len() as int) + x);
    assert(s.subrange(0, i) =~= r.subrange(0, i));
    let rest = split_text(tags, None, r.subrange(i + c.len(), r.len() as int) + x);
    assert(Seq::<char>::empty() + rest.0 =~= rest.0);
}

/// Outside any tag, the earliest opening tag found at `i` in `r` starts thinking text.
proof fn lemma_outside_open(tags: Seq<Seq<char>>, r: Seq<char>, x: Seq<char>, i: int, k: int)
    requires
        chunking_safe(tags),
        is_earliest_open(r, tags, i, k),
    ensures
        split_text(tags, None, r + x) == plus(
            (r.subrange(0, i), Seq::empty()),
            split_text(
                tags,
                Some(tags[k]),
                r.subrange(i + open_tag(tags[k]).len(), r.len() as int) + x,
            ),
        ),
{
    let s = r + x;
    lemma_earliest_extend(r, x, tags, i, k);
    lemma_earliest_found(s, tags, i, k);
    let o = open_tag(tags[k]);
    assert(s.subrange(i + o.len(), s.len() as int) =~= r.subrange(i + o.len(), r.len() as int) + x);
    assert(s.subrange(0, i) =~= r.subrange(0, i));
    let rest = split_text(tags, Some(tags[k]), r.subrange(i + o.len(), r.len() as int) + x);
    assert(Seq::<char>::empty() + rest.1 =~= rest.1);
}

proof fn lemma_plus_assoc(a: Split, b: Split, c: Split)
    ensures
        plus(plus(a, b), c) == plus(a, plus(b, c)),
{
    assert(plus(plus(a, b), c).0 =~= plus(a, plus(b, c)).0);
    assert(plus(plus(a, b), c).1 =~= plus(a, plus(b, c)).1);
}

proof fn lemma_advance(old: Split, new: Split, piece: Split, x: Split, y: Split)
    requires
        new == plus(old, piece),
        x == plus(piece, y),
    ensures
        plus(old, x) == plus(new, y),
{
    lemma_plus_assoc(old, piece, y);
}

/// Outside any tag, text whose earliest opening tag is the `k`-th at `i`
/// divides at that tag, whatever the tag names hold.
proof fn lemma_outside_open_whole(tags: Seq<Seq<char>>, r: Seq<char>, i: int, k: int)
    requires
        is_earliest_open(r, tags, i, k),
    ensures
        split_text(tags, None, r) == plus(
            (r.subrange(0, i), Seq::empty()),
            split_text(tags, Some(tags[k]), r.subrange(i + open_tag(tags[k]).len(), r.len() as int)),
        ),
{
    lemma_earliest_found(r, tags, i, k);
    let rest = split_text(tags, Some(tags[k]), r.subrange(i + open_tag(tags[k]).len(), r.len() as int));
    assert(plus((r.subrange(0, i), Seq::empty()), rest).1 =~= rest.1);
}

proof fn lemma_plus_nothing(a: Split)
    ensures
        plus(a, nothing()) == a,
        plus(nothing(), a) == a,
{
    assert(plus(a, nothing()).0 =~= a.0);
    assert(plus(a, nothing()).1 =~= a.1);
    assert(plus(nothing(), a).0 =~= a.0);
    assert(plus(nothing(), a).1 =~= a.1);
}

/// The text a segment carries.
pub open spec fn segment_text(seg: TextSegment) -> Seq<char> {
    match seg {
        TextSegment::Normal(t) => t@,
        TextSegment::Thinking(t) => t@,
    }
}

/// Whether every segment carries some text.
pub open spec fn all_nonempty(segs: Seq<TextSegment>) -> bool {
    forall|k: int| 0 <= k < segs.len() ==> #[trigger] segment_text(segs[k]).len() > 0
}

/// Streaming state: the tags to look for, the tag currently open, and the
/// tail of the text that may still turn out to start a tag.
#[derive(Debug, Clone)]
pub struct ThinkingTagDetector {
    tags: Vec<String>,
    active_tag: Option<String>,
    carry: String,
    max_open_tag_len: usize,
}

impl ThinkingTagDetector {
    /// The tag names the detector looks for.
    pub closed spec fn tags_view(&self) -> Seq<Seq<char>> {
        tag_names(self.tags@)
    }

    /// The tag currently open, if any.
    pub closed spec fn active_view(&self) -> Option<Seq<char>> {
        match self.active_tag {
            Some(t) => Some(t@),
            None => None,
        }
    }

    /// The text held back because it may still start a tag.
    pub closed spec fn carry_view(&self) -> Seq<char> {
        self.carry@
    }

    /// The length of the longest opening tag the detector looks for.
    pub closed spec fn longest_view(&self) -> nat {
        self.max_open_tag_len as nat
    }

    /// The internal invariant: the hold-back length covers every opening tag,
    /// and the text held back holds no complete tag that the state looks for.
    pub closed spec fn wf(&self) -> bool {
        &&& forall|k: int|
            0 <= k < self.tags@.len() ==> open_tag(#[trigger] self.tags@[k]@).len()
                <= self.max_open_tag_len
        &&& match self.active_tag {
            Some(t) => forall|j: int| !#[trigger] occurs_at(self.carry@, close_tag(t@), j),
            None => no_open(self.carry@, tag_names(self.tags@)),
        }
    }

    /// What the detector still owes for the text it holds, followed by `x`.
    pub open spec fn pending(&self, x: Seq<char>) -> Split {
        split_text(self.tags_view(), self.active_view(), self.carry_view() + x)
    }

    /// A detector for `tags`, outside any tag, holding nothing.
    pub fn new(tags: Vec<String>) -> (d: Self)
        requires
            forall|k: int| 0 <= k < tags@.len() ==> (#[trigger] tags@[k])@.len() + 2 <= usize::MAX,
        ensures
            d.wf(),
            d.tags_view() == tag_names(tags@),
            (d.active_view() is None),
            d.carry_view() == Seq::<char>::empty(),
            d.longest_view() == longest_open(tag_names(tags@)),
    {
        let mut max_open_tag_len: usize = 0;
        let mut i: usize = 0;
        while i < tags.len()
            invariant
                i <= tags.len(),
                forall|k: int| 0 <= k < tags@.len() ==> (#[trigger] tags@[k])@.len() + 2 <= usize::MAX,
                forall|k: int| 0 <= k < i ==> open_tag(#[trigger] tags@[k]@).len() <= max_open_tag_len,
                max_open_tag_len == longest_open(tag_names(tags@).take(i as int)),
            decreases tags.len() - i,
        {
            proof {
                assert(tag_names(tags@).take(i + 1 as int).drop_last() =~= tag_names(tags@).take(i as int));
                assert(tag_names(tags@).take(i + 1 as int).last() == tags@[i as int]@);
            }
            let l = tags[i].as_str().unicode_len();
            let with_brackets = l + 2;
            if with_brackets > max_open_tag_len {
                max_open_tag_len = with_brackets;
            }
            i = i + 1;
        }
        proof {
            assert(tag_names(tags@).take(tags@.len() as int) =~= tag_names(tags@));
        }
        ThinkingTagDetector { tags, active_tag: None, carry: String::new(), max_open_tag_len }
    }

    /// The earliest opening tag in `text`: its index and the position of its
    /// name in the tag list; on a tie the tag listed first wins.
    fn find_next_opening_index(&self, text: &str) -> (r: Option<(usize, usize)>)
        ensures
            match r {
                Some((i, k)) => is_earliest_open(text@, self.tags_view(), i as int, k as int),
                None => no_open(text@, self.tags_view()),
            },
    {
        let ghost tv = self.tags_view();
        let mut best: Option<(usize, usize)> = None;
        let mut k: usize = 0;
        while k < self.tags.len()
            invariant
                tv == tag_names(self.tags@),
                k <= self.tags@.len(),
                match best {
                    Some((i, kb)) => {
                        &&& kb < k
                        &&& occurs_at(text@, open_tag(tv[kb as int]), i as int)
                        &&& forall|k2: int, j: int|
                            0 <= k2 < k && 0 <= j < i ==> !#[trigger] occurs_at(
                                text@,
                                open_tag(tv[k2]),
                                j,
                            )
                        &&& forall|k2: int|
                            0 <= k2 < kb ==> !#[trigger] occurs_at(text@, open_tag(tv[k2]), i as int)
                    },
                    None => forall|k2: int, j: int|
                        0 <= k2 < k ==> !#[trigger] occurs_at(text@, open_tag(tv[k2]), j),
                },
            decreases self.tags@.len() - k,
        {
            let opening = concat3("<", self.tags[k].as_str(), ">");
            proof {
                reveal_strlit("<");
                reveal_strlit(">");
                assert(opening@ =~= open_tag(tv[k as int]));
            }
            match find(text, opening.as_str()) {
                Some(idx) => {
                    match best {
                        Some((i, kb)) => {
                            if idx < i {
                                best = Some((idx, k));
                            }
                        },
                        None => {
                            best = Some((idx, k));
                        },
                    }
                },
                None => {},
            }
            k = k + 1;
        }
        best
    }

    /// The earliest opening tag in `text`, with the name of that tag.
    pub fn find_next_opening(&self, text: &str) -> (r: Option<(usize, String)>)
        ensures
            match r {
                Some((i, t)) => exists|k: int|
                    is_earliest_open(text@, self.tags_view(), i as int, k) && #[trigger] self.tags_view()[k] == t@,
                None => no_open(text@, self.tags_view()),
            },
    {
        match self.find_next_opening_index(text) {
            Some((i, k)) => Some((i, self.tags[k].clone())),
            None => None,
        }
    }

    /// Takes in the next chunk of streamed text and hands out the segments
    /// that are settled: one for each stretch of text between two tags, on
    /// its channel, none of them empty. Of the text after the last tag
    /// it has seen, it holds back the last characters that may still start
    /// a tag: one less than the closing tag of the open tag, or than the
    /// longest opening tag outside one (all of it when shorter).
    /// What the detector owed for the text it held followed by `text` is
    /// exactly the returned segments followed by what it owes for the text it
    /// now holds. With one tag, or when no tag name holds `<` or `>`, that
    /// stays true whatever text comes next.
    pub fn feed(&mut self, text: &str) -> (segments: Vec<TextSegment>)
        requires
            old(self).wf(),
        ensures
            final(self).wf(),
            final(self).tags_view() == old(self).tags_view(),
            chunking_safe(old(self).tags_view()) ==> forall|x: Seq<char>|
                #[trigger] old(self).pending(text@ + x) == plus(
                    segments_split(segments@),
                    final(self).pending(x),
                ),
            all_nonempty(segments@),
            segs_view(segments@) == handed_out(
                old(self).tags_view(),
                old(self).active_view(),
                old(self).carry_view() + text@,
                old(self).longest_view() as int,
            ),
            old(self).pending(text@) == plus(segments_split(segments@), final(self).pending(Seq::empty())),
            final(self).longest_view() == old(self).longest_view(),
            holds_little(final(self).carry_view(), final(self).active_view(), final(self).longest_view()),
            ({
                let tl = tail_of(old(self).tags_view(), old(self).active_view(), old(self).carry_view() + text@);
                let bound = match tl.0 {
                    Some(t) => close_tag(t).len() as int,
                    None => old(self).longest_view() as int,
                };
                &&& final(self).active_view() == tl.0
                &&& final(self).carry_view() == tl.1.subrange(
                    tl.1.len() - held_count(tl.1.len() as int, bound),
                    tl.1.len() as int,
                )
            }),
    {
        let ghost tags = self.tags_view();
        let ghost a0 = self.active_view();
        let ghost orig = self.carry@ + text@;
        let ghost lg = self.max_open_tag_len as int;
        let mut segments: Vec<TextSegment> = Vec::new();
        let mut remaining = self.carry.clone();
        remaining.append(text);
        self.carry = String::new();
        proof {
            assert forall|x: Seq<char>| #[trigger] split_text(tags, a0, orig + x) == plus(
                segments_split(segments@),
                split_text(tags, a0, remaining@ + x),
            ) by {
                lemma_plus_nothing(split_text(tags, a0, remaining@ + x));
            }
            assert(remaining@ =~= orig);
            lemma_plus_nothing(split_text(tags, a0, remaining@));
            assert(segs_view(segments@) + handed_out(tags, a0, remaining@, lg) =~= handed_out(tags, a0, orig, lg));
            assert(old(self).carry@ + text@ =~= orig);
            assert forall|x: Seq<char>| #[trigger] old(self).pending(text@ + x) == split_text(tags, a0, orig + x) by {
                assert(old(self).carry@ + (text@ + x) =~= orig + x);
            }
        }
        loop
            invariant
                self.wf(),
                self.tags@ == old(self).tags@,
                self.max_open_tag_len == old(self).max_open_tag_len,
                tags == old(self).tags_view(),
                a0 == old(self).active_view(),
                forall|x: Seq<char>| #[trigger] old(self).pending(text@ + x) == split_text(tags, a0, orig + x),
                all_nonempty(segments@),
                tail_of(tags, a0, orig) == tail_of(tags, self.active_view(), remaining@),
                lg == self.max_open_tag_len as int,
                handed_out(tags, a0, orig, lg) == segs_view(segments@) + handed_out(
                    tags,
                    self.active_view(),
                    remaining@,
                    lg,
                ),
                split_text(tags, a0, orig) == plus(
                    segments_split(segments@),
                    split_text(tags, self.active_view(), remaining@),
                ),
                orig == old(self).carry_view() + text@,
                self.tags_view() == tags,
                self.carry@ == Seq::<char>::empty(),
                chunking_safe(tags) ==> forall|x: Seq<char>|
                    #[trigger] split_text(tags, a0, orig + x) == plus(
                        segments_split(segments@),
                        split_text(tags, self.active_view(), remaining@ + x),
                    ),
            decreases remaining@.len(),
        {
            let len = remaining.as_str().unicode_len();
            match self.active_tag.clone() {
                Some(tag) => {
                    let closing = concat3("</", tag.as_str(), ">");
                    let ghost t = tag@;
                    proof {
                        reveal_strlit("</");
                        reveal_strlit(">");
                        assert(closing@ =~= close_tag(t));
                    }
                    let clen = closing.as_str().unicode_len();
                    match find(remaining.as_str(), closing.as_str()) {
                        Some(index) => {
                            let content = String::from_str(remaining.as_str().substring_char(0, index));
                            let rest = String::from_str(
                                remaining.as_str().substring_char(index + clen, len),
                            );
                            let ghost old_segments = segments@;
                            let ghost r = remaining@;
                            if content.as_str().unicode_len() > 0 {
                                segments.push(TextSegment::Thinking(content));
                            }
                            proof {
                                if chunking_safe(tags) {
                                    assert forall|x: Seq<char>| #[trigger] split_text(tags, a0, orig + x) == plus(
                                        segments_split(segments@),
                                        split_text(tags, None, rest@ + x),
                                    ) by {
                                        lemma_inside_close(tags, t, r, x, index as int);
                                        let piece: Split = (Seq::empty(), r.subrange(0, index as int));
                                        lemma_plus_assoc(
                                            segments_split(old_segments),
                                            piece,
                                            split_text(tags, None, rest@ + x),
                                        );
                                        if content@.len() > 0 {
                                            lemma_push_segment(old_segments, TextSegment::Thinking(content));
                                        } else {
                                            assert(piece == nothing());
                                            lemma_plus_nothing(segments_split(old_segments));
                                        }
                                    }
                                }
                            }
                            proof {
                                let e: Seq<char> = Seq::empty();
                                assert(r + e =~= r);
                                assert(rest@ + e =~= rest@);
                                lemma_inside_close(tags, t, r, e, index as int);
                                let piece: Split = (Seq::empty(), r.subrange(0, index as int));
                                if content@.len() > 0 {
                                    lemma_push_segment(old_segments, TextSegment::Thinking(content));
                                } else {
                                    assert(piece == nothing());
                                    lemma_plus_nothing(segments_split(old_segments));
                                }
                                lemma_advance(
                                    segments_split(old_segments),
                                    segments_split(segments@),
                                    piece,
                                    split_text(tags, Some(t), r),
                                    split_text(tags, None, rest@),
                                );
                            }
                            proof {
                                lemma_find_first(r, close_tag(t), index as int);
                                assert(rest@ =~= r.subrange(index + close_tag(t).len(), r.len() as int));
                                assert(content@ =~= r.subrange(0, index as int));
                                let pc = piece_of(true, content@);
                                if content@.len() > 0 {
                                    lemma_push_piece(old_segments, TextSegment::Thinking(content));
                                } else {
                                    assert(pc =~= Seq::<(bool, Seq<char>)>::empty());
                                }
                                assert(handed_out(tags, Some(t), r, lg) == pc + handed_out(tags, None, rest@, lg));
                                assert(segs_view(old_segments) + (pc + handed_out(tags, None, rest@, lg))
                                    =~= segs_view(segments@) + handed_out(tags, None, rest@, lg));
                            }
                            remaining = rest;
                            self.active_tag = None;
                            proof {
                                lemma_find_first(r, close_tag(t), index as int);
                                assert(rest@ =~= r.subrange(index + close_tag(t).len(), r.len() as int));
                                assert forall|kk: int, j: int| 0 <= kk < tags.len() implies !#[trigger] occurs_at(
                                    self.carry@,
                                    open_tag(tags[kk]),
                                    j,
                                ) by {
                                    assert(open_tag(tags[kk]).len() >= 2);
                                }
                            }
                        },
                        None => {
                            let keep = if clen == 0 {
                                0
                            } else if len < clen - 1 {
                                len
                            } else {
                                clen - 1
                            };
                            let emit_len = len - keep;
                            let ghost old_segments = segments@;
                            let ghost r = remaining@;
                            let emitted = String::from_str(remaining.as_str().substring_char(0, emit_len));
                            if emit_len > 0 {
                                segments.push(TextSegment::Thinking(emitted));
                            }
                            self.carry = String::from_str(remaining.as_str().substring_char(emit_len, len));
                            proof {
                                lemma_find_none(r, close_tag(t));
                                assert(tail_of(tags, Some(t), r) == (Some(t), r));
                                assert(self.carry@ =~= r.subrange(r.len() - held_count(r.len() as int, close_tag(t).len() as int), r.len() as int));
                                assert forall|j: int| !#[trigger] occurs_at(self.carry@, close_tag(t), j) by {
                                    if occurs_at(self.carry@, close_tag(t), j) {
                                        lemma_occurs_suffix(r, close_tag(t), emit_len as int, j);
                                    }
                                }
                                if chunking_safe(tags) {
                                    assert forall|x: Seq<char>| #[trigger] split_text(tags, a0, orig + x) == plus(
                                        segments_split(segments@),
                                        split_text(tags, Some(t), self.carry@ + x),
                                    ) by {
                                        assert forall|j: int| 0 <= j < emit_len implies !#[trigger] occurs_at(
                                            r + x,
                                            close_tag(t),
                                            j,
                                        ) by {
                                            lemma_occurs_prefix(r, x, close_tag(t), j);
                                        }
                                        lemma_inside_prefix(tags, t, r, x, emit_len as int);
                                        let piece: Split = (Seq::empty(), r.subrange(0, emit_len as int));
                                        lemma_plus_assoc(
                                            segments_split(old_segments),
                                            piece,
                                            split_text(tags, Some(t), self.carry@ + x),
                                        );
                                        if emit_len > 0 {
                                            lemma_push_segment(old_segments, TextSegment::Thinking(emitted));
                                        } else {
                                            assert(piece.1 =~= Seq::<char>::empty());
                                            assert(piece == nothing());
                                            lemma_plus_nothing(segments_split(old_segments));
                                        }
                                    }
                                }
                            }
                            proof {
                                let e: Seq<char> = Seq::empty();
                                assert(r + e =~= r);
                                assert(self.carry@ + e =~= self.carry@);
                                assert(self.carry@ =~= r.subrange(emit_len as int, r.len() as int));
                                lemma_inside_prefix(tags, t, r, e, emit_len as int);
                                let piece: Split = (Seq::empty(), r.subrange(0, emit_len as int));
                                if emit_len > 0 {
                                    lemma_push_segment(old_segments, TextSegment::Thinking(emitted));
                                } else {
                                    assert(piece.1 =~= Seq::<char>::empty());
                                    assert(piece == nothing());
                                    lemma_plus_nothing(segments_split(old_segments));
                                }
                                lemma_advance(
                                    segments_split(old_segments),
                                    segments_split(segments@),
                                    piece,
                                    split_text(tags, Some(t), r),
                                    split_text(tags, Some(t), self.carry@),
                                );
                            }
                            proof {
                                lemma_find_none(r, close_tag(t));
                                assert(emitted@ =~= r.subrange(
                                    0,
                                    r.len() - held_count(r.len() as int, close_tag(t).len() as int),
                                ));
                                let pc = piece_of(true, emitted@);
                                if emit_len > 0 {
                                    lemma_push_piece(old_segments, TextSegment::Thinking(emitted));
                                } else {
                                    assert(pc =~= Seq::<(bool, Seq<char>)>::empty());
                                }
                                assert(handed_out(tags, Some(t), r, lg) == pc);
                                assert(segs_view(old_segments) + pc =~= segs_view(segments@));
                            }
                            return segments;
                        },
                    }
                },
                None => {
                    match self.find_next_opening_index(remaining.as_str()) {
                        Some((index, k)) => {
                            let tag = self.tags[k].clone();
                            let tlen = tag.as_str().unicode_len();
                            let ghost r = remaining@;
                            let ghost olen = open_tag(tags[k as int]).len();
                            proof {
                                assert(occurs_at(r, open_tag(tags[k as int]), index as int));
                            }
                            let before = String::from_str(remaining.as_str().substring_char(0, index));
                            let rest = String::from_str(
                                remaining.as_str().substring_char(index + tlen + 2, len),
                            );
                            let ghost old_segments = segments@;
                            if before.as_str().unicode_len() > 0 {
                                segments.push(TextSegment::Normal(before));
                            }
                            proof {
                                if chunking_safe(tags) {
                                    assert forall|x: Seq<char>| #[trigger] split_text(tags, a0, orig + x) == plus(
                                        segments_split(segments@),
                                        split_text(tags, Some(tag@), rest@ + x),
                                    ) by {
                                        lemma_outside_open(tags, r, x, index as int, k as int);
                                        let piece: Split = (r.subrange(0, index as int), Seq::empty());
                                        lemma_plus_assoc(
                                            segments_split(old_segments),
                                            piece,
                                            split_text(tags, Some(tag@), rest@ + x),
                                        );
                                        if before@.len() > 0 {
                                            lemma_push_segment(old_segments, TextSegment::Normal(before));
                                        } else {
                                            assert(piece == nothing());
                                            lemma_plus_nothing(segments_split(old_segments));
                                        }
                                    }
                                }
                            }
                            proof {
                                lemma_outside_open_whole(tags, r, index as int, k as int);
                                assert(rest@ =~= r.subrange(index + open_tag(tags[k as int]).len(), r.len() as int));
                                let piece: Split = (r.subrange(0, index as int), Seq::empty());
                                if before@.len() > 0 {
                                    lemma_push_segment(old_segments, TextSegment::Normal(before));
                                } else {
                                    assert(piece == nothing());
                                    lemma_plus_nothing(segments_split(old_segments));
                                }
                                lemma_advance(
                                    segments_split(old_segments),
                                    segments_split(segments@),
                                    piece,
                                    split_text(tags, None, r),
                                    split_text(tags, Some(tag@), rest@),
                                );
                            }
                            proof {
                                lemma_earliest_found(r, tags, index as int, k as int);
                                assert(rest@ =~= r.subrange(index + open_tag(tags[k as int]).len(), r.len() as int));
                                assert(before@ =~= r.subrange(0, index as int));
                                let pc = piece_of(false, before@);
                                if before@.len() > 0 {
                                    lemma_push_piece(old_segments, TextSegment::Normal(before));
                                } else {
                                    assert(pc =~= Seq::<(bool, Seq<char>)>::empty());
                                }
                                assert(handed_out(tags, None, r, lg) == pc + handed_out(tags, Some(tag@), rest@, lg));
                                assert(segs_view(old_segments) + (pc + handed_out(tags, Some(tag@), rest@, lg))
                                    =~= segs_view(segments@) + handed_out(tags, Some(tag@), rest@, lg));
                            }
                            remaining = rest;
                            self.active_tag = Some(tag);
                            proof {
                                lemma_earliest_found(r, tags, index as int, k as int);
                                assert(rest@ =~= r.subrange(index + open_tag(tags[k as int]).len(), r.len() as int));
                                assert forall|j: int| !#[trigger] occurs_at(self.carry@, close_tag(tag@), j) by {
                                    assert(close_tag(tag@).len() >= 3);
                                }
                            }
                        },
                        None => {
                            let m = self.max_open_tag_len;
                            let keep = if m == 0 {
                                0
                            } else if len < m - 1 {
                                len
                            } else {
                                m - 1
                            };
                            let emit_len = len - keep;
                            let ghost old_segments = segments@;
                            let ghost r = remaining@;
                            let emitted = String::from_str(remaining.as_str().substring_char(0, emit_len));
                            if emit_len > 0 {
                                segments.push(TextSegment::Normal(emitted));
                            }
                            self.carry = String::from_str(remaining.as_str().substring_char(emit_len, len));
                            proof {
                                lemma_earliest_none(r, tags);
                                assert(tail_of(tags, None, r) == (None::<Seq<char>>, r));
                                assert(self.carry@ =~= r.subrange(r.len() - held_count(r.len() as int, m as int), r.len() as int));
                                assert forall|kk: int, j: int| 0 <= kk < tags.len() implies !#[trigger] occurs_at(
                                    self.carry@,
                                    open_tag(tags[kk]),
                                    j,
                                ) by {
                                    if occurs_at(self.carry@, open_tag(tags[kk]), j) {
                                        lemma_occurs_suffix(r, open_tag(tags[kk]), emit_len as int, j);
                                    }
                                }
                                if chunking_safe(tags) {
                                    assert forall|x: Seq<char>| #[trigger] split_text(tags, a0, orig + x) == plus(
                                        segments_split(segments@),
                                        split_text(tags, None, self.carry@ + x),
                                    ) by {
                                        assert forall|kk: int, j: int| 0 <= kk < tags.len() && 0 <= j < emit_len implies !#[trigger] occurs_at(
                                            r + x,
                                            open_tag(tags[kk]),
                                            j,
                                        ) by {
                                            assert(open_tag(self.tags@[kk]@).len() <= m);
                                            lemma_occurs_prefix(r, x, open_tag(tags[kk]), j);
                                        }
                                        lemma_outside_prefix(tags, r, x, emit_len as int);
                                        let piece: Split = (r.subrange(0, emit_len as int), Seq::empty());
                                        lemma_plus_assoc(
                                            segments_split(old_segments),
                                            piece,
                                            split_text(tags, None, self.carry@ + x),
                                        );
                                        if emit_len > 0 {
                                            lemma_push_segment(old_segments, TextSegment::Normal(emitted));
                                        } else {
                                            assert(piece.0 =~= Seq::<char>::empty());
                                            assert(piece == nothing());
                                            lemma_plus_nothing(segments_split(old_segments));
                                        }
                                    }
                                }
                            }
                            proof {
                                let e: Seq<char> = Seq::empty();
                                assert(r + e =~= r);
                                assert(self.carry@ + e =~= self.carry@);
                                assert(self.carry@ =~= r.subrange(emit_len as int, r.len() as int));
                                lemma_outside_prefix(tags, r, e, emit_len as int);
                                let piece: Split = (r.subrange(0, emit_len as int), Seq::empty());
                                if emit_len > 0 {
                                    lemma_push_segment(old_segments, TextSegment::Normal(emitted));
                                } else {
                                    assert(piece.0 =~= Seq::<char>::empty());
                                    assert(piece == nothing());
                                    lemma_plus_nothing(segments_split(old_segments));
                                }
                                lemma_advance(
                                    segments_split(old_segments),
                                    segments_split(segments@),
                                    piece,
                                    split_text(tags, None, r),
                                    split_text(tags, None, self.carry@),
                                );
                            }
                            proof {
                                lemma_earliest_none(r, tags);
                                assert(emitted@ =~= r.subrange(0, r.len() - held_count(r.len() as int, lg)));
                                let pc = piece_of(false, emitted@);
                                if emit_len > 0 {
                                    lemma_push_piece(old_segments, TextSegment::Normal(emitted));
                                } else {
                                    assert(pc =~= Seq::<(bool, Seq<char>)>::empty());
                                }
                                assert(handed_out(tags, None, r, lg) == pc);
                                assert(segs_view(old_segments) + pc =~= segs_view(segments@));
                            }
                            return segments;
                        },
                    }
                },
            }
        }
    }

    /// At the end of the stream the detector owes exactly what it holds
    /// back, on the channel of the tag that is open, if any.
    pub proof fn lemma_owed_at_end(&self)
        requires
            self.wf(),
        ensures
            self.pending(Seq::empty()) == (match self.active_view() {
                Some(_) => (Seq::<char>::empty(), self.carry_view()),
                None => (self.carry_view(), Seq::<char>::empty()),
            }),
    {
        let c = self.carry@;
        assert(c + Seq::<char>::empty() =~= c);
        match self.active_view() {
            Some(tv) => {
                lemma_find_none(c, close_tag(tv));
            },
            None => {
                lemma_earliest_none(c, self.tags_view());
            },
        }
    }

    /// Hands out the held-back tail at the end of the stream, on the channel
    /// of the tag that is open, if any: exactly what the detector still
    /// owed.
    pub fn finish(&mut self) -> (segments: Vec<TextSegment>)
        requires
            old(self).wf(),
        ensures
            final(self).wf(),
            final(self).tags_view() == old(self).tags_view(),
            final(self).active_view() == old(self).active_view(),
            final(self).carry_view() == Seq::<char>::empty(),
            segments_split(segments@) == (match old(self).active_view() {
                Some(_) => (Seq::<char>::empty(), old(self).carry_view()),
                None => (old(self).carry_view(), Seq::<char>::empty()),
            }),
            segments_split(segments@) == old(self).pending(Seq::empty()),
            all_nonempty(segments@),
    {
        proof {
            let c = self.carry@;
            assert(c + Seq::<char>::empty() =~= c);
            match self.active_view() {
                Some(tv) => {
                    lemma_find_none(c, close_tag(tv));
                },
                None => {
                    lemma_earliest_none(c, self.tags_view());
                },
            }
        }
        let mut segments: Vec<TextSegment> = Vec::new();
        if self.carry.as_str().unicode_len() == 0 {
            assert(self.carry@ =~= Seq::<char>::empty());
            return segments;
        }
        let tail = self.carry.clone();
        self.carry = String::new();
        let ghost tv = tail@;
        if self.active_tag.is_some() {
            segments.push(TextSegment::Thinking(tail));
        } else {
            segments.push(TextSegment::Normal(tail));
        }
        proof {
            lemma_push_segment(Seq::empty(), segments@[0]);
            assert(segments@ =~= Seq::<TextSegment>::empty().push(segments@[0]));
            lemma_plus_nothing(segment_split(segments@[0]));
        }
        segments
    }
}

/// Appends the texts of `segments` to `body` and `thinking`, each on its channel.
fn collect_segments(segments: &Vec<TextSegment>, body: &mut String, thinking: &mut String)
    ensures
        (final(body)@, final(thinking)@) == plus((old(body)@, old(thinking)@), segments_split(segments@)),
{
    let mut i: usize = 0;
    while i < segments.len()
        invariant
            i <= segments@.len(),
            (body@, thinking@) == plus(
                (old(body)@, old(thinking)@),
                segments_split(segments@.take(i as int)),
            ),
        decreases segments.len() - i,
    {
        let ghost before = (body@, thinking@);
        match &segments[i] {
            TextSegment::Normal(text) => body.append(text.as_str()),
            TextSegment::Thinking(text) => thinking.append(text.as_str()),
        }
        proof {
            assert(segments@.take(i + 1 as int) =~= segments@.take(i as int).push(segments@[i as int]));
            lemma_push_segment(segments@.take(i as int), segments@[i as int]);
            lemma_plus_assoc(
                (old(body)@, old(thinking)@),
                segments_split(segments@.take(i as int)),
                segment_split(segments@[i as int]),
            );
            let seg = segment_split(segments@[i as int]);
            assert(before.0 + seg.0 =~= body@);
            assert(before.1 + seg.1 =~= thinking@);
        }
        i = i + 1;
    }
    assert(segments@.take(segments@.len() as int) =~= segments@);
}

/// Divides a complete text into the visible reply and the thinking text
/// wrapped in any of `tags`; without tags the whole text is the reply.
pub fn split_thinking_from_text(content: &str, tags: &[String]) -> (r: (String, String))
    requires
        forall|k: int| 0 <= k < tags@.len() ==> (#[trigger] tags@[k])@.len() + 2 <= usize::MAX,
    ensures
        (r.0@, r.1@) == split_text(tag_names(tags@), None, content@),
        tags@.len() == 0 ==> r.0@ == content@ && r.1@ == Seq::<char>::empty(),
{
    if tags.len() == 0 {
        return (String::from_str(content), String::new());
    }
    let mut owned: Vec<String> = Vec::new();
    let mut i: usize = 0;
    while i < tags.len()
        invariant
            i <= tags@.len(),
            owned@ == tags@.take(i as int),
        decreases tags.len() - i,
    {
        owned.push(tags[i].clone());
        assert(tags@.take(i + 1 as int) =~= tags@.take(i as int).push(tags@[i as int]));
        i = i + 1;
    }
    assert(owned@ =~= tags@);
    let mut detector = ThinkingTagDetector::new(owned);
    let ghost d0 = detector;
    let first = detector.feed(content);
    let ghost d1 = detector;
    let rest = detector.finish();
    let mut body = String::new();
    let mut thinking = String::new();
    collect_segments(&first, &mut body, &mut thinking);
    collect_segments(&rest, &mut body, &mut thinking);
    proof {
        let tv = tag_names(tags@);
        lemma_plus_nothing(segments_split(first@));
        assert(Seq::<char>::empty() + content@ =~= content@);
        assert(d0.pending(content@) == split_text(tv, None, content@));
        assert(d0.pending(content@) == plus(segments_split(first@), d1.pending(Seq::empty())));
        let e: Seq<char> = Seq::empty();
        assert(e + e =~= e);
        assert(plus((e, e), segments_split(first@)) == segments_split(first@)) by {
            lemma_plus_nothing(segments_split(first@));
        }
    }
    (body, thinking)
}

/// The text of a list of chunks, one after the other.
pub open spec fn joined(chunks: Seq<String>) -> Seq<char>
    decreases chunks.len(),
{
    if chunks.len() == 0 {
        Seq::empty()
    } else {
        joined(chunks.drop_last()) + chunks.last()@
    }
}

/// Streams `chunks` through a fresh detector for `tags`, one after the
/// other, and then to the end, and returns the reply and the thinking text
/// it handed out. With one tag, or when no tag name holds `<` or `>`, that
/// is the split of the whole text at once, whatever the chunks.
pub fn split_thinking_from_chunks(chunks: &Vec<String>, tags: Vec<String>) -> (r: (String, String))
    requires
        forall|k: int| 0 <= k < tags@.len() ==> (#[trigger] tags@[k])@.len() + 2 <= usize::MAX,
    ensures
        chunking_safe(tag_names(tags@)) ==> (r.0@, r.1@) == split_text(tag_names(tags@), None, joined(chunks@)),
{
    let ghost tv = tag_names(tags@);
    let mut detector = ThinkingTagDetector::new(tags);
    let mut body = String::new();
    let mut thinking = String::new();
    let mut i: usize = 0;
    proof {
        assert forall|x: Seq<char>| #[trigger] split_text(tv, None, joined(chunks@.take(0)) + x) == plus(
            (body@, thinking@),
            detector.pending(x),
        ) by {
            assert(chunks@.take(0) =~= Seq::<String>::empty());
            assert(joined(chunks@.take(0)) + x =~= detector.carry_view() + x);
            lemma_plus_nothing(detector.pending(x));
        }
    }
    while i < chunks.len()
        invariant
            i <= chunks@.len(),
            detector.wf(),
            detector.tags_view() == tv,
            chunking_safe(tv) ==> forall|x: Seq<char>| #[trigger] split_text(tv, None, joined(chunks@.take(i as int)) + x) == plus(
                (body@, thinking@),
                detector.pending(x),
            ),
        decreases chunks.len() - i,
    {
        let ghost d0 = detector;
        let ghost b0 = (body@, thinking@);
        let segments = detector.feed(chunks[i].as_str());
        collect_segments(&segments, &mut body, &mut thinking);
        proof {
            let c = chunks@[i as int]@;
            assert(chunks@.take(i + 1 as int).drop_last() =~= chunks@.take(i as int));
            assert(joined(chunks@.take(i + 1 as int)) == joined(chunks@.take(i as int)) + c);
            if chunking_safe(tv) {
                assert forall|x: Seq<char>| #[trigger] split_text(tv, None, joined(chunks@.take(i + 1 as int)) + x) == plus(
                    (body@, thinking@),
                    detector.pending(x),
                ) by {
                    assert(joined(chunks@.take(i + 1 as int)) + x =~= joined(chunks@.take(i as int)) + (c + x));
                    assert(split_text(tv, None, joined(chunks@.take(i as int)) + (c + x)) == plus(b0, d0.pending(c + x)));
                    lemma_plus_assoc(b0, segments_split(segments@), detector.pending(x));
                }
            }
        }
        i = i + 1;
    }
    let ghost d1 = detector;
    let ghost b1 = (body@, thinking@);
    let rest = detector.finish();
    collect_segments(&rest, &mut body, &mut thinking);
    proof {
        assert(chunks@.take(chunks@.len() as int) =~= chunks@);
        let e: Seq<char> = Seq::empty();
        assert(joined(chunks@) + e =~= joined(chunks@));
        if chunking_safe(tv) {
            assert(split_text(tv, None, joined(chunks@.take(i as int)) + e) == plus(b1, d1.pending(e)));
        }
    }
    (body, thinking)
}

} // verus!
