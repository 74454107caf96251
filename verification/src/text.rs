//! String helpers with their specifications: Unicode whitespace trimming,
//! prefix tests, substring search and decimal / hexadecimal rendering.

use vstd::prelude::*;

verus! {

/// Unicode `White_Space`, the set that `char::is_whitespace` and `str::trim` use.
pub open spec fn is_ws(c: char) -> bool {
    ||| c == '\t'
    ||| c == '\n'
    ||| c == '\u{0B}'
    ||| c == '\u{0C}'
    ||| c == '\r'
    ||| c == ' '
    ||| c == '\u{85}'
    ||| c == '\u{A0}'
    ||| c == '\u{1680}'
    ||| (0x2000 <= (c as u32) && (c as u32) <= 0x200A)
    ||| c == '\u{2028}'
    ||| c == '\u{2029}'
    ||| c == '\u{202F}'
    ||| c == '\u{205F}'
    ||| c == '\u{3000}'
}

/// `s` without its leading whitespace.
pub open spec fn trim_start_seq(s: Seq<char>) -> Seq<char>
    decreases s.len(),
{
    if s.len() > 0 && is_ws(s[0]) {
        trim_start_seq(s.drop_first())
    } else {
        s
    }
}

/// `s` without its trailing whitespace.
pub open spec fn trim_end_seq(s: Seq<char>) -> Seq<char>
    decreases s.len(),
{
    if s.len() > 0 && is_ws(s.last()) {
        trim_end_seq(s.drop_last())
    } else {
        s
    }
}

/// `s` without leading and trailing whitespace, as `str::trim` gives it.
pub open spec fn trim_seq(s: Seq<char>) -> Seq<char> {
    trim_end_seq(trim_start_seq(s))
}

/// Whether `s` is empty once trimmed, that is, holds whitespace only.
pub open spec fn is_blank_seq(s: Seq<char>) -> bool {
    trim_seq(s).len() == 0
}

/// Whether `pat` occurs in `s` at index `i`.
pub open spec fn occurs_at(s: Seq<char>, pat: Seq<char>, i: int) -> bool {
    0 <= i && i + pat.len() <= s.len() && s.subrange(i, i + pat.len()) == pat
}

/// Whether `i` is the first index at which `pat` occurs in `s`.
pub open spec fn first_occurrence(s: Seq<char>, pat: Seq<char>, i: int) -> bool {
    occurs_at(s, pat, i) && forall|j: int| 0 <= j < i ==> !#[trigger] occurs_at(s, pat, j)
}

/// Whether `pat` occurs nowhere in `s`.
pub open spec fn nowhere(s: Seq<char>, pat: Seq<char>) -> bool {
    forall|j: int| !#[trigger] occurs_at(s, pat, j)
}

/// `a` followed by `b` followed by `c`.
pub fn concat3(a: &str, b: &str, c: &str) -> (r: String)
    ensures
        r@ == a@ + b@ + c@,
{
    let mut r = String::from_str(a);
    r.append(b);
    r.append(c);
    r
}

/// Whether `c` is whitespace.
pub fn is_whitespace(c: char) -> (r: bool)
    ensures
        r == is_ws(c),
{
    let u = c as u32;
    c == '\t' || c == '\n' || c == '\u{0B}' || c == '\u{0C}' || c == '\r' || c == ' ' || c
        == '\u{85}' || c == '\u{A0}' || c == '\u{1680}' || (0x2000 <= u && u <= 0x200A) || c
        == '\u{2028}' || c == '\u{2029}' || c == '\u{202F}' || c == '\u{205F}' || c == '\u{3000}'
}

/// The first index `i` at or after `from` whose character is not whitespace, or the end.
fn skip_ws_forward(s: &str, from: usize) -> (i: usize)
    requires
        from <= s@.len(),
    ensures
        from <= i <= s@.len(),
        trim_start_seq(s@.subrange(from as int, s@.len() as int)) == s@.subrange(
            i as int,
            s@.len() as int,
        ),
{
    let n = s.unicode_len();
    let mut i = from;
    loop
        invariant
            n == s@.len(),
            from <= i <= n,
            trim_start_seq(s@.subrange(from as int, n as int)) == trim_start_seq(
                s@.subrange(i as int, n as int),
            ),
        decreases n - i,
    {
        if i >= n {
            assert(s@.subrange(i as int, n as int).len() == 0);
            return i;
        }
        let c = s.get_char(i);
        if !is_whitespace(c) {
            return i;
        }
        assert(s@.subrange(i as int, n as int).drop_first() =~= s@.subrange(
            i + 1 as int,
            n as int,
        ));
        i = i + 1;
    }
}

/// The end `j` of `s[start..end]` once trailing whitespace is dropped.
fn skip_ws_backward(s: &str, start: usize, end: usize) -> (j: usize)
    requires
        start <= end <= s@.len(),
    ensures
        start <= j <= end,
        trim_end_seq(s@.subrange(start as int, end as int)) == s@.subrange(
            start as int,
            j as int,
        ),
{
    let mut j = end;
    loop
        invariant
            start <= j <= end <= s@.len(),
            trim_end_seq(s@.subrange(start as int, end as int)) == trim_end_seq(
                s@.subrange(start as int, j as int),
            ),
        decreases j - start,
    {
        if j <= start {
            assert(s@.subrange(start as int, j as int).len() == 0);
            return j;
        }
        let c = s.get_char(j - 1);
        if !is_whitespace(c) {
            return j;
        }
        assert(s@.subrange(start as int, j as int).drop_last() =~= s@.subrange(
            start as int,
            j - 1 as int,
        ));
        j = j - 1;
    }
}

/// `s` with leading and trailing whitespace removed, as an owned string.
pub fn trim(s: &str) -> (r: String)
    ensures
        r@ == trim_seq(s@),
{
    let n = s.unicode_len();
    let i = skip_ws_forward(s, 0);
    assert(s@.subrange(0, n as int) =~= s@);
    let j = skip_ws_backward(s, i, n);
    String::from_str(s.substring_char(i, j))
}

/// Whether `s` holds only whitespace.
pub fn is_blank(s: &str) -> (r: bool)
    ensures
        r == is_blank_seq(s@),
{
    let t = trim(s);
    t.as_str().unicode_len() == 0
}

/// Whether `a` and `b` hold the same characters.
pub fn str_eq(a: &str, b: &str) -> (r: bool)
    ensures
        r == (a@ == b@),
{
    let n = a.unicode_len();
    if n != b.unicode_len() {
        return false;
    }
    let mut i: usize = 0;
    while i < n
        invariant
            n == a@.len(),
            n == b@.len(),
            i <= n,
            forall|k: int| 0 <= k < i ==> a@[k] == b@[k],
        decreases n - i,
    {
        if a.get_char(i) != b.get_char(i) {
            return false;
        }
        i = i + 1;
    }
    assert(a@ =~= b@);
    true
}

/// Whether `pat` occurs in `s` at character index `at`.
pub fn matches_at(s: &str, pat: &str, at: usize) -> (r: bool)
    ensures
        r == occurs_at(s@, pat@, at as int),
{
    let n = s.unicode_len();
    let m = pat.unicode_len();
    if at > n || m > n - at {
        return false;
    }
    let mut k: usize = 0;
    while k < m
        invariant
            n == s@.len(),
            m == pat@.len(),
            at + m <= n,
            k <= m,
            forall|t: int| 0 <= t < k ==> s@[at + t] == pat@[t],
        decreases m - k,
    {
        if s.get_char(at + k) != pat.get_char(k) {
            assert(s@.subrange(at as int, at + m as int)[k as int] != pat@[k as int]);
            return false;
        }
        k = k + 1;
    }
    assert(s@.subrange(at as int, at + m as int) =~= pat@);
    true
}

/// Whether `s` starts with `prefix`.
pub fn starts_with(s: &str, prefix: &str) -> (r: bool)
    ensures
        r == prefix@.is_prefix_of(s@),
{
    let r = matches_at(s, prefix, 0);
    assert(r == prefix@.is_prefix_of(s@)) by {
        if prefix@.len() <= s@.len() {
            assert(s@.subrange(0, prefix@.len() as int) == prefix@ <==> prefix@ =~= s@.subrange(
                0,
                prefix@.len() as int,
            ));
        }
    }
    r
}

/// The first character index at which `pat` occurs in `s`.
pub fn find(s: &str, pat: &str) -> (r: Option<usize>)
    ensures
        match r {
            Some(i) => first_occurrence(s@, pat@, i as int),
            None => nowhere(s@, pat@),
        },
{
    let n = s.unicode_len();
    let m = pat.unicode_len();
    if m > n {
        return None;
    }
    let mut i: usize = 0;
    loop
        invariant
            n == s@.len(),
            m == pat@.len(),
            m <= n,
            i <= n - m,
            forall|j: int| 0 <= j < i ==> !#[trigger] occurs_at(s@, pat@, j),
        decreases n - m - i,
    {
        if matches_at(s, pat, i) {
            return Some(i);
        }
        if i == n - m {
            return None;
        }
        i = i + 1;
    }
}

/// The decimal digits of `n`.
pub open spec fn decimal(n: nat) -> Seq<char>
    decreases n,
{
    if n < 10 {
        seq![digit_char(n)]
    } else {
        decimal(n / 10).push(digit_char(n % 10))
    }
}

/// The character of the digit `d` in base sixteen, lower case.
pub open spec fn digit_char(d: nat) -> char {
    if d == 0 {
        '0'
    } else if d == 1 {
        '1'
    } else if d == 2 {
        '2'
    } else if d == 3 {
        '3'
    } else if d == 4 {
        '4'
    } else if d == 5 {
        '5'
    } else if d == 6 {
        '6'
    } else if d == 7 {
        '7'
    } else if d == 8 {
        '8'
    } else if d == 9 {
        '9'
    } else if d == 10 {
        'a'
    } else if d == 11 {
        'b'
    } else if d == 12 {
        'c'
    } else if d == 13 {
        'd'
    } else if d == 14 {
        'e'
    } else {
        'f'
    }
}

/// Appends the digit `d` (below sixteen) to `out`.
pub fn push_digit(out: &mut String, d: u64)
    requires
        d < 16,
    ensures
        final(out)@ == old(out)@.push(digit_char(d as nat)),
{
    let lit: &str = if d == 0 {
        "0"
    } else if d == 1 {
        "1"
    } else if d == 2 {
        "2"
    } else if d == 3 {
        "3"
    } else if d == 4 {
        "4"
    } else if d == 5 {
        "5"
    } else if d == 6 {
        "6"
    } else if d == 7 {
        "7"
    } else if d == 8 {
        "8"
    } else if d == 9 {
        "9"
    } else if d == 10 {
        "a"
    } else if d == 11 {
        "b"
    } else if d == 12 {
        "c"
    } else if d == 13 {
        "d"
    } else if d == 14 {
        "e"
    } else {
        "f"
    };
    proof {
        reveal_strlit("0");
        reveal_strlit("1");
        reveal_strlit("2");
        reveal_strlit("3");
        reveal_strlit("4");
        reveal_strlit("5");
        reveal_strlit("6");
        reveal_strlit("7");
        reveal_strlit("8");
        reveal_strlit("9");
        reveal_strlit("a");
        reveal_strlit("b");
        reveal_strlit("c");
        reveal_strlit("d");
        reveal_strlit("e");
        reveal_strlit("f");
    }
    assert(lit@ =~= seq![digit_char(d as nat)]);
    out.append(lit);
}

/// Appends the decimal digits of `n` to `out`.
pub fn push_decimal(out: &mut String, n: u64)
    ensures
        final(out)@ == old(out)@ + decimal(n as nat),
    decreases n,
{
    if n < 10 {
        push_digit(out, n);
        assert(old(out)@.push(digit_char(n as nat)) =~= old(out)@ + decimal(n as nat));
    } else {
        push_decimal(out, n / 10);
        push_digit(out, n % 10);
        assert(old(out)@ + decimal((n / 10) as nat) + seq![digit_char((n % 10) as nat)]
            =~= old(out)@ + decimal(n as nat));
    }
}

/// The length of `decimal(n)`.
pub proof fn lemma_decimal_len(n: nat)
    ensures
        decimal(n).len() >= 1,
    decreases n,
{
    if n >= 10 {
        lemma_decimal_len(n / 10);
    }
}

/// The number a string of decimal digits stands for.
pub open spec fn digits_value(s: Seq<char>) -> int
    decreases s.len(),
{
    if s.len() == 0 {
        0
    } else {
        digits_value(s.drop_last()) * 10 + (s.last() as int - '0' as int)
    }
}

/// Whether every character of `s` is a decimal digit.
pub open spec fn all_digits(s: Seq<char>) -> bool {
    forall|i: int| 0 <= i < s.len() ==> '0' <= #[trigger] s[i] <= '9'
}

proof fn lemma_digit_char_value(d: nat)
    requires
        d < 10,
    ensures
        digit_char(d) as int - '0' as int == d,
        '0' <= digit_char(d) <= '9',
{
}

/// `decimal(n)` is made of digits and stands for `n`.
pub proof fn lemma_decimal_digits(n: nat)
    ensures
        all_digits(decimal(n)),
        digits_value(decimal(n)) == n,
        decimal(n).len() >= 1,
    decreases n,
{
    if n < 10 {
        lemma_digit_char_value(n);
        let d = decimal(n);
        assert(d =~= seq![digit_char(n)]);
        assert(d.drop_last() =~= Seq::<char>::empty());
        assert(digits_value(d.drop_last()) == 0);
        assert(d.last() == digit_char(n));
    } else {
        lemma_decimal_digits(n / 10);
        lemma_digit_char_value(n % 10);
        let d = decimal(n);
        assert(d.drop_last() =~= decimal(n / 10));
        assert(d.last() == digit_char(n % 10));
        assert forall|i: int| 0 <= i < d.len() implies '0' <= #[trigger] d[i] <= '9' by {
            if i < d.len() - 1 {
                assert(d[i] == decimal(n / 10)[i]);
            }
        }
    }
}

/// Zeros in front do not change the number a string of digits stands for.
pub proof fn lemma_leading_zeros(k: nat, d: Seq<char>)
    ensures
        digits_value(Seq::new(k, |_i: int| '0') + d) == digits_value(d),
    decreases d.len(),
{
    let z = Seq::new(k, |_i: int| '0');
    if d.len() == 0 {
        assert(z + d =~= z);
        lemma_zeros_value(k);
    } else {
        lemma_leading_zeros(k, d.drop_last());
        assert((z + d).drop_last() =~= z + d.drop_last());
        assert((z + d).last() == d.last());
    }
}

proof fn lemma_zeros_value(k: nat)
    ensures
        digits_value(Seq::new(k, |_i: int| '0')) == 0,
    decreases k,
{
    if k > 0 {
        lemma_zeros_value((k - 1) as nat);
        assert(Seq::new(k, |_i: int| '0').drop_last() =~= Seq::new((k - 1) as nat, |_i: int| '0'));
    }
}

/// `decimal(n)` padded on the left with zeros to at least `width` characters.
pub open spec fn zero_padded(n: nat, width: nat) -> Seq<char> {
    let d = decimal(n);
    if d.len() >= width {
        d
    } else {
        Seq::new((width - d.len()) as nat, |_i: int| '0') + d
    }
}

/// `zero_padded(n, width)` is made of digits and stands for `n`.
pub proof fn lemma_zero_padded_digits(n: nat, width: nat)
    ensures
        all_digits(zero_padded(n, width)),
        digits_value(zero_padded(n, width)) == n,
{
    lemma_decimal_digits(n);
    let d = decimal(n);
    if d.len() < width {
        let z = Seq::new((width - d.len()) as nat, |_i: int| '0');
        lemma_leading_zeros((width - d.len()) as nat, d);
        assert forall|i: int| 0 <= i < (z + d).len() implies '0' <= #[trigger] (z + d)[i] <= '9' by {
            if i >= z.len() {
                assert((z + d)[i] == d[i - z.len()]);
            }
        }
    }
}

/// `n` in decimal, padded on the left with zeros to at least `width` digits.
pub fn zero_padded_decimal(n: u64, width: usize) -> (r: String)
    ensures
        r@ == zero_padded(n as nat, width as nat),
{
    let mut digits = String::new();
    push_decimal(&mut digits, n);
    assert(digits@ =~= decimal(n as nat));
    let len = digits.as_str().unicode_len();
    let mut out = String::new();
    if len < width {
        let mut k: usize = 0;
        while k < width - len
            invariant
                len < width,
                k <= width - len,
                out@ =~= Seq::new(k as nat, |_i: int| '0'),
            decreases width - len - k,
        {
            push_digit(&mut out, 0);
            k = k + 1;
        }
    }
    out.append(digits.as_str());
    out
}

/// The magnitude of a signed integer.
pub open spec fn magnitude(n: int) -> nat {
    if n < 0 {
        (-n) as nat
    } else {
        n as nat
    }
}

/// `n` in decimal, with a minus sign when it is negative, as `{}` formats it.
pub open spec fn signed_decimal(n: int) -> Seq<char> {
    if n < 0 {
        seq!['-'] + decimal(magnitude(n))
    } else {
        decimal(magnitude(n))
    }
}

/// `n` in decimal padded with zeros after the sign to at least `width`
/// characters in all, as `{:0width$}` formats it.
pub open spec fn signed_zero_padded(n: int, width: nat) -> Seq<char> {
    if n < 0 {
        seq!['-'] + zero_padded(magnitude(n), if width >= 1 { (width - 1) as nat } else { 0 })
    } else {
        zero_padded(magnitude(n), width)
    }
}

fn magnitude_of(n: i64) -> (m: u64)
    ensures
        m as nat == magnitude(n as int),
{
    if n < 0 {
        let k: i64 = -(n + 1);
        k as u64 + 1
    } else {
        n as u64
    }
}

/// Appends `n` in decimal, with its sign, to `out`.
pub fn push_signed_decimal(out: &mut String, n: i64)
    ensures
        final(out)@ == old(out)@ + signed_decimal(n as int),
{
    if n < 0 {
        out.append("-");
        proof {
            reveal_strlit("-");
        }
    }
    let ghost mid = out@;
    push_decimal(out, magnitude_of(n));
    proof {
        if n < 0 {
            assert(out@ =~= old(out)@ + signed_decimal(n as int));
        } else {
            assert(out@ =~= old(out)@ + signed_decimal(n as int));
        }
    }
}

/// `n` in decimal padded with zeros after the sign to at least `width` characters.
pub fn signed_zero_padded_decimal(n: i64, width: usize) -> (r: String)
    ensures
        r@ == signed_zero_padded(n as int, width as nat),
{
    if n < 0 {
        let digits = zero_padded_decimal(magnitude_of(n), if width >= 1 { width - 1 } else { 0 });
        let mut out = String::from_str("-");
        proof {
            reveal_strlit("-");
        }
        out.append(digits.as_str());
        assert(out@ =~= signed_zero_padded(n as int, width as nat));
        out
    } else {
        zero_padded_decimal(magnitude_of(n), width)
    }
}

/// `s` without the trailing run of `c`, as `str::trim_end_matches(c)` gives it.
pub open spec fn strip_trailing(s: Seq<char>, c: char) -> Seq<char>
    decreases s.len(),
{
    if s.len() > 0 && s.last() == c {
        strip_trailing(s.drop_last(), c)
    } else {
        s
    }
}

/// `s` without the trailing run of `c`.
pub fn trim_end_char(s: &str, c: char) -> (r: String)
    ensures
        r@ == strip_trailing(s@, c),
{
    let n = s.unicode_len();
    let mut j = n;
    assert(s@.subrange(0, n as int) =~= s@);
    loop
        invariant
            j <= n == s@.len(),
            strip_trailing(s@, c) == strip_trailing(s@.subrange(0, j as int), c),
        decreases j,
    {
        if j == 0 || s.get_char(j - 1) != c {
            return String::from_str(s.substring_char(0, j));
        }
        assert(s@.subrange(0, j as int).drop_last() =~= s@.subrange(0, j - 1 as int));
        j = j - 1;
    }
}

/// `s` without the leading run of `c`, as `str::trim_start_matches(c)` gives it.
pub open spec fn strip_leading(s: Seq<char>, c: char) -> Seq<char>
    decreases s.len(),
{
    if s.len() > 0 && s[0] == c {
        strip_leading(s.drop_first(), c)
    } else {
        s
    }
}

/// `s` without the leading run of `c`.
pub fn trim_start_char(s: &str, c: char) -> (r: String)
    ensures
        r@ == strip_leading(s@, c),
{
    let n = s.unicode_len();
    let mut i: usize = 0;
    assert(s@.subrange(0, n as int) =~= s@);
    loop
        invariant
            i <= n == s@.len(),
            strip_leading(s@, c) == strip_leading(s@.subrange(i as int, n as int), c),
        decreases n - i,
    {
        if i == n || s.get_char(i) != c {
            return String::from_str(s.substring_char(i, n));
        }
        assert(s@.subrange(i as int, n as int).drop_first() =~= s@.subrange(i + 1 as int, n as int));
        i = i + 1;
    }
}

/// The lower-case hexadecimal digits of `bytes`, two per byte.
pub open spec fn hex_seq(bytes: Seq<u8>) -> Seq<char>
    decreases bytes.len(),
{
    if bytes.len() == 0 {
        Seq::empty()
    } else {
        let b = bytes.last();
        hex_seq(bytes.drop_last()) + seq![digit_char((b / 16) as nat), digit_char((b % 16) as nat)]
    }
}

/// `bytes` in lower-case hexadecimal, two digits per byte.
pub fn to_hex(bytes: &[u8]) -> (r: String)
    ensures
        r@ == hex_seq(bytes@),
{
    let mut out = String::new();
    let mut i: usize = 0;
    while i < bytes.len()
        invariant
            i <= bytes@.len(),
            out@ == hex_seq(bytes@.take(i as int)),
        decreases bytes.len() - i,
    {
        let b = bytes[i];
        push_digit(&mut out, (b / 16) as u64);
        push_digit(&mut out, (b % 16) as u64);
        proof {
            let t = bytes@.take(i + 1 as int);
            assert(t.drop_last() =~= bytes@.take(i as int));
            assert(t.last() == b);
        }
        i = i + 1;
    }
    assert(bytes@.take(bytes@.len() as int) =~= bytes@);
    out
}

/// `base` joined with the relative or absolute path `seg`, with `/` as the
/// separator: an absolute `seg` replaces `base`, and no separator is added
/// after an empty base or one that already ends with `/`.
pub open spec fn path_join(base: Seq<char>, seg: Seq<char>) -> Seq<char> {
    if seg.len() > 0 && seg[0] == '/' {
        seg
    } else if base.len() == 0 || base.last() == '/' {
        base + seg
    } else {
        base + seq!['/'] + seg
    }
}

/// Joins two path pieces.
pub fn join_path(base: &str, seg: &str) -> (r: String)
    ensures
        r@ == path_join(base@, seg@),
{
    let seg_len = seg.unicode_len();
    if seg_len > 0 && seg.get_char(0) == '/' {
        return String::from_str(seg);
    }
    let n = base.unicode_len();
    let mut out = String::from_str(base);
    if n == 0 || base.get_char(n - 1) == '/' {
        out.append(seg);
        return out;
    }
    proof {
        reveal_strlit("/");
    }
    out.append("/");
    out.append(seg);
    out
}

/// The first index at or after `k` at which `p` occurs in `s`.
pub open spec fn find_from(s: Seq<char>, p: Seq<char>, k: int) -> Option<int>
    decreases s.len() - k,
{
    if k < 0 || k + p.len() > s.len() {
        None
    } else if occurs_at(s, p, k) {
        Some(k)
    } else {
        proof {
            if p.len() == 0 {
                assert(s.subrange(k, k + p.len()) =~= p);
            }
        }
        find_from(s, p, k + 1)
    }
}

pub proof fn lemma_find_from(s: Seq<char>, p: Seq<char>, k: int)
    requires
        0 <= k,
    ensures
        match find_from(s, p, k) {
            Some(i) => k <= i && occurs_at(s, p, i) && forall|j: int|
                k <= j < i ==> !#[trigger] occurs_at(s, p, j),
            None => forall|j: int| k <= j ==> !#[trigger] occurs_at(s, p, j),
        },
    decreases s.len() - k,
{
    if k + p.len() > s.len() {
    } else if occurs_at(s, p, k) {
    } else {
        if p.len() == 0 {
            assert(s.subrange(k, k + p.len()) =~= p);
        }
        lemma_find_from(s, p, k + 1);
    }
}

/// The first occurrence is what `find_from` finds from the start.
pub proof fn lemma_find_first(s: Seq<char>, p: Seq<char>, i: int)
    requires
        first_occurrence(s, p, i),
    ensures
        find_from(s, p, 0) == Some(i),
{
    lemma_find_from(s, p, 0);
    match find_from(s, p, 0) {
        Some(i2) => {
            if i2 < i {
                assert(!occurs_at(s, p, i2));
            } else if i < i2 {
                assert(!occurs_at(s, p, i));
            }
        },
        None => {
            assert(!occurs_at(s, p, i));
        },
    }
}

/// Where `p` occurs nowhere, `find_from` finds nothing.
pub proof fn lemma_find_none(s: Seq<char>, p: Seq<char>)
    requires
        forall|j: int| !#[trigger] occurs_at(s, p, j),
    ensures
        (find_from(s, p, 0) is None),
{
    lemma_find_from(s, p, 0);
    match find_from(s, p, 0) {
        Some(i2) => {
            assert(!occurs_at(s, p, i2));
        },
        None => {},
    }
}

/// What `find_from` finds from the start is the first occurrence.
pub proof fn lemma_find_sound(s: Seq<char>, p: Seq<char>)
    ensures
        match find_from(s, p, 0) {
            Some(i) => first_occurrence(s, p, i),
            None => forall|j: int| !#[trigger] occurs_at(s, p, j),
        },
{
    lemma_find_from(s, p, 0);
    match find_from(s, p, 0) {
        Some(i) => {},
        None => {
            assert forall|j: int| !#[trigger] occurs_at(s, p, j) by {
                if j >= 0 {
                }
            }
        },
    }
}

pub proof fn lemma_occurs_prefix(r: Seq<char>, x: Seq<char>, p: Seq<char>, j: int)
    requires
        0 <= j,
        j + p.len() <= r.len(),
    ensures
        occurs_at(r + x, p, j) == occurs_at(r, p, j),
{
    assert((r + x).subrange(j, j + p.len()) =~= r.subrange(j, j + p.len()));
}

pub proof fn lemma_occurs_shift(r: Seq<char>, x: Seq<char>, p: Seq<char>, e: int, j: int)
    requires
        0 <= e <= r.len(),
        e <= j,
    ensures
        occurs_at(r + x, p, j) == occurs_at(r.subrange(e, r.len() as int) + x, p, j - e),
{
    let a = r + x;
    let b = r.subrange(e, r.len() as int) + x;
    assert(a.len() == b.len() + e);
    if j + p.len() <= a.len() {
        assert(a.subrange(j, j + p.len()) =~= b.subrange(j - e, j - e + p.len()));
    }
}

pub proof fn lemma_occurs_suffix(r: Seq<char>, p: Seq<char>, e: int, j: int)
    requires
        0 <= e <= r.len(),
        occurs_at(r.subrange(e, r.len() as int), p, j),
    ensures
        occurs_at(r, p, j + e),
{
    let b = r.subrange(e, r.len() as int);
    assert(r.subrange(j + e, j + e + p.len()) =~= b.subrange(j, j + p.len()));
}

/// A first occurrence in `r` stays the first occurrence once more text follows.
pub proof fn lemma_first_extend(r: Seq<char>, x: Seq<char>, p: Seq<char>, i: int)
    requires
        first_occurrence(r, p, i),
    ensures
        first_occurrence(r + x, p, i),
{
    lemma_occurs_prefix(r, x, p, i);
    assert forall|j: int| 0 <= j < i implies !#[trigger] occurs_at(r + x, p, j) by {
        lemma_occurs_prefix(r, x, p, j);
    }
}

/// `s` with every occurrence of `pat`, found from left to right without
/// overlap, replaced by `rep`, as `str::replace` gives it for a pattern
/// that is not empty.
pub open spec fn replace_all(s: Seq<char>, pat: Seq<char>, rep: Seq<char>) -> Seq<char>
    decreases s.len(),
{
    if pat.len() == 0 {
        s
    } else {
        match find_from(s, pat, 0) {
            Some(i) => if 0 <= i && i + pat.len() <= s.len() {
                s.subrange(0, i) + rep + replace_all(s.subrange(i + pat.len(), s.len() as int), pat, rep)
            } else {
                s
            },
            None => s,
        }
    }
}

/// `s` with every occurrence of `pat` replaced by `rep`.
pub fn replace_text(s: &str, pat: &str, rep: &str) -> (r: String)
    requires
        pat@.len() > 0,
    ensures
        r@ == replace_all(s@, pat@, rep@),
{
    let mut out = String::new();
    let mut rest = String::from_str(s);
    while true
        invariant
            pat@.len() > 0,
            out@ + replace_all(rest@, pat@, rep@) == replace_all(s@, pat@, rep@),
        decreases rest@.len(),
    {
        match find(rest.as_str(), pat) {
            Some(i) => {
                proof {
                    lemma_find_first(rest@, pat@, i as int);
                }
                let n = rest.as_str().unicode_len();
                let m = pat.unicode_len();
                let before = String::from_str(rest.as_str().substring_char(0, i));
                let after = String::from_str(rest.as_str().substring_char(i + m, n));
                let ghost old_out = out@;
                let ghost old_rest = rest@;
                out.append(before.as_str());
                out.append(rep);
                proof {
                    assert(out@ + replace_all(after@, pat@, rep@) =~= old_out + replace_all(old_rest, pat@, rep@));
                }
                rest = after;
            },
            None => {
                proof {
                    lemma_find_none(rest@, pat@);
                }
                out.append(rest.as_str());
                return out;
            },
        }
    }
    out
}


proof fn lemma_trim_start_shape(s: Seq<char>)
    ensures
        trim_start_seq(s).len() == 0 || !is_ws(trim_start_seq(s)[0]),
    decreases s.len(),
{
    if s.len() > 0 && is_ws(s[0]) {
        lemma_trim_start_shape(s.drop_first());
    }
}

proof fn lemma_trim_end_shape(s: Seq<char>)
    ensures
        trim_end_seq(s).len() <= s.len(),
        trim_end_seq(s) == s.subrange(0, trim_end_seq(s).len() as int),
        trim_end_seq(s).len() == 0 || !is_ws(trim_end_seq(s).last()),
    decreases s.len(),
{
    if s.len() > 0 && is_ws(s.last()) {
        lemma_trim_end_shape(s.drop_last());
        assert(s.drop_last().subrange(0, trim_end_seq(s).len() as int) =~= s.subrange(0, trim_end_seq(s).len() as int));
    } else {
        assert(s.subrange(0, s.len() as int) =~= s);
    }
}

/// Trimming a trimmed text changes nothing.
pub proof fn law_trim_idempotent(s: Seq<char>)
    ensures
        trim_seq(trim_seq(s)) == trim_seq(s),
{
    let t = trim_start_seq(s);
    let u = trim_end_seq(t);
    lemma_trim_start_shape(s);
    lemma_trim_end_shape(t);
    if u.len() > 0 {
        assert(u[0] == t[0]);
    }
    assert(trim_start_seq(u) == u);
    assert(trim_end_seq(u) == u);
}

} // verus!
