//! Text operations on `&str`, each stated over the `Seq<char>` view.

use vstd::prelude::*;

verus! {

/// `needle` occurs in `hay` at some position (the empty needle occurs everywhere).
pub open spec fn is_substring(needle: Seq<char>, hay: Seq<char>) -> bool {
    exists|i: int|
        0 <= i <= hay.len() - needle.len() && #[trigger] hay.subrange(i, i + needle.len()) == needle
}

/// The characters of `s`, in order.
pub fn chars_of(s: &str) -> (v: Vec<char>)
    ensures
        v@ == s@,
{
    let mut v: Vec<char> = Vec::new();
    for c in it: s.chars()
        invariant
            v@ == it.seq().take(it.index() as int),
    {
        v.push(c);
    }
    proof {
        broadcast use vstd::string::group_string_axioms;
    }
    v
}

/// Whether `needle` occurs in `hay` starting at position `at`.
fn occurs_at(hay: &Vec<char>, needle: &Vec<char>, at: usize) -> (r: bool)
    requires
        at + needle@.len() <= hay@.len(),
    ensures
        r == (hay@.subrange(at as int, at + needle@.len()) == needle@),
{
    let n = needle.len();
    let mut j: usize = 0;
    while j < n
        invariant
            n == needle@.len(),
            at + n <= hay.len(),
            j <= n,
            forall|k: int| 0 <= k < j ==> hay@[at + k] == needle@[k],
        decreases n - j,
    {
        if hay[at + j] != needle[j] {
            assert(hay@.subrange(at as int, at + n)[j as int] != needle@[j as int]);
            return false;
        }
        j = j + 1;
    }
    assert(hay@.subrange(at as int, at + n) =~= needle@);
    true
}

/// Substring search, as `str::contains` with a `&str` pattern.
pub fn contains_str(hay: &str, needle: &str) -> (r: bool)
    ensures
        r == is_substring(needle@, hay@),
{
    let h = chars_of(hay);
    let n = chars_of(needle);
    if n.len() > h.len() {
        return false;
    }
    let last = h.len() - n.len();
    let mut i: usize = 0;
    while i <= last
        invariant
            h@ == hay@,
            n@ == needle@,
            last == h@.len() - n@.len(),
            i <= last + 1,
            forall|k: int| 0 <= k < i ==> #[trigger] h@.subrange(k, k + n@.len()) != n@,
        decreases last + 1 - i,
    {
        if occurs_at(&h, &n, i) {
            return true;
        }
        if i == last {
            return false;
        }
        i = i + 1;
    }
    false
}

/// The characters that `char::is_whitespace` accepts: the Unicode
/// `White_Space` property.
pub open spec fn is_white_space(c: char) -> bool {
    let u = c as u32;
    ||| 0x09 <= u <= 0x0d
    ||| u == 0x20
    ||| u == 0x85
    ||| u == 0xa0
    ||| u == 0x1680
    ||| 0x2000 <= u <= 0x200a
    ||| u == 0x2028
    ||| u == 0x2029
    ||| u == 0x202f
    ||| u == 0x205f
    ||| u == 0x3000
}

/// `s` without its leading white space.
pub open spec fn trim_start(s: Seq<char>) -> Seq<char>
    decreases s.len(),
{
    if s.len() > 0 && is_white_space(s[0]) {
        trim_start(s.drop_first())
    } else {
        s
    }
}

/// `s` without its trailing white space.
pub open spec fn trim_end(s: Seq<char>) -> Seq<char>
    decreases s.len(),
{
    if s.len() > 0 && is_white_space(s.last()) {
        trim_end(s.drop_last())
    } else {
        s
    }
}

/// `s` without leading and trailing white space, as `str::trim`.
pub open spec fn trimmed(s: Seq<char>) -> Seq<char> {
    trim_end(trim_start(s))
}

proof fn lemma_trim_start(s: Seq<char>) -> (k: int)
    ensures
        0 <= k <= s.len(),
        trim_start(s) == s.subrange(k, s.len() as int),
        forall|i: int| 0 <= i < k ==> is_white_space(#[trigger] s[i]),
        k < s.len() ==> !is_white_space(s[k]),
    decreases s.len(),
{
    if s.len() > 0 && is_white_space(s[0]) {
        let t = s.drop_first();
        let k1 = lemma_trim_start(t);
        assert(t.subrange(k1, t.len() as int) =~= s.subrange(k1 + 1, s.len() as int));
        assert forall|i: int| 0 <= i < k1 + 1 implies is_white_space(#[trigger] s[i]) by {
            if i > 0 {
                assert(s[i] == t[i - 1]);
            }
        }
        k1 + 1
    } else {
        assert(s.subrange(0, s.len() as int) =~= s);
        0
    }
}

proof fn lemma_trim_end(s: Seq<char>) -> (m: int)
    ensures
        0 <= m <= s.len(),
        trim_end(s) == s.subrange(0, m),
        forall|i: int| m <= i < s.len() ==> is_white_space(#[trigger] s[i]),
        m > 0 ==> !is_white_space(s[m - 1]),
    decreases s.len(),
{
    if s.len() > 0 && is_white_space(s.last()) {
        let t = s.drop_last();
        let m1 = lemma_trim_end(t);
        assert(t.subrange(0, m1) =~= s.subrange(0, m1));
        assert forall|i: int| m1 <= i < s.len() implies is_white_space(#[trigger] s[i]) by {
            if i < s.len() - 1 {
                assert(s[i] == t[i]);
            }
        }
        m1
    } else {
        assert(s.subrange(0, s.len() as int) =~= s);
        s.len() as int
    }
}

/// What trimming keeps: the stretch of `s` from its first to its last
/// character that is not white space (nothing, when all of `s` is white
/// space); everything cut off on either side is white space.
pub proof fn lemma_trimmed_is_the_core(s: Seq<char>)
    ensures
        exists|a: int, b: int|
            0 <= a <= b <= s.len() && trimmed(s) == s.subrange(a, b) && (forall|i: int|
                0 <= i < a ==> is_white_space(#[trigger] s[i])) && (forall|i: int|
                b <= i < s.len() ==> is_white_space(#[trigger] s[i])) && (a < b ==> !is_white_space(
                s[a]) && !is_white_space(s[b - 1])),
{
    let k = lemma_trim_start(s);
    let t = s.subrange(k, s.len() as int);
    let m = lemma_trim_end(t);
    assert(t.subrange(0, m) =~= s.subrange(k, k + m));
    assert forall|i: int| k + m <= i < s.len() implies is_white_space(#[trigger] s[i]) by {
        assert(s[i] == t[i - k]);
    }
    if k < s.len() {
        assert(t[0] == s[k]);
        if m == 0 {
            assert(is_white_space(t[0]));
        }
        assert(s[k + m - 1] == t[m - 1]);
    }
    assert(trimmed(s) == s.subrange(k, k + m));
}

fn is_white_space_char(c: char) -> (r: bool)
    ensures
        r == is_white_space(c),
{
    let u = c as u32;
    (0x09 <= u && u <= 0x0d) || u == 0x20 || u == 0x85 || u == 0xa0 || u == 0x1680 || (0x2000
        <= u && u <= 0x200a) || u == 0x2028 || u == 0x2029 || u == 0x202f || u == 0x205f || u
        == 0x3000
}

/// `s` with leading and trailing white space removed, as `str::trim`.
pub fn trim(s: &str) -> (r: String)
    ensures
        r@ == trimmed(s@),
{
    let v = chars_of(s);
    let n = v.len();
    let mut start: usize = 0;
    assert(s@.subrange(0, n as int) =~= s@);
    while start < n && is_white_space_char(v[start])
        invariant
            v@ == s@,
            n == v@.len(),
            start <= n,
            trim_start(s@) == trim_start(s@.subrange(start as int, n as int)),
        decreases n - start,
    {
        assert(s@.subrange(start as int, n as int).drop_first() =~= s@.subrange(
            start + 1,
            n as int,
        ));
        start = start + 1;
    }
    let mut end: usize = n;
    while end > start && is_white_space_char(v[end - 1])
        invariant
            v@ == s@,
            n == v@.len(),
            start <= end <= n,
            trim_start(s@) == s@.subrange(start as int, n as int),
            trimmed(s@) == trim_end(s@.subrange(start as int, end as int)),
        decreases end - start,
    {
        assert(s@.subrange(start as int, end as int).drop_last() =~= s@.subrange(
            start as int,
            end - 1,
        ));
        end = end - 1;
    }
    String::from_str(s.substring_char(start, end))
}

/// `s` ends with the character `c`, as `str::ends_with` with a `char` pattern.
pub fn ends_with_char(s: &str, c: char) -> (r: bool)
    ensures
        r == (s@.len() > 0 && s@.last() == c),
{
    let n = s.unicode_len();
    n > 0 && s.get_char(n - 1) == c
}

/// `c` with `A`..=`Z` mapped to `a`..=`z`, as `char::to_ascii_lowercase`.
pub open spec fn ascii_lower(c: char) -> char {
    if 'A' <= c <= 'Z' {
        ((c as u32) + 32) as char
    } else {
        c
    }
}

/// The two texts are equal once ASCII letters are folded to lower case, as
/// `str::eq_ignore_ascii_case`.
pub open spec fn eq_ascii_case_insensitive(a: Seq<char>, b: Seq<char>) -> bool {
    &&& a.len() == b.len()
    &&& forall|i: int| 0 <= i < a.len() ==> ascii_lower(#[trigger] a[i]) == ascii_lower(b[i])
}

fn ascii_lower_char(c: char) -> (r: char)
    ensures
        r == ascii_lower(c),
{
    if 'A' <= c && c <= 'Z' {
        ((c as u8) + 32) as char
    } else {
        c
    }
}

/// ASCII case-insensitive equality, as `str::eq_ignore_ascii_case`.
pub fn eq_ignore_ascii_case(a: &str, b: &str) -> (r: bool)
    ensures
        r == eq_ascii_case_insensitive(a@, b@),
{
    let x = chars_of(a);
    let y = chars_of(b);
    if x.len() != y.len() {
        return false;
    }
    let n = x.len();
    let mut i: usize = 0;
    while i < n
        invariant
            x@ == a@,
            y@ == b@,
            n == x@.len(),
            n == y@.len(),
            i <= n,
            forall|k: int| 0 <= k < i ==> ascii_lower(#[trigger] a@[k]) == ascii_lower(b@[k]),
        decreases n - i,
    {
        if ascii_lower_char(x[i]) != ascii_lower_char(y[i]) {
            return false;
        }
        i = i + 1;
    }
    true
}

/// What `str::to_lowercase` makes of a text: its lower-case form under the
/// Unicode case mapping (some characters map to several, and a capital sigma
/// maps by its context).
pub uninterp spec fn unicode_lowercase(s: Seq<char>) -> Seq<char>;

/// Every character of `s` is ASCII.
pub open spec fn is_ascii_text(s: Seq<char>) -> bool {
    forall|i: int| 0 <= i < s.len() ==> (#[trigger] s[i] as u32) < 128
}

/// `s` with each character mapped by `ascii_lower`, as `str::to_ascii_lowercase`.
pub open spec fn ascii_lowered(s: Seq<char>) -> Seq<char> {
    s.map_values(|c: char| ascii_lower(c))
}

/// `c` with `a`..=`z` mapped to `A`..=`Z`, as `char::to_ascii_uppercase`.
pub open spec fn ascii_upper(c: char) -> char {
    if 'a' <= c <= 'z' {
        ((c as u32) - 32) as char
    } else {
        c
    }
}

/// `s` with each character mapped by `ascii_upper`, as `str::to_ascii_uppercase`.
pub open spec fn ascii_uppered(s: Seq<char>) -> Seq<char> {
    s.map_values(|c: char| ascii_upper(c))
}

/// Calls `str::to_lowercase`. Trusted: the result is `unicode_lowercase` of
/// the argument, a function of the text alone; and on ASCII-only text it is
/// the ASCII lower-case form (`A`..=`Z` to `a`..=`z`, all else kept), which
/// the documentation of `str::to_ascii_lowercase` states by pointing to
/// `to_lowercase` for lower-casing "ASCII characters in addition to
/// non-ASCII characters". Nothing more is stated of non-ASCII text.
#[verifier::external_body]
pub(crate) fn to_lowercase(s: &str) -> (r: String)
    ensures
        r@ == unicode_lowercase(s@),
        is_ascii_text(s@) ==> r@ == ascii_lowered(s@),
{
    s.to_lowercase()
}

/// What `String::from_utf8_lossy` makes of a byte string: its UTF-8 decoding,
/// with each invalid sequence replaced by U+FFFD.
pub uninterp spec fn utf8_lossy(bytes: Seq<u8>) -> Seq<char>;

/// Calls `String::from_utf8_lossy`. Trusted: the result is `utf8_lossy` of the
/// bytes, and on valid UTF-8 it is the plain decoding, as the documentation says.
#[verifier::external_body]
pub(crate) fn from_utf8_lossy(bytes: &[u8]) -> (r: String)
    ensures
        r@ == utf8_lossy(bytes@),
        vstd::utf8::valid_utf8(bytes@) ==> r@ == vstd::utf8::decode_utf8(bytes@),
{
    String::from_utf8_lossy(bytes).into_owned()
}

/// The decimal digit character for `d < 10`.
pub open spec fn digit_char(d: nat) -> char {
    ((0x30 + d) as u32) as char
}

/// The decimal digits of `n`, most significant first, without leading zeros.
pub open spec fn decimal_digits(n: nat) -> Seq<char>
    decreases n,
{
    if n < 10 {
        seq![digit_char(n)]
    } else {
        decimal_digits(n / 10).push(digit_char(n % 10))
    }
}

/// The decimal text of `i`, as `i32`'s `Display` writes it.
pub open spec fn decimal_text(i: int) -> Seq<char> {
    if i < 0 {
        seq!['-'] + decimal_digits((-i) as nat)
    } else {
        decimal_digits(i as nat)
    }
}

fn digit_str(d: u32) -> (r: &'static str)
    requires
        d < 10,
    ensures
        r@ == seq![digit_char(d as nat)],
{
    proof {
        reveal_strlit("0");
        reveal_strlit("1");
        reveal_strlit("2");
        reveal_strlit("3");
        reveal_strlit("4");
        reveal_strlit("5");
        reveal_strlit("6");
        reveal_strlit("7");
        reveal_strlit("8");
        reveal_strlit("9");
    }
    match d {
        0 => "0",
        1 => "1",
        2 => "2",
        3 => "3",
        4 => "4",
        5 => "5",
        6 => "6",
        7 => "7",
        8 => "8",
        _ => "9",
    }
}

fn push_decimal_digits(out: &mut String, n: u32)
    ensures
        final(out)@ == old(out)@ + decimal_digits(n as nat),
    decreases n,
{
    if n >= 10 {
        push_decimal_digits(out, n / 10);
    }
    out.append(digit_str(n % 10));
    proof {
        if n >= 10 {
            assert(old(out)@ + decimal_digits(n as nat) =~= old(out)@ + decimal_digits(
                (n / 10) as nat,
            ) + seq![digit_char((n % 10) as nat)]);
        } else {
            assert(old(out)@ + decimal_digits(n as nat) =~= old(out)@ + seq![
                digit_char(n as nat),
            ]);
        }
    }
}

/// The decimal text of `i`, as `i.to_string()`.
pub fn decimal_string(i: i32) -> (r: String)
    ensures
        r@ == decimal_text(i as int),
{
    let mut out = String::new();
    if i < 0 {
        proof {
            reveal_strlit("-");
        }
        out.append("-");
        let magnitude: u32 = (0 - (i as i64)) as u32;
        push_decimal_digits(&mut out, magnitude);
    } else {
        push_decimal_digits(&mut out, i as u32);
    }
    out
}

} // verus!
