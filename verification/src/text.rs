//! Character-level string operations with exact specifications.

use vstd::prelude::*;
use vstd::utf8::encode_utf8;

verus! {

/// Unicode `White_Space`, the property that `char::is_whitespace` tests.
pub open spec fn is_white(c: char) -> bool {
    let u = c as u32;
    ||| (0x9 <= u && u <= 0xd)
    ||| u == 0x20
    ||| u == 0x85
    ||| u == 0xa0
    ||| u == 0x1680
    ||| (0x2000 <= u && u <= 0x200a)
    ||| u == 0x2028
    ||| u == 0x2029
    ||| u == 0x202f
    ||| u == 0x205f
    ||| u == 0x3000
}

pub fn char_is_white(c: char) -> (r: bool)
    ensures
        r == is_white(c),
{
    let u = c as u32;
    (0x9 <= u && u <= 0xd) || u == 0x20 || u == 0x85 || u == 0xa0 || u == 0x1680 || (0x2000
        <= u && u <= 0x200a) || u == 0x2028 || u == 0x2029 || u == 0x202f || u == 0x205f || u
        == 0x3000
}

/// `s` without its leading white space.
pub open spec fn trim_start_seq(s: Seq<char>) -> Seq<char>
    decreases s.len(),
{
    if s.len() > 0 && is_white(s[0]) {
        trim_start_seq(s.drop_first())
    } else {
        s
    }
}

/// `s` without its trailing white space.
pub open spec fn trim_end_seq(s: Seq<char>) -> Seq<char>
    decreases s.len(),
{
    if s.len() > 0 && is_white(s.last()) {
        trim_end_seq(s.drop_last())
    } else {
        s
    }
}

/// What `str::trim` gives back.
pub open spec fn trim_seq(s: Seq<char>) -> Seq<char> {
    trim_end_seq(trim_start_seq(s))
}

pub open spec fn is_ascii_upper(c: char) -> bool {
    'A' <= c && c <= 'Z'
}

/// `char::to_ascii_lowercase`.
pub open spec fn ascii_lower(c: char) -> char {
    if is_ascii_upper(c) {
        ((c as u32) + 32) as char
    } else {
        c
    }
}

/// `str::to_ascii_lowercase`.
pub open spec fn ascii_lower_seq(s: Seq<char>) -> Seq<char> {
    Seq::new(s.len(), |i: int| ascii_lower(s[i]))
}

/// `str::eq_ignore_ascii_case`.
pub open spec fn eq_ignore_ascii_case_seq(a: Seq<char>, b: Seq<char>) -> bool {
    ascii_lower_seq(a) == ascii_lower_seq(b)
}

/// `t` occurs in `s` at position `i`.
pub open spec fn match_at(s: Seq<char>, t: Seq<char>, i: int) -> bool {
    0 <= i && i + t.len() <= s.len() && s.subrange(i, i + t.len()) == t
}

/// `str::contains`.
pub open spec fn contains_seq(s: Seq<char>, t: Seq<char>) -> bool {
    exists|i: int| match_at(s, t, i)
}

pub open spec fn starts_with_seq(s: Seq<char>, t: Seq<char>) -> bool {
    match_at(s, t, 0)
}

pub open spec fn ends_with_seq(s: Seq<char>, t: Seq<char>) -> bool {
    match_at(s, t, s.len() - t.len())
}

/// The first position at or after `k` where `t` occurs in `s`, or -1.
pub open spec fn find_from(s: Seq<char>, t: Seq<char>, k: int) -> int
    decreases s.len() + 1 - k,
{
    if k < 0 || k + t.len() > s.len() {
        -1
    } else if match_at(s, t, k) {
        k
    } else {
        find_from(s, t, k + 1)
    }
}

pub proof fn lemma_find_from(s: Seq<char>, t: Seq<char>, k: int)
    requires
        0 <= k,
    ensures
        find_from(s, t, k) == -1 || (k <= find_from(s, t, k) && match_at(
            s,
            t,
            find_from(s, t, k),
        )),
        find_from(s, t, k) == -1 ==> forall|j: int| k <= j ==> !#[trigger] match_at(s, t, j),
        forall|j: int| k <= j < find_from(s, t, k) ==> !#[trigger] match_at(s, t, j),
    decreases s.len() + 1 - k,
{
    if k + t.len() > s.len() {
    } else if match_at(s, t, k) {
    } else {
        lemma_find_from(s, t, k + 1);
    }
}

/// The pieces that `str::split` yields for the part of `s` from `start` on
/// (`sep` not empty).
pub open spec fn split_from(s: Seq<char>, sep: Seq<char>, start: int) -> Seq<Seq<char>>
    recommends
        sep.len() > 0,
        0 <= start <= s.len(),
    decreases s.len() - start,
    when sep.len() > 0 && 0 <= start <= s.len()
{
    let i = find_from(s, sep, start);
    if i < 0 {
        seq![s.subrange(start, s.len() as int)]
    } else {
        proof {
            lemma_find_from(s, sep, start);
        }
        seq![s.subrange(start, i)] + split_from(s, sep, i + sep.len())
    }
}

/// `s.split(sep)`, as a sequence of pieces.
pub open spec fn split_seq(s: Seq<char>, sep: Seq<char>) -> Seq<Seq<char>> {
    split_from(s, sep, 0)
}

/// `str::split` yields at least one piece.
pub proof fn lemma_split_nonempty(s: Seq<char>, sep: Seq<char>)
    requires
        sep.len() > 0,
    ensures
        split_seq(s, sep).len() >= 1,
{
    lemma_find_from(s, sep, 0);
}

/// `str::replace` applied to the part of `s` from `start` on (`from` not empty).
pub open spec fn replace_from(s: Seq<char>, from: Seq<char>, to: Seq<char>, start: int) -> Seq<
    char,
>
    recommends
        from.len() > 0,
        0 <= start <= s.len(),
    decreases s.len() - start,
    when from.len() > 0 && 0 <= start <= s.len()
{
    let i = find_from(s, from, start);
    if i < 0 {
        s.subrange(start, s.len() as int)
    } else {
        proof {
            lemma_find_from(s, from, start);
        }
        s.subrange(start, i) + to + replace_from(s, from, to, i + from.len())
    }
}

/// `s.replace(from, to)`.
pub open spec fn replace_seq(s: Seq<char>, from: Seq<char>, to: Seq<char>) -> Seq<char> {
    replace_from(s, from, to, 0)
}

/// What `str::to_lowercase` gives back (full Unicode case mapping).
pub uninterp spec fn unicode_lowercase(s: Seq<char>) -> Seq<char>;

/// Calls `str::to_lowercase` of std. The contract says that the result is
/// the Unicode lowercase mapping of the argument, a function of the argument
/// alone; what that mapping is for each character is not stated here.
#[verifier::external_body]
pub(crate) fn to_lowercase(s: &str) -> (r: String)
    ensures
        r@ == unicode_lowercase(s@),
{
    s.to_lowercase()
}

/// What `str::to_uppercase` gives back (full Unicode case mapping).
pub uninterp spec fn unicode_uppercase(s: Seq<char>) -> Seq<char>;

/// Calls `str::to_uppercase` of std. The contract says that the result is
/// the Unicode uppercase mapping of the argument, a function of the argument
/// alone; what that mapping is for each character is not stated here.
#[verifier::external_body]
pub(crate) fn to_uppercase(s: &str) -> (r: String)
    ensures
        r@ == unicode_uppercase(s@),
{
    s.to_uppercase()
}

/// The `d`-th digit of upper-case hexadecimal.
pub open spec fn upper_hex_digit(d: int) -> char {
    seq!['0', '1', '2', '3', '4', '5', '6', '7', '8', '9', 'A', 'B', 'C', 'D', 'E', 'F'][d]
}

/// The `d`-th digit of lower-case hexadecimal.
pub open spec fn lower_hex_digit(d: int) -> char {
    seq!['0', '1', '2', '3', '4', '5', '6', '7', '8', '9', 'a', 'b', 'c', 'd', 'e', 'f'][d]
}

/// A byte written as `%` and two upper-case hexadecimal digits.
pub open spec fn percent_byte(b: u8) -> Seq<char> {
    seq!['%', upper_hex_digit((b / 16) as int), upper_hex_digit((b % 16) as int)]
}

/// An ASCII letter or digit.
pub open spec fn is_ascii_alphanumeric_byte(b: u8) -> bool {
    (0x30 <= b <= 0x39) || (0x41 <= b <= 0x5a) || (0x61 <= b <= 0x7a)
}

/// The bytes kept as they are by URL percent-encoding: letters, digits and
/// `-`, `.`, `_`, `~`.
pub open spec fn url_unreserved(b: u8) -> bool {
    is_ascii_alphanumeric_byte(b) || b == 0x2d || b == 0x2e || b == 0x5f || b == 0x7e
}

/// Bytes percent-encoded, unreserved ones kept.
pub open spec fn url_encoded_bytes(bytes: Seq<u8>) -> Seq<char>
    decreases bytes.len(),
{
    if bytes.len() == 0 {
        Seq::empty()
    } else {
        url_encoded_bytes(bytes.drop_last()) + if url_unreserved(bytes.last()) {
            seq![bytes.last() as char]
        } else {
            percent_byte(bytes.last())
        }
    }
}

/// The bytes kept as they are by form encoding: letters, digits and `*`,
/// `-`, `.`, `_`.
pub open spec fn form_unchanged(b: u8) -> bool {
    is_ascii_alphanumeric_byte(b) || b == 0x2a || b == 0x2d || b == 0x2e || b == 0x5f
}

/// Bytes in the `application/x-www-form-urlencoded` form: space as `+`,
/// unchanged bytes kept, the others percent-encoded.
pub open spec fn form_encoded_bytes(bytes: Seq<u8>) -> Seq<char>
    decreases bytes.len(),
{
    if bytes.len() == 0 {
        Seq::empty()
    } else {
        form_encoded_bytes(bytes.drop_last()) + if form_unchanged(bytes.last()) {
            seq![bytes.last() as char]
        } else if bytes.last() == 0x20 {
            seq!['+']
        } else {
            percent_byte(bytes.last())
        }
    }
}

/// A character inside a JSON string: `"` and `\` behind a backslash, the
/// control characters with their short escapes (`\b`, `\t`, `\n`, `\f`,
/// `\r`) or as `\u00` and two lower-case hexadecimal digits, the others
/// as they are.
pub open spec fn json_escaped_char(c: char) -> Seq<char> {
    let u = c as u32;
    if c == '"' {
        seq!['\\', '"']
    } else if c == '\\' {
        seq!['\\', '\\']
    } else if u == 0x08 {
        seq!['\\', 'b']
    } else if u == 0x09 {
        seq!['\\', 't']
    } else if u == 0x0a {
        seq!['\\', 'n']
    } else if u == 0x0c {
        seq!['\\', 'f']
    } else if u == 0x0d {
        seq!['\\', 'r']
    } else if u < 0x20 {
        seq!['\\', 'u', '0', '0', lower_hex_digit((u / 16) as int), lower_hex_digit((u % 16) as int)]
    } else {
        seq![c]
    }
}

/// The characters of a text, each escaped for a JSON string.
pub open spec fn json_escaped(s: Seq<char>) -> Seq<char>
    decreases s.len(),
{
    if s.len() == 0 {
        Seq::empty()
    } else {
        json_escaped(s.drop_last()) + json_escaped_char(s.last())
    }
}

/// What the first match of a pattern (the regex crate's syntax) in a text
/// captures as group 1; nothing when the pattern does not compile, nothing
/// matches, or group 1 takes no part in the match.
pub uninterp spec fn regex_group1(pattern: Seq<char>, text: Seq<char>) -> Option<Seq<char>>;

/// Calls `regex::Regex::new` and `Regex::captures`, and returns group 1 of
/// the first match. The contract names the result.
#[verifier::external_body]
pub(crate) fn first_capture(pattern: &str, text: &str) -> (r: Option<String>)
    ensures
        match r {
            Some(g) => regex_group1(pattern@, text@) == Some(g@),
            None => regex_group1(pattern@, text@) is None,
        },
{
    match regex::Regex::new(pattern) {
        Ok(re) => re.captures(text).and_then(|c| c.get(1)).map(|m| m.as_str().to_string()),
        Err(_) => None,
    }
}

/// Calls `String::push` of std: the character is appended.
#[verifier::external_body]
pub(crate) fn push_char(s: &mut String, c: char)
    ensures
        final(s)@ == old(s)@.push(c),
{
    s.push(c)
}

/// The characters of `s`, in order.
pub fn to_chars(s: &str) -> (r: Vec<char>)
    ensures
        r@ == s@,
{
    let mut r: Vec<char> = Vec::new();
    for c in it: s.chars()
        invariant
            r@ == it.seq().take(it.index() as int),
    {
        r.push(c);
    }
    r
}

/// A string made of `v[lo..hi]`.
pub fn string_from_chars(v: &Vec<char>, lo: usize, hi: usize) -> (r: String)
    requires
        lo <= hi <= v.len(),
    ensures
        r@ == v@.subrange(lo as int, hi as int),
{
    let mut r = String::new();
    let mut i = lo;
    while i < hi
        invariant
            lo <= i <= hi <= v.len(),
            r@ == v@.subrange(lo as int, i as int),
        decreases hi - i,
    {
        push_char(&mut r, v[i]);
        assert(v@.subrange(lo as int, i + 1) == v@.subrange(lo as int, i as int).push(v@[i as int]));
        i += 1;
    }
    r
}

/// `a == b` on strings.
pub fn str_eq(a: &str, b: &str) -> (r: bool)
    ensures
        r == (a@ == b@),
{
    let va = to_chars(a);
    let vb = to_chars(b);
    if va.len() != vb.len() {
        return false;
    }
    let mut i: usize = 0;
    while i < va.len()
        invariant
            va@ == a@,
            vb@ == b@,
            va.len() == vb.len(),
            i <= va.len(),
            forall|j: int| 0 <= j < i ==> va@[j] == vb@[j],
        decreases va.len() - i,
    {
        if va[i] != vb[i] {
            return false;
        }
        i += 1;
    }
    assert(va@ =~= vb@);
    true
}

/// A copy of each string of `v`, in order.
pub fn clone_strings(v: &Vec<String>) -> (r: Vec<String>)
    ensures
        r@ == v@,
{
    let mut r: Vec<String> = Vec::new();
    let mut i: usize = 0;
    while i < v.len()
        invariant
            i <= v.len(),
            r@ == v@.take(i as int),
        decreases v.len() - i,
    {
        r.push(v[i].clone());
        assert(r@ =~= v@.take(i + 1));
        i += 1;
    }
    assert(v@.take(v.len() as int) =~= v@);
    r
}

/// `str::trim`.
pub fn trim(s: &str) -> (r: String)
    ensures
        r@ == trim_seq(s@),
{
    let v = to_chars(s);
    let n = v.len();
    let mut lo: usize = 0;
    assert(s@.subrange(0, n as int) =~= s@);
    while lo < n && char_is_white(v[lo])
        invariant
            v@ == s@,
            n == v.len(),
            lo <= n,
            trim_start_seq(s@) == trim_start_seq(s@.subrange(lo as int, n as int)),
        decreases n - lo,
    {
        assert(s@.subrange(lo as int, n as int).drop_first() =~= s@.subrange(lo + 1, n as int));
        lo += 1;
    }
    assert(trim_start_seq(s@.subrange(lo as int, n as int)) == s@.subrange(lo as int, n as int));
    let mut hi: usize = n;
    while hi > lo && char_is_white(v[hi - 1])
        invariant
            v@ == s@,
            n == v.len(),
            lo <= hi <= n,
            trim_seq(s@) == trim_end_seq(s@.subrange(lo as int, hi as int)),
        decreases hi - lo,
    {
        assert(s@.subrange(lo as int, hi as int).drop_last() =~= s@.subrange(
            lo as int,
            hi - 1,
        ));
        hi -= 1;
    }
    string_from_chars(&v, lo, hi)
}

/// Whether `t` occurs in `s` at `i`, on character vectors.
pub fn vec_match_at(s: &Vec<char>, t: &Vec<char>, i: usize) -> (r: bool)
    ensures
        r == match_at(s@, t@, i as int),
{
    if t.len() > s.len() || i > s.len() - t.len() {
        return false;
    }
    let mut j: usize = 0;
    while j < t.len()
        invariant
            i + t.len() <= s.len(),
            j <= t.len(),
            forall|k: int| 0 <= k < j ==> s@[i + k] == t@[k],
        decreases t.len() - j,
    {
        if s[i + j] != t[j] {
            assert(s@.subrange(i as int, i + t.len())[j as int] != t@[j as int]);
            return false;
        }
        j += 1;
    }
    assert(s@.subrange(i as int, i + t.len()) =~= t@);
    true
}

/// The first position at or after `k` where `t` occurs in `s`.
pub fn vec_find_from(s: &Vec<char>, t: &Vec<char>, k: usize) -> (r: Option<usize>)
    ensures
        match r {
            Some(i) => i as int == find_from(s@, t@, k as int),
            None => find_from(s@, t@, k as int) == -1,
        },
{
    let mut i = k;
    while i <= s.len() && t.len() <= s.len() - i
        invariant
            k <= i,
            find_from(s@, t@, k as int) == find_from(s@, t@, i as int),
        decreases s.len() + 1 - i,
    {
        if vec_match_at(s, t, i) {
            return Some(i);
        }
        if i == s.len() {
            assert(find_from(s@, t@, i + 1) == -1);
            return None;
        }
        i += 1;
    }
    None
}

/// `str::contains` on character vectors.
pub fn vec_contains(s: &Vec<char>, t: &Vec<char>) -> (r: bool)
    ensures
        r == contains_seq(s@, t@),
{
    let f = vec_find_from(s, t, 0);
    proof {
        lemma_find_from(s@, t@, 0);
    }
    f.is_some()
}

/// `str::contains`.
pub fn contains(s: &str, t: &str) -> (r: bool)
    ensures
        r == contains_seq(s@, t@),
{
    let vs = to_chars(s);
    let vt = to_chars(t);
    vec_contains(&vs, &vt)
}

/// `str::starts_with`.
pub fn starts_with(s: &str, t: &str) -> (r: bool)
    ensures
        r == starts_with_seq(s@, t@),
{
    let vs = to_chars(s);
    let vt = to_chars(t);
    vec_match_at(&vs, &vt, 0)
}

/// `str::ends_with`.
pub fn ends_with(s: &str, t: &str) -> (r: bool)
    ensures
        r == ends_with_seq(s@, t@),
{
    let vs = to_chars(s);
    let vt = to_chars(t);
    if vt.len() > vs.len() {
        return false;
    }
    vec_match_at(&vs, &vt, vs.len() - vt.len())
}

pub fn char_ascii_lower(c: char) -> (r: char)
    ensures
        r == ascii_lower(c),
{
    if 'A' <= c && c <= 'Z' {
        let b = (c as u8) + 32;
        b as char
    } else {
        c
    }
}

/// `str::to_ascii_lowercase`.
pub fn to_ascii_lowercase(s: &str) -> (r: String)
    ensures
        r@ == ascii_lower_seq(s@),
{
    let v = to_chars(s);
    let mut r = String::new();
    let mut i: usize = 0;
    while i < v.len()
        invariant
            v@ == s@,
            i <= v.len(),
            r@ == ascii_lower_seq(s@).take(i as int),
        decreases v.len() - i,
    {
        push_char(&mut r, char_ascii_lower(v[i]));
        assert(ascii_lower_seq(s@).take(i + 1) =~= ascii_lower_seq(s@).take(i as int).push(
            ascii_lower(v@[i as int]),
        ));
        i += 1;
    }
    assert(ascii_lower_seq(s@).take(v.len() as int) =~= ascii_lower_seq(s@));
    r
}

/// `str::eq_ignore_ascii_case`.
pub fn eq_ignore_ascii_case(a: &str, b: &str) -> (r: bool)
    ensures
        r == eq_ignore_ascii_case_seq(a@, b@),
{
    let va = to_chars(a);
    let vb = to_chars(b);
    if va.len() != vb.len() {
        assert(ascii_lower_seq(a@).len() != ascii_lower_seq(b@).len());
        return false;
    }
    let mut i: usize = 0;
    while i < va.len()
        invariant
            va@ == a@,
            vb@ == b@,
            va.len() == vb.len(),
            i <= va.len(),
            forall|j: int| 0 <= j < i ==> ascii_lower(va@[j]) == ascii_lower(vb@[j]),
        decreases va.len() - i,
    {
        if char_ascii_lower(va[i]) != char_ascii_lower(vb[i]) {
            assert(ascii_lower_seq(a@)[i as int] != ascii_lower_seq(b@)[i as int]);
            return false;
        }
        i += 1;
    }
    assert(ascii_lower_seq(a@) =~= ascii_lower_seq(b@));
    true
}

/// `s.split(sep)` (`sep` not empty).
pub fn split(s: &str, sep: &str) -> (r: Vec<String>)
    requires
        sep@.len() > 0,
    ensures
        r@.map_values(|p: String| p@) == split_seq(s@, sep@),
{
    let v = to_chars(s);
    let t = to_chars(sep);
    let mut r: Vec<String> = Vec::new();
    let mut start: usize = 0;
    loop
        invariant
            v@ == s@,
            t@ == sep@,
            t.len() > 0,
            start <= v.len(),
            r@.map_values(|p: String| p@) + split_from(s@, sep@, start as int) == split_seq(
                s@,
                sep@,
            ),
        decreases v.len() - start,
    {
        let f = vec_find_from(&v, &t, start);
        proof {
            lemma_find_from(s@, sep@, start as int);
        }
        match f {
            None => {
                let piece = string_from_chars(&v, start, v.len());
                let ghost old_r = r@;
                r.push(piece);
                assert(r@.map_values(|p: String| p@) =~= old_r.map_values(|p: String| p@).push(
                    piece@,
                ));
                assert(r@.map_values(|p: String| p@) =~= split_seq(s@, sep@));
                return r;
            },
            Some(i) => {
                let piece = string_from_chars(&v, start, i);
                let ghost old_r = r@;
                r.push(piece);
                assert(r@.map_values(|p: String| p@) =~= old_r.map_values(|p: String| p@).push(
                    piece@,
                ));
                assert(r@.map_values(|p: String| p@) + split_from(
                    s@,
                    sep@,
                    (i + t.len()) as int,
                ) =~= old_r.map_values(|p: String| p@) + split_from(s@, sep@, start as int));
                start = i + t.len();
            },
        }
    }
}

/// `s.replace(from, to)` (`from` not empty).
pub fn replace(s: &str, from: &str, to: &str) -> (r: String)
    requires
        from@.len() > 0,
    ensures
        r@ == replace_seq(s@, from@, to@),
{
    let v = to_chars(s);
    let t = to_chars(from);
    let mut r = String::new();
    let mut start: usize = 0;
    loop
        invariant
            v@ == s@,
            t@ == from@,
            t.len() > 0,
            start <= v.len(),
            r@ + replace_from(s@, from@, to@, start as int) == replace_seq(s@, from@, to@),
        decreases v.len() - start,
    {
        let f = vec_find_from(&v, &t, start);
        proof {
            lemma_find_from(s@, from@, start as int);
        }
        match f {
            None => {
                let piece = string_from_chars(&v, start, v.len());
                r.append(piece.as_str());
                return r;
            },
            Some(i) => {
                let piece = string_from_chars(&v, start, i);
                let ghost old_r = r@;
                r.append(piece.as_str());
                r.append(to);
                assert(r@ + replace_from(s@, from@, to@, (i + t.len()) as int) =~= old_r
                    + replace_from(s@, from@, to@, start as int));
                start = i + t.len();
            },
        }
    }
}

} // verus!
