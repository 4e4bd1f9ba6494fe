//! Decimal text of integers: printing, zero padding and parsing.

use vstd::prelude::*;
use crate::text::push_char;

verus! {

pub open spec fn digit_char(d: int) -> char {
    ((48 + d) as u8) as char
}

/// The decimal digits of `n`, as `Display` prints them.
pub open spec fn nat_digits(n: nat) -> Seq<char>
    decreases n,
{
    if n < 10 {
        seq![digit_char(n as int)]
    } else {
        nat_digits(n / 10).push(digit_char((n % 10) as int))
    }
}

/// The decimal text of an integer, with a leading `-` when negative.
pub open spec fn int_text(n: int) -> Seq<char> {
    if n < 0 {
        seq!['-'] + nat_digits((-n) as nat)
    } else {
        nat_digits(n as nat)
    }
}

/// `text` left-padded with `0` to `width` characters, as `{:0width$}` does
/// for a non-negative number.
pub open spec fn zero_pad(text: Seq<char>, width: nat) -> Seq<char> {
    if text.len() >= width {
        text
    } else {
        Seq::new((width - text.len()) as nat, |i: int| '0') + text
    }
}

fn digit(d: u64) -> (c: char)
    requires
        d < 10,
    ensures
        c == digit_char(d as int),
{
    ((48 + d) as u8) as char
}

/// Appends the decimal digits of `n` to `s`.
fn push_digits(s: &mut String, n: u64)
    ensures
        final(s)@ == old(s)@ + nat_digits(n as nat),
    decreases n,
{
    if n < 10 {
        push_char(s, digit(n));
        assert(old(s)@.push(digit_char(n as int)) =~= old(s)@ + nat_digits(n as nat));
    } else {
        push_digits(s, n / 10);
        push_char(s, digit(n % 10));
        assert(old(s)@ + nat_digits((n / 10) as nat) + seq![digit_char((n % 10) as int)]
            =~= old(s)@ + nat_digits(n as nat));
    }
}

pub fn u64_to_string(n: u64) -> (r: String)
    ensures
        r@ == nat_digits(n as nat),
{
    let mut s = String::new();
    push_digits(&mut s, n);
    s
}

pub fn i64_to_string(n: i64) -> (r: String)
    ensures
        r@ == int_text(n as int),
{
    let mut s = String::new();
    if n < 0 {
        push_char(&mut s, '-');
        let m: u64 = (-(n as i128)) as u64;
        push_digits(&mut s, m);
    } else {
        push_digits(&mut s, n as u64);
        assert(s@ =~= int_text(n as int));
    }
    s
}

pub fn i32_to_string(n: i32) -> (r: String)
    ensures
        r@ == int_text(n as int),
{
    i64_to_string(n as i64)
}

/// `{:0width$}` applied to `n`.
pub fn u64_zero_padded(n: u64, width: usize) -> (r: String)
    ensures
        r@ == zero_pad(nat_digits(n as nat), width as nat),
{
    let digits = u64_to_string(n);
    let len = digits.unicode_len();
    if len >= width {
        return digits;
    }
    let mut s = String::new();
    let mut i: usize = 0;
    while i < width - len
        invariant
            len < width,
            i <= width - len,
            s@ == Seq::new(i as nat, |j: int| '0'),
        decreases width - len - i,
    {
        push_char(&mut s, '0');
        assert(s@ =~= Seq::new((i + 1) as nat, |j: int| '0'));
        i += 1;
    }
    s.append(digits.as_str());
    s
}

pub open spec fn is_ascii_digit(c: char) -> bool {
    '0' <= c && c <= '9'
}

/// The value of a string of ASCII digits.
pub open spec fn digits_value(s: Seq<char>) -> nat
    decreases s.len(),
{
    if s.len() == 0 {
        0
    } else {
        digits_value(s.drop_last()) * 10 + ((s.last() as int) - 48) as nat
    }
}

/// What `str::parse::<u64>` accepts: an optional `+`, then one or more
/// ASCII digits whose value fits in 64 bits.
pub open spec fn all_ascii_digits(s: Seq<char>) -> bool {
    forall|i: int| 0 <= i < s.len() ==> is_ascii_digit(#[trigger] s[i])
}

/// The part of a number's text after an optional leading `+`.
pub open spec fn unsigned_body(s: Seq<char>) -> Seq<char> {
    if s.len() > 0 && s[0] == '+' {
        s.drop_first()
    } else {
        s
    }
}

pub open spec fn parse_u64_spec(s: Seq<char>) -> Option<u64> {
    let body = unsigned_body(s);
    if body.len() > 0 && all_ascii_digits(body) && digits_value(body) <= u64::MAX {
        Some(digits_value(body) as u64)
    } else {
        None
    }
}

proof fn lemma_digits_value_grows(s: Seq<char>, k: int)
    requires
        0 <= k <= s.len(),
        all_ascii_digits(s),
    ensures
        digits_value(s.take(k)) <= digits_value(s),
    decreases s.len() - k,
{
    if k < s.len() {
        lemma_digits_value_grows(s, k + 1);
        assert(s.take(k + 1).drop_last() =~= s.take(k));
    } else {
        assert(s.take(k) =~= s);
    }
}

/// `str::parse::<u64>`.
pub fn parse_u64(s: &str) -> (r: Option<u64>)
    ensures
        r == parse_u64_spec(s@),
{
    let v = crate::text::to_chars(s);
    let start: usize = if v.len() > 0 && v[0] == '+' {
        1
    } else {
        0
    };
    let ghost body = unsigned_body(s@);
    assert(body =~= v@.skip(start as int));
    if start >= v.len() {
        return None;
    }
    let mut acc: u64 = 0;
    let mut i = start;
    while i < v.len()
        invariant
            v@ == s@,
            start <= i <= v.len(),
            body == v@.skip(start as int),
            body == unsigned_body(s@),
            body.len() > 0,
            forall|j: int| 0 <= j < i - start ==> is_ascii_digit(#[trigger] body[j]),
            acc as nat == digits_value(body.take(i - start)),
        decreases v.len() - i,
    {
        let c = v[i];
        if !('0' <= c && c <= '9') {
            assert(!is_ascii_digit(body[i - start]));
            assert(!(all_ascii_digits(body)));
            return None;
        }
        assert(body.take(i - start + 1).drop_last() =~= body.take(i - start));
        let d = (c as u32 - 48) as u64;
        let ghost next = digits_value(body.take(i - start + 1));
        assert(next == acc * 10 + d);
        match acc.checked_mul(10) {
            None => {
                proof {
                    assert(forall|j: int| 0 <= j < i - start + 1 ==> is_ascii_digit(
                        #[trigger] body.take(i - start + 1)[j],
                    ));
                    if all_ascii_digits(body) {
                        lemma_digits_value_grows(body, i - start + 1);
                        assert(digits_value(body) > u64::MAX);
                    }
                }
                return None;
            },
            Some(m) => match m.checked_add(d) {
                None => {
                    proof {
                        if all_ascii_digits(body) {
                            lemma_digits_value_grows(body, i - start + 1);
                            assert(digits_value(body) > u64::MAX);
                        }
                    }
                    return None;
                },
                Some(a) => {
                    acc = a;
                },
            },
        }
        i += 1;
    }
    assert(body.take(body.len() as int) =~= body);
    Some(acc)
}

/// What `str::parse::<i32>` accepts: an optional sign, then one or more
/// ASCII digits whose signed value fits in 32 bits.
pub open spec fn parse_i32_spec(s: Seq<char>) -> Option<i32> {
    let neg = s.len() > 0 && s[0] == '-';
    let body = if s.len() > 0 && (s[0] == '-' || s[0] == '+') {
        s.drop_first()
    } else {
        s
    };
    if body.len() > 0 && all_ascii_digits(body) && (if neg {
        digits_value(body) <= 0x8000_0000
    } else {
        digits_value(body) <= 0x7fff_ffff
    }) {
        Some((if neg { -(digits_value(body) as int) } else { digits_value(body) as int }) as i32)
    } else {
        None
    }
}

/// `str::parse::<i32>`.
pub fn parse_i32(s: &str) -> (r: Option<i32>)
    ensures
        r == parse_i32_spec(s@),
{
    let v = crate::text::to_chars(s);
    let neg = v.len() > 0 && v[0] == '-';
    let start: usize = if v.len() > 0 && (v[0] == '-' || v[0] == '+') {
        1
    } else {
        0
    };
    let body = crate::text::string_from_chars(&v, start, v.len());
    let ghost b = body@;
    assert(b =~= (if s@.len() > 0 && (s@[0] == '-' || s@[0] == '+') {
        s@.drop_first()
    } else {
        s@
    }));
    if start >= v.len() || !('0' <= v[start] && v[start] <= '9') {
        assert(b.len() == 0 || !is_ascii_digit(b[0]));
        return None;
    }
    assert(b[0] == v@[start as int]);
    assert(unsigned_body(b) =~= b);
    match parse_u64(body.as_str()) {
        None => None,
        Some(n) => {
            if neg {
                if n <= 0x8000_0000 {
                    Some((-(n as i64)) as i32)
                } else {
                    None
                }
            } else {
                if n <= 0x7fff_ffff {
                    Some(n as i32)
                } else {
                    None
                }
            }
        },
    }
}

} // verus!
