//! Character-level text helpers: ASCII case folding, decimal and
//! hexadecimal parsing, and substring search.

use vstd::prelude::*;

verus! {

/// The code point of a character with an upper-case ASCII letter folded
/// to its lower-case form.
pub open spec fn lower_code(c: char) -> u32 {
    if 65 <= c as u32 <= 90 {
        (c as u32 + 32) as u32
    } else {
        c as u32
    }
}

/// A character sequence with every upper-case ASCII letter folded to
/// lower case, as code points.
pub open spec fn lower_seq(s: Seq<char>) -> Seq<u32> {
    Seq::new(s.len(), |i: int| lower_code(s[i]))
}

/// Two character sequences are equal up to ASCII case.
pub open spec fn ci_eq_seq(a: Seq<char>, b: Seq<char>) -> bool {
    lower_seq(a) == lower_seq(b)
}

/// Sequences equal up to case have equal lengths.
pub proof fn lemma_ci_lengths()
    ensures
        forall|a: Seq<char>, b: Seq<char>| #[trigger] ci_eq_seq(a, b) ==> a.len() == b.len(),
{
    assert forall|a: Seq<char>, b: Seq<char>| #[trigger] ci_eq_seq(a, b) implies a.len()
        == b.len() by {
        assert(lower_seq(a).len() == a.len());
        assert(lower_seq(b).len() == b.len());
    }
}

/// Sequences whose first characters fold differently are not equal up
/// to case.
pub proof fn lemma_ci_distinct(a: Seq<char>, b: Seq<char>)
    requires
        a.len() >= 1,
        b.len() >= 1,
        lower_code(a[0]) != lower_code(b[0]),
    ensures
        !ci_eq_seq(a, b),
{
    assert(lower_seq(a)[0] == lower_code(a[0]));
    assert(lower_seq(b)[0] == lower_code(b[0]));
}

fn lower_of(c: char) -> (r: u32)
    ensures
        r == lower_code(c),
{
    let u = c as u32;
    if 65 <= u && u <= 90 {
        u + 32
    } else {
        u
    }
}

/// Whether two strings are equal up to ASCII case.
pub fn eq_ignore_case(a: &str, b: &str) -> (r: bool)
    ensures
        r == ci_eq_seq(a@, b@),
{
    let a_len = a.unicode_len();
    let b_len = b.unicode_len();
    if a_len != b_len {
        proof {
            assert(lower_seq(a@).len() == a@.len());
            assert(lower_seq(b@).len() == b@.len());
        }
        return false;
    }
    let mut i: usize = 0;
    while i < a_len
        invariant
            i <= a_len,
            a_len == a@.len(),
            b_len == b@.len(),
            a_len == b_len,
            forall|j: int| 0 <= j < i ==> lower_code(a@[j]) == lower_code(b@[j]),
        decreases a_len - i,
    {
        let ca = a.get_char(i);
        let cb = b.get_char(i);
        if lower_of(ca) != lower_of(cb) {
            proof {
                assert(lower_seq(a@)[i as int] == lower_code(a@[i as int]));
                assert(lower_seq(b@)[i as int] == lower_code(b@[i as int]));
            }
            return false;
        }
        i = i + 1;
    }
    proof {
        assert(lower_seq(a@) =~= lower_seq(b@));
    }
    true
}

/// Whether a character is an ASCII decimal digit.
pub open spec fn is_digit(c: char) -> bool {
    48 <= c as u32 <= 57
}

/// The numeric value of an ASCII decimal digit.
pub open spec fn digit_val(c: char) -> nat
    recommends
        is_digit(c),
{
    (c as u32 - 48) as nat
}

/// The number an all-digit character sequence spells in decimal.
pub open spec fn digits_value(s: Seq<char>) -> nat
    decreases s.len(),
{
    if s.len() == 0 {
        0
    } else {
        digits_value(s.drop_last()) * 10 + digit_val(s.last())
    }
}

/// Whether a character sequence is one or more ASCII decimal digits.
pub open spec fn all_digits(s: Seq<char>) -> bool {
    s.len() > 0 && (forall|i: int| 0 <= i < s.len() ==> is_digit(s[i]))
}

/// The value a decimal token parses to, saturated to 16 bits: `None`
/// unless the token is one or more decimal digits.
pub open spec fn spec_parse_u16(s: Seq<char>) -> Option<u16> {
    if all_digits(s) {
        if digits_value(s) > 65535 {
            Some(65535u16)
        } else {
            Some(digits_value(s) as u16)
        }
    } else {
        None
    }
}

proof fn lemma_digits_value_step(s: Seq<char>, i: int)
    requires
        0 <= i < s.len(),
    ensures
        digits_value(s.take(i + 1)) == digits_value(s.take(i)) * 10 + digit_val(s[i]),
{
    assert(s.take(i + 1).drop_last() =~= s.take(i));
    assert(s.take(i + 1).last() == s[i]);
}

/// Parse a decimal token, saturating values above `u16::MAX`.
pub fn parse_u16_saturating(s: &str) -> (r: Option<u16>)
    ensures
        r == spec_parse_u16(s@),
{
    let n = s.unicode_len();
    if n == 0 {
        return None;
    }
    let mut acc: u32 = 0;
    let mut i: usize = 0;
    while i < n
        invariant
            i <= n,
            n == s@.len(),
            n > 0,
            forall|j: int| 0 <= j < i ==> is_digit(s@[j]),
            digits_value(s@.take(i as int)) <= 65535 ==> acc == digits_value(s@.take(i as int)),
            digits_value(s@.take(i as int)) > 65535 ==> acc == 65536,
        decreases n - i,
    {
        let c = s.get_char(i);
        let u = c as u32;
        if u < 48 || u > 57 {
            return None;
        }
        proof {
            lemma_digits_value_step(s@, i as int);
        }
        if acc >= 65536 {
            acc = 65536;
        } else {
            acc = acc * 10 + (u - 48);
            if acc > 65535 {
                acc = 65536;
            }
        }
        i = i + 1;
    }
    proof {
        assert(s@.take(n as int) =~= s@);
    }
    if acc > 65535 {
        Some(65535)
    } else {
        Some(acc as u16)
    }
}

/// The numeric value of an ASCII hexadecimal digit, if it is one.
pub open spec fn hex_digit_val(c: char) -> Option<u32> {
    let u = c as u32;
    if 48 <= u <= 57 {
        Some((u - 48) as u32)
    } else if 97 <= u <= 102 {
        Some((u - 87) as u32)
    } else if 65 <= u <= 70 {
        Some((u - 55) as u32)
    } else {
        None
    }
}

/// Whether a character sequence is made of hexadecimal digits only.
pub open spec fn all_hex_digits(s: Seq<char>) -> bool {
    forall|i: int| 0 <= i < s.len() ==> hex_digit_val(s[i]) is Some
}

/// The number an all-hex character sequence spells.
pub open spec fn hex_value(s: Seq<char>) -> nat
    decreases s.len(),
{
    if s.len() == 0 {
        0
    } else {
        hex_value(s.drop_last()) * 16 + (if hex_digit_val(s.last()) is Some {
            hex_digit_val(s.last()).unwrap() as nat
        } else {
            0
        })
    }
}

/// A hex sequence of at most six digits spells a 24-bit value.
pub proof fn lemma_hex_value_bound(s: Seq<char>)
    requires
        s.len() <= 6,
        all_hex_digits(s),
    ensures
        hex_value(s) <= 0xffffff,
{
    lemma_hex_value_small(s);
    lemma_pow16_mono(s.len() as int, 6);
    reveal_with_fuel(pow16, 7);
    assert(pow16(6) == 0x1000000);
}

/// Sixteen to the given power.
pub open spec fn pow16(n: int) -> nat
    decreases n,
{
    if n <= 0 {
        1
    } else {
        16 * pow16(n - 1)
    }
}

proof fn lemma_hex_value_small(s: Seq<char>)
    requires
        all_hex_digits(s),
    ensures
        hex_value(s) < pow16(s.len() as int),
    decreases s.len(),
{
    if s.len() > 0 {
        assert(all_hex_digits(s.drop_last()));
        lemma_hex_value_small(s.drop_last());
        assert(hex_digit_val(s.last()).unwrap() < 16);
    }
}

/// The character sequence of a hex-colour token with any `0x`/`0X`
/// prefix removed.
pub open spec fn strip_hex_prefix(s: Seq<char>) -> Seq<char> {
    if s.len() >= 2 && s[0] == '0' && (s[1] == 'x' || s[1] == 'X') {
        s.skip(2)
    } else {
        s
    }
}

/// The colour a literal hex token spells: one to six hex digits, with an
/// optional `0x` prefix.
pub open spec fn spec_parse_hex_colour(s: Seq<char>) -> Option<u32> {
    let body = strip_hex_prefix(s);
    if 1 <= body.len() <= 6 && all_hex_digits(body) {
        Some(hex_value(body) as u32)
    } else {
        None
    }
}

/// A parsed hex-colour token is always a 24-bit value.
pub proof fn lemma_hex_bound_of_parse(s: Seq<char>)
    ensures
        spec_parse_hex_colour(s) matches Some(c) ==> c <= 0xffffff,
{
    let body = strip_hex_prefix(s);
    if 1 <= body.len() <= 6 && all_hex_digits(body) {
        lemma_hex_value_bound(body);
    }
}

fn hex_digit_of(c: char) -> (r: Option<u32>)
    ensures
        r == hex_digit_val(c),
{
    let u = c as u32;
    if 48 <= u && u <= 57 {
        Some(u - 48)
    } else if 97 <= u && u <= 102 {
        Some(u - 87)
    } else if 65 <= u && u <= 70 {
        Some(u - 55)
    } else {
        None
    }
}

proof fn lemma_hex_value_step(s: Seq<char>, i: int)
    requires
        0 <= i < s.len(),
        hex_digit_val(s[i]) is Some,
    ensures
        hex_value(s.take(i + 1)) == hex_value(s.take(i)) * 16 + hex_digit_val(s[i]).unwrap(),
{
    assert(s.take(i + 1).drop_last() =~= s.take(i));
    assert(s.take(i + 1).last() == s[i]);
}

/// Parse a literal hex-colour token.
pub fn parse_hex_colour(s: &str) -> (r: Option<u32>)
    ensures
        r == spec_parse_hex_colour(s@),
        r matches Some(c) ==> c <= 0xffffff,
{
    let n = s.unicode_len();
    let start: usize = if n >= 2 && s.get_char(0) == '0' && (s.get_char(1) == 'x' || s.get_char(1)
        == 'X') {
        2
    } else {
        0
    };
    proof {
        if start == 0 {
            assert(s@.skip(0) =~= s@);
        }
        assert(s@.skip(start as int) == strip_hex_prefix(s@));
    }
    let body_len = n - start;
    if body_len < 1 || body_len > 6 {
        return None;
    }
    let ghost body = strip_hex_prefix(s@);
    let mut acc: u32 = 0;
    let mut i: usize = 0;
    while i < body_len
        invariant
            i <= body_len,
            body_len == body.len(),
            body_len <= 6,
            n == s@.len(),
            start + body_len == n,
            body == s@.skip(start as int),
            body == strip_hex_prefix(s@),
            forall|j: int| 0 <= j < i ==> hex_digit_val(body[j]) is Some,
            acc == hex_value(body.take(i as int)),
            acc < 0x1000000,
        decreases body_len - i,
    {
        let c = s.get_char(start + i);
        assert(body[i as int] == s@[start + i]);
        match hex_digit_of(c) {
            None => {
                assert(!all_hex_digits(body));
                return None;
            },
            Some(d) => {
                proof {
                    lemma_hex_value_step(body, i as int);
                    assert(all_hex_digits(body.take(i as int)));
                    lemma_hex_value_small(body.take(i as int));
                    lemma_pow16_mono(i as int, 5);
                    reveal_with_fuel(pow16, 7);
                    assert(pow16(5) == 0x100000);
                }
                assert(acc < 0x100000);
                acc = acc * 16 + d;
            },
        }
        i = i + 1;
    }
    proof {
        assert(body.take(body_len as int) =~= body);
        assert(all_hex_digits(body));
    }
    Some(acc)
}

proof fn lemma_pow16_mono(a: int, b: int)
    requires
        a <= b,
    ensures
        pow16(a) <= pow16(b),
    decreases b - a,
{
    if a < b {
        lemma_pow16_mono(a, b - 1);
    }
}

/// Whether `needle` occurs in `hay` as a contiguous run of characters.
pub open spec fn spec_contains_seq(hay: Seq<char>, needle: Seq<char>) -> bool {
    exists|k: int|
        0 <= k && k + needle.len() <= hay.len() && #[trigger] hay.subrange(
            k,
            k + needle.len() as int,
        ) == needle
}

fn matches_at(hay: &str, needle: &str, k: usize) -> (r: bool)
    requires
        k + needle@.len() <= hay@.len(),
    ensures
        r == (hay@.subrange(k as int, k + needle@.len() as int) == needle@),
{
    let n = needle.unicode_len();
    let hay_n = hay.unicode_len();
    let mut i: usize = 0;
    while i < n
        invariant
            i <= n,
            n == needle@.len(),
            hay_n == hay@.len(),
            k + n <= hay_n,
            forall|j: int| 0 <= j < i ==> hay@[k + j] == needle@[j],
        decreases n - i,
    {
        if hay.get_char(k + i) != needle.get_char(i) {
            assert(hay@.subrange(k as int, k + needle@.len() as int)[i as int] != needle@[i as int]);
            return false;
        }
        i = i + 1;
    }
    assert(hay@.subrange(k as int, k + needle@.len() as int) =~= needle@);
    true
}

/// Whether one string contains another, case-sensitively.
pub fn str_contains(hay: &str, needle: &str) -> (r: bool)
    ensures
        r == spec_contains_seq(hay@, needle@),
{
    let hay_len = hay.unicode_len();
    let needle_len = needle.unicode_len();
    if needle_len > hay_len {
        return false;
    }
    if needle_len == 0 {
        assert(spec_contains_seq(hay@, needle@)) by {
            assert(hay@.subrange(0, 0 + needle@.len() as int) =~= needle@);
        }
        return true;
    }
    let last = hay_len - needle_len;
    let mut k: usize = 0;
    while k <= last
        invariant
            1 <= needle_len <= hay_len,
            hay_len == hay@.len(),
            needle_len == needle@.len(),
            last == hay_len - needle_len,
            k <= last + 1,
            forall|j: int|
                0 <= j < k ==> #[trigger] hay@.subrange(j, j + needle@.len() as int) != needle@,
        decreases last + 1 - k,
    {
        if matches_at(hay, needle, k) {
            return true;
        }
        k = k + 1;
    }
    false
}

} // verus!
