//! Decimal numbers and ASCII letters as text: the material of query strings,
//! URL paths and header values.

use vstd::prelude::*;
use vstd::std_specs::iter::IteratorSpec;

verus! {

/// Appends one character to `s`.
///
/// Trusted: calls `String::push`, which is documented to append the given
/// `char` to the end of the string.
#[verifier::external_body]
pub(crate) fn push_char(s: &mut String, c: char)
    ensures
        final(s)@ == old(s)@.push(c),
{
    s.push(c)
}

/// The character that stands for the decimal digit `d`.
pub open spec fn digit_char(d: int) -> char {
    ((48 + d) as u8) as char
}

/// The decimal digits of `n`, most significant first, without leading zeros.
pub open spec fn decimal_nat(n: nat) -> Seq<char>
    decreases n,
{
    if n < 10 {
        seq![digit_char(n as int)]
    } else {
        decimal_nat(n / 10).push(digit_char((n % 10) as int))
    }
}

/// The decimal text of an integer: a minus sign for negative numbers, then the
/// digits of its magnitude.
pub open spec fn decimal(n: int) -> Seq<char> {
    if n < 0 {
        seq!['-'] + decimal_nat((-n) as nat)
    } else {
        decimal_nat(n as nat)
    }
}

/// Appends the decimal digits of `n` to `out`.
pub fn push_decimal(out: &mut String, n: u64)
    ensures
        final(out)@ == old(out)@ + decimal_nat(n as nat),
    decreases n,
{
    if n >= 10 {
        push_decimal(out, n / 10);
    }
    let d: u8 = (n % 10) as u8;
    push_char(out, (48u8 + d) as char);
    assert(out@ == old(out)@ + decimal_nat(n as nat));
}

/// The decimal text of an unsigned integer.
pub fn u64_text(n: u64) -> (r: String)
    ensures
        r@ == decimal(n as int),
{
    let mut out = String::new();
    push_decimal(&mut out, n);
    assert(out@ == decimal_nat(n as nat));
    out
}

/// The decimal text of a signed integer.
pub fn i64_text(n: i64) -> (r: String)
    ensures
        r@ == decimal(n as int),
{
    let mut out = String::new();
    if n < 0 {
        push_char(&mut out, '-');
        let magnitude: u64 = (0 - (n as i128)) as u64;
        push_decimal(&mut out, magnitude);
        assert(out@ == seq!['-'] + decimal_nat((-n) as nat));
    } else {
        push_decimal(&mut out, n as u64);
        assert(out@ == decimal_nat(n as nat));
    }
    out
}

/// The text of a boolean as it is written in a query string.
pub open spec fn bool_text_spec(b: bool) -> Seq<char> {
    if b {
        "true"@
    } else {
        "false"@
    }
}

/// The text of a boolean as it is written in a query string.
pub fn bool_text(b: bool) -> (r: String)
    ensures
        r@ == bool_text_spec(b),
{
    if b {
        "true".to_owned()
    } else {
        "false".to_owned()
    }
}

/// Whether `c` is one of the ten ASCII digits.
pub open spec fn is_digit(c: char) -> bool {
    '0' <= c <= '9'
}

/// Whether `s` consists of ASCII digits only.
pub open spec fn all_digits(s: Seq<char>) -> bool {
    forall|i: int| 0 <= i < s.len() ==> is_digit(#[trigger] s[i])
}

/// The number that a sequence of ASCII digits denotes in base ten.
pub open spec fn digits_value(s: Seq<char>) -> nat
    decreases s.len(),
{
    if s.len() == 0 {
        0
    } else {
        (digits_value(s.drop_last()) * 10 + (s.last() as int - '0' as int)) as nat
    }
}

/// How many characters of `s` are taken by a leading sign: a `+`, or a `-`
/// where negative numbers are allowed.
pub open spec fn sign_len(s: Seq<char>, signed: bool) -> int {
    if s.len() > 0 && (s[0] == '+' || (signed && s[0] == '-')) {
        1
    } else {
        0
    }
}

/// The magnitude of the number written in `s`: an optional sign followed by
/// at least one digit and nothing else.
pub open spec fn magnitude(s: Seq<char>, signed: bool) -> Option<nat> {
    let digits = s.skip(sign_len(s, signed));
    if digits.len() > 0 && all_digits(digits) {
        Some(digits_value(digits))
    } else {
        None
    }
}

/// The unsigned number written in `s`, if `s` is an optional `+` followed by
/// digits whose value fits in 64 bits.
pub open spec fn parsed_u64(s: Seq<char>) -> Option<u64> {
    match magnitude(s, false) {
        Some(m) if m <= u64::MAX => Some(m as u64),
        _ => None,
    }
}

/// The signed number written in `s`, if `s` is an optional `+` or `-`
/// followed by digits whose signed value fits in 64 bits.
pub open spec fn parsed_i64(s: Seq<char>) -> Option<i64> {
    match magnitude(s, true) {
        Some(m) => {
            if s[0] == '-' {
                if m <= 0x8000_0000_0000_0000 {
                    Some((-(m as int)) as i64)
                } else {
                    None
                }
            } else if m <= i64::MAX {
                Some(m as i64)
            } else {
                None
            }
        },
        None => None,
    }
}

/// A longer run of digits never denotes a smaller number than its prefix.
pub proof fn lemma_digits_value_prefix(s: Seq<char>, k: int)
    requires
        0 <= k <= s.len(),
        all_digits(s),
    ensures
        digits_value(s.take(k)) <= digits_value(s),
    decreases s.len(),
{
    if k == s.len() {
        assert(s.take(k) == s);
    } else {
        let init = s.drop_last();
        assert(init.take(k) == s.take(k));
        assert(all_digits(init)) by {
            assert forall|i: int| 0 <= i < init.len() implies is_digit(#[trigger] init[i]) by {
                assert(init[i] == s[i]);
            }
        }
        lemma_digits_value_prefix(init, k);
        assert(is_digit(s.last()));
    }
}

/// Reads the sign and the magnitude of the number written in `s`. The flag
/// tells whether `s` starts with a minus sign.
fn parse_magnitude(s: &str, signed: bool) -> (r: Option<(bool, u64)>)
    ensures
        match r {
            Some((negative, m)) => magnitude(s@, signed) == Some(m as nat) && negative == (signed
                && s@[0] == '-'),
            None => magnitude(s@, signed) matches Some(m) ==> m > u64::MAX,
        },
{
    let mut first = true;
    let mut negative = false;
    let mut any = false;
    let mut acc: u64 = 0;
    let ghost start = sign_len(s@, signed);
    let ghost digits = s@.skip(start);
    for c in it: s.chars()
        invariant
            it.seq() == s@,
            start == sign_len(s@, signed),
            digits == s@.skip(start),
            first == (it.index() == 0),
            it.index() == 0 ==> !negative && !any && acc == 0,
            it.index() > 0 ==> {
                &&& start <= it.index()
                &&& negative == (signed && s@[0] == '-')
                &&& any == (it.index() > start)
                &&& all_digits(s@.subrange(start, it.index() as int))
                &&& acc == digits_value(s@.subrange(start, it.index() as int))
            },
    {
        let ghost i = it.index() as int;
        if first && (c == '+' || (signed && c == '-')) {
            negative = c == '-';
            first = false;
            assert(s@.subrange(1, 1) == Seq::<char>::empty());
        } else if '0' <= c && c <= '9' {
            first = false;
            let d: u64 = (c as u32 - '0' as u32) as u64;
            let ghost seen = s@.subrange(start, i + 1);
            proof {
                assert(seen.drop_last() == s@.subrange(start, i));
                assert(seen.last() == c);
                assert(digits_value(s@.subrange(start, i)) == acc) by {
                    if i == 0 {
                        assert(s@.subrange(0, 0) == Seq::<char>::empty());
                    }
                }
                assert(all_digits(seen)) by {
                    assert forall|k: int| 0 <= k < seen.len() implies is_digit(
                        #[trigger] seen[k],
                    ) by {
                        if k < i - start {
                            assert(s@.subrange(start, i)[k] == seen[k]);
                        }
                    }
                }
                assert(digits.take(i + 1 - start) == seen);
            }
            if acc > (u64::MAX - d) / 10 {
                proof {
                    if digits.len() > 0 && all_digits(digits) {
                        lemma_digits_value_prefix(digits, i + 1 - start);
                    }
                }
                return None;
            }
            acc = acc * 10 + d;
            any = true;
        } else {
            assert(digits[i - start] == c);
            return None;
        }
    }
    assert(s@.subrange(start, s@.len() as int) == digits);
    if any {
        Some((negative, acc))
    } else {
        None
    }
}

/// Reads an unsigned decimal number, as `str::parse::<u64>` does: an optional
/// `+`, then digits only, and a value that fits.
pub fn parse_u64(s: &str) -> (r: Option<u64>)
    ensures
        r == parsed_u64(s@),
{
    match parse_magnitude(s, false) {
        Some((_, m)) => Some(m),
        None => None,
    }
}

/// Reads a signed decimal number, as `str::parse::<i64>` does: an optional
/// `+` or `-`, then digits only, and a value that fits.
pub fn parse_i64(s: &str) -> (r: Option<i64>)
    ensures
        r == parsed_i64(s@),
{
    match parse_magnitude(s, true) {
        Some((negative, m)) => {
            if negative {
                if m <= 0x8000_0000_0000_0000 {
                    Some((0 - (m as i128)) as i64)
                } else {
                    None
                }
            } else if m <= 0x7fff_ffff_ffff_ffff {
                Some(m as i64)
            } else {
                None
            }
        },
        None => None,
    }
}

/// The lower-case form of an ASCII capital letter; any other character is
/// left as it is.
pub open spec fn ascii_lower(c: char) -> char {
    if 'A' <= c <= 'Z' {
        ((c as u8 + 32) as u8) as char
    } else {
        c
    }
}

/// `s` with its ASCII capital letters in lower case.
pub open spec fn ascii_lowered(s: Seq<char>) -> Seq<char> {
    Seq::new(s.len(), |i: int| ascii_lower(s[i]))
}

/// The lower-case form of an ASCII capital letter.
pub fn to_ascii_lower(c: char) -> (r: char)
    ensures
        r == ascii_lower(c),
{
    if 'A' <= c && c <= 'Z' {
        (c as u8 + 32) as char
    } else {
        c
    }
}

/// Whether two strings are equal once ASCII capitals are put in lower case.
pub fn eq_ignore_ascii_case(a: &str, b: &str) -> (r: bool)
    ensures
        r == (ascii_lowered(a@) == ascii_lowered(b@)),
{
    let mut rest = b.chars();
    for c in it: a.chars()
        invariant
            it.seq() == a@,
            it.index() <= b@.len(),
            rest.remaining() == b@.skip(it.index() as int),
            forall|k: int| 0 <= k < it.index() ==> ascii_lower(a@[k]) == ascii_lower(b@[k]),
    {
        let ghost i = it.index() as int;
        match rest.next() {
            Some(d) => {
                assert(d == b@[i]);
                assert(b@.skip(i).drop_first() == b@.skip(i + 1));
                if to_ascii_lower(c) != to_ascii_lower(d) {
                    assert(ascii_lowered(a@)[i] != ascii_lowered(b@)[i]);
                    return false;
                }
            },
            None => {
                assert(ascii_lowered(a@).len() != ascii_lowered(b@).len());
                return false;
            },
        }
    }
    let at_end = rest.next().is_none();
    proof {
        if at_end {
            assert(ascii_lowered(a@) =~= ascii_lowered(b@));
        } else {
            assert(ascii_lowered(a@).len() != ascii_lowered(b@).len());
        }
    }
    at_end
}

/// Whether `a` comes before `b` in the order of strings and `i` is where
/// that shows: the two agree on their first `i` characters, and there `a`
/// ends while `b` goes on, or `a` goes on with the smaller character.
pub open spec fn before_at(a: Seq<char>, b: Seq<char>, i: int) -> bool {
    &&& 0 <= i <= a.len()
    &&& i <= b.len()
    &&& forall|k: int| 0 <= k < i ==> a[k] == b[k]
    &&& i < b.len()
    &&& i < a.len() ==> a[i] < b[i]
}

/// Whether `a` comes before `b` in the order of strings: character by
/// character, a character with the smaller code point first, and a text
/// before every text that it begins.
pub open spec fn text_before(a: Seq<char>, b: Seq<char>) -> bool {
    exists|i: int| before_at(a, b, i)
}

/// Whether the texts of a list come in ascending order, each before all
/// that follow it.
pub open spec fn ascending(texts: Seq<Seq<char>>) -> bool {
    forall|i: int, j: int| 0 <= i < j < texts.len() ==> text_before(texts[i], texts[j])
}

/// Of two texts, at most one comes before the other, and none before itself.
pub proof fn lemma_text_before_asymmetric(a: Seq<char>, b: Seq<char>)
    requires
        text_before(a, b),
    ensures
        !text_before(b, a),
        a != b,
{
    let i = choose|i: int| before_at(a, b, i);
    if text_before(b, a) {
        let j = choose|j: int| before_at(b, a, j);
        if i < j {
            assert(b[i] == a[i]);
        } else if j < i {
            assert(a[j] == b[j]);
        }
    }
    if a == b {
        assert(before_at(a, a, i));
    }
}

/// A set of texts has one ascending list: two ascending lists of the same
/// texts are the same list.
pub proof fn lemma_ascending_unique(s: Seq<Seq<char>>, t: Seq<Seq<char>>)
    requires
        ascending(s),
        ascending(t),
        forall|k: Seq<char>| s.contains(k) <==> t.contains(k),
    ensures
        s == t,
    decreases s.len(),
{
    if s.len() == 0 {
        if t.len() > 0 {
            assert(t.contains(t[0]));
        }
        assert(s =~= t);
    } else {
        assert(s.contains(s[0]));
        assert(t.contains(s[0]));
        let j = choose|j: int| 0 <= j < t.len() && t[j] == s[0];
        assert(t.contains(t[0]));
        let i = choose|i: int| 0 <= i < s.len() && s[i] == t[0];
        if j > 0 {
            assert(text_before(t[0], t[j]));
            lemma_text_before_asymmetric(t[0], s[0]);
            if i > 0 {
                assert(text_before(s[0], s[i]));
            }
        }
        assert(s[0] == t[0]);
        let s1 = s.drop_first();
        let t1 = t.drop_first();
        assert(ascending(s1)) by {
            assert forall|a: int, b: int| 0 <= a < b < s1.len() implies text_before(
                s1[a],
                s1[b],
            ) by {
                assert(text_before(s[a + 1], s[b + 1]));
            }
        }
        assert(ascending(t1)) by {
            assert forall|a: int, b: int| 0 <= a < b < t1.len() implies text_before(
                t1[a],
                t1[b],
            ) by {
                assert(text_before(t[a + 1], t[b + 1]));
            }
        }
        assert forall|k: Seq<char>| s1.contains(k) <==> t1.contains(k) by {
            if s1.contains(k) {
                let m = choose|m: int| 0 <= m < s1.len() && s1[m] == k;
                assert(s[m + 1] == k);
                assert(s.contains(k));
                let n = choose|n: int| 0 <= n < t.len() && t[n] == k;
                if n == 0 {
                    assert(text_before(s[0], s[m + 1]));
                    lemma_text_before_asymmetric(s[0], k);
                }
                assert(t1[n - 1] == k);
            }
            if t1.contains(k) {
                let m = choose|m: int| 0 <= m < t1.len() && t1[m] == k;
                assert(t[m + 1] == k);
                assert(t.contains(k));
                let n = choose|n: int| 0 <= n < s.len() && s[n] == k;
                if n == 0 {
                    assert(text_before(t[0], t[m + 1]));
                    lemma_text_before_asymmetric(t[0], k);
                }
                assert(s1[n - 1] == k);
            }
        }
        lemma_ascending_unique(s1, t1);
        assert(s =~= seq![s[0]] + s1);
        assert(t =~= seq![t[0]] + t1);
    }
}

} // verus!
