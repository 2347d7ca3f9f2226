//! Text primitives shared by the request-handling logic: string equality,
//! prefix stripping, trimming, hexadecimal and decimal rendering, and
//! integer parsing, each stated over the `Seq<char>` view of the text.

use vstd::prelude::*;
use vstd::string::*;

verus! {

broadcast use vstd::string::group_string_axioms;

/// The characters that `char::is_whitespace` accepts: the Unicode
/// `White_Space` property.
pub open spec fn is_ws(c: char) -> bool {
    let u = c as u32;
    ||| 0x09 <= u <= 0x0D
    ||| u == 0x20
    ||| u == 0x85
    ||| u == 0xA0
    ||| u == 0x1680
    ||| 0x2000 <= u <= 0x200A
    ||| u == 0x2028
    ||| u == 0x2029
    ||| u == 0x202F
    ||| u == 0x205F
    ||| u == 0x3000
}

/// Which characters a trim removes.
#[derive(Clone, Copy, Debug, PartialEq, Eq, Structural)]
pub enum TrimClass {
    /// Unicode white space, as `str::trim` removes.
    Whitespace,
    /// One given character, as `str::trim_matches(c)` removes.
    Exactly(char),
}

pub open spec fn in_class(cls: TrimClass, c: char) -> bool {
    match cls {
        TrimClass::Whitespace => is_ws(c),
        TrimClass::Exactly(d) => c == d,
    }
}

/// Every character of `s` belongs to `cls`.
pub open spec fn all_in_class(cls: TrimClass, s: Seq<char>) -> bool {
    forall|k: int| 0 <= k < s.len() ==> in_class(cls, #[trigger] s[k])
}

/// `r` is what remains of `s` once the characters of `cls` are removed
/// from both ends.
pub open spec fn is_trim_of(cls: TrimClass, s: Seq<char>, r: Seq<char>) -> bool {
    &&& exists|i: int|
        0 <= i && i + r.len() <= s.len() && r == s.subrange(i, i + r.len()) && all_in_class(
            cls,
            #[trigger] s.take(i),
        ) && all_in_class(cls, s.skip(i + r.len()))
    &&& r.len() > 0 ==> !in_class(cls, r[0]) && !in_class(cls, r.last())
}

/// `s` holds only white space (so `s.trim()` is empty).
pub open spec fn is_blank_text(s: Seq<char>) -> bool {
    all_in_class(TrimClass::Whitespace, s)
}

pub fn is_whitespace_char(c: char) -> (r: bool)
    ensures
        r == is_ws(c),
{
    let u = c as u32;
    (0x09 <= u && u <= 0x0D) || u == 0x20 || u == 0x85 || u == 0xA0 || u == 0x1680 || (0x2000
        <= u && u <= 0x200A) || u == 0x2028 || u == 0x2029 || u == 0x202F || u == 0x205F || u
        == 0x3000
}

fn in_class_exec(cls: TrimClass, c: char) -> (r: bool)
    ensures
        r == in_class(cls, c),
{
    match cls {
        TrimClass::Whitespace => is_whitespace_char(c),
        TrimClass::Exactly(d) => c == d,
    }
}

/// The characters of `s`, in order.
pub fn chars_of(s: &str) -> (v: Vec<char>)
    ensures
        v@ == s@,
{
    let mut v: Vec<char> = Vec::new();
    for c in it: s.chars()
        invariant
            v@ == it.seq().take(it.index() as int),
    {
        v.push(c);
    }
    v
}

/// Whether two strings hold the same characters.
pub fn str_equal(a: &str, b: &str) -> (r: bool)
    ensures
        r == (a@ == b@),
{
    a.to_owned() == b.to_owned()
}

/// A copy of `s` as an owned `String`.
pub fn owned(s: &str) -> (r: String)
    ensures
        r@ == s@,
{
    s.to_owned()
}

/// `s` begins with `p`.
pub open spec fn has_prefix(s: Seq<char>, p: Seq<char>) -> bool {
    p.len() <= s.len() && s.take(p.len() as int) == p
}

/// `str::strip_prefix` on a string prefix: the rest of `s` after `p`, when
/// `s` begins with `p`.
pub fn strip_prefix<'a>(s: &'a str, p: &str) -> (r: Option<&'a str>)
    ensures
        r is Some <==> has_prefix(s@, p@),
        r matches Some(t) ==> t@ == s@.skip(p@.len() as int),
{
    let n = s.unicode_len();
    let m = p.unicode_len();
    if m > n {
        return None;
    }
    let head = s.substring_char(0, m);
    if str_equal(head, p) {
        Some(s.substring_char(m, n))
    } else {
        None
    }
}

/// The concatenation of `k` copies of `p`.
pub open spec fn repeat_seq(p: Seq<char>, k: nat) -> Seq<char>
    decreases k,
{
    if k == 0 {
        Seq::empty()
    } else {
        repeat_seq(p, (k - 1) as nat) + p
    }
}

proof fn lemma_repeat_step(p: Seq<char>, k: nat, s: Seq<char>)
    ensures
        repeat_seq(p, k) + (p + s) == repeat_seq(p, k + 1) + s,
{
    assert(repeat_seq(p, k + 1) == repeat_seq(p, k) + p);
    assert(repeat_seq(p, k) + (p + s) =~= (repeat_seq(p, k) + p) + s);
}

/// `str::trim_start_matches` with a non-empty string pattern: `s` with every
/// leading copy of `p` removed.
pub fn trim_start_matches<'a>(s: &'a str, p: &str) -> (r: &'a str)
    requires
        p@.len() > 0,
    ensures
        exists|k: nat| s@ == #[trigger] repeat_seq(p@, k) + r@,
        !has_prefix(r@, p@),
{
    let mut cur: &'a str = s;
    let ghost mut k: nat = 0;
    assert(s@ =~= repeat_seq(p@, 0) + s@);
    loop
        invariant
            p@.len() > 0,
            s@ == repeat_seq(p@, k) + cur@,
        decreases cur@.len(),
    {
        match strip_prefix(cur, p) {
            Some(rest) => {
                proof {
                    assert(cur@ =~= p@ + rest@);
                    lemma_repeat_step(p@, k, rest@);
                    k = k + 1;
                }
                cur = rest;
            },
            None => {
                return cur;
            },
        }
    }
}

/// Removes the characters of `cls` from both ends of `s`, as `str::trim`
/// (white space) and `str::trim_matches(c)` (one character) do.
pub fn trim_by<'a>(s: &'a str, cls: TrimClass) -> (r: &'a str)
    ensures
        is_trim_of(cls, s@, r@),
{
    let v = chars_of(s);
    let n = v.len();
    let mut i: usize = 0;
    while i < n && in_class_exec(cls, v[i])
        invariant
            v@ == s@,
            n == v@.len(),
            i <= n,
            all_in_class(cls, s@.take(i as int)),
        decreases n - i,
    {
        assert(s@.take(i + 1) =~= s@.take(i as int).push(s@[i as int]));
        i = i + 1;
    }
    let mut j: usize = n;
    while j > i && in_class_exec(cls, v[j - 1])
        invariant
            v@ == s@,
            n == v@.len(),
            i <= j <= n,
            all_in_class(cls, s@.skip(j as int)),
        decreases j,
    {
        assert(s@.skip(j - 1) =~= seq![s@[j - 1]] + s@.skip(j as int));
        j = j - 1;
    }
    let r = s.substring_char(i, j);
    proof {
        let ii = i as int;
        assert(r@ == s@.subrange(ii, ii + r@.len()));
        assert(all_in_class(cls, s@.take(ii)) && all_in_class(cls, s@.skip(ii + r@.len())));
        if r@.len() > 0 {
            assert(r@[0] == v@[ii]);
            assert(r@.last() == v@[j - 1]);
        }
    }
    r
}

/// `str::trim`: `s` without leading and trailing white space.
pub fn trim(s: &str) -> (r: &str)
    ensures
        is_trim_of(TrimClass::Whitespace, s@, r@),
{
    trim_by(s, TrimClass::Whitespace)
}

/// The trim of `s` is empty exactly when `s` is all white space.
pub proof fn lemma_trim_empty_iff_blank(cls: TrimClass, s: Seq<char>, r: Seq<char>)
    requires
        is_trim_of(cls, s, r),
    ensures
        (r.len() == 0) <==> all_in_class(cls, s),
{
    let i = choose|i: int|
        0 <= i && i + r.len() <= s.len() && r == s.subrange(i, i + r.len()) && all_in_class(
            cls,
            #[trigger] s.take(i),
        ) && all_in_class(cls, s.skip(i + r.len()));
    if r.len() == 0 {
        assert forall|k: int| 0 <= k < s.len() implies in_class(cls, #[trigger] s[k]) by {
            if k < i {
                assert(s.take(i)[k] == s[k]);
            } else {
                assert(s.skip(i)[k - i] == s[k]);
            }
        }
    } else {
        assert(r[0] == s[i]);
    }
}

/// Whether `s` is empty once trimmed, i.e. holds only white space.
pub fn is_blank(s: &str) -> (r: bool)
    ensures
        r == is_blank_text(s@),
{
    let t = trim(s);
    proof {
        lemma_trim_empty_iff_blank(TrimClass::Whitespace, s@, t@);
    }
    t.unicode_len() == 0
}

/// Whether `c` occurs in `s`.
pub fn contains_char(s: &str, c: char) -> (r: bool)
    ensures
        r == s@.contains(c),
{
    let v = chars_of(s);
    let mut i: usize = 0;
    while i < v.len()
        invariant
            v@ == s@,
            i <= v@.len(),
            forall|k: int| 0 <= k < i ==> v@[k] != c,
        decreases v@.len() - i,
    {
        if v[i] == c {
            assert(s@[i as int] == c);
            return true;
        }
        i = i + 1;
    }
    false
}

/// ASCII lower-casing of one character; other characters are unchanged.
pub open spec fn ascii_lower(c: char) -> char {
    if 'A' <= c <= 'Z' {
        ((c as u32) + 32) as char
    } else {
        c
    }
}

fn ascii_lower_exec(c: char) -> (r: char)
    ensures
        r == ascii_lower(c),
{
    if 'A' <= c && c <= 'Z' {
        let u: u8 = (c as u8) + 32;
        u as char
    } else {
        c
    }
}

/// `str::eq_ignore_ascii_case`: equal once ASCII letters are lower-cased.
pub open spec fn eq_ignore_ascii_case_spec(a: Seq<char>, b: Seq<char>) -> bool {
    a.len() == b.len() && forall|k: int| 0 <= k < a.len() ==> ascii_lower(a[k]) == ascii_lower(b[k])
}

pub fn eq_ignore_ascii_case(a: &str, b: &str) -> (r: bool)
    ensures
        r == eq_ignore_ascii_case_spec(a@, b@),
{
    let va = chars_of(a);
    let vb = chars_of(b);
    if va.len() != vb.len() {
        return false;
    }
    let mut i: usize = 0;
    while i < va.len()
        invariant
            va@ == a@,
            vb@ == b@,
            va@.len() == vb@.len(),
            i <= va@.len(),
            forall|k: int| 0 <= k < i ==> ascii_lower(a@[k]) == ascii_lower(b@[k]),
        decreases va@.len() - i,
    {
        if ascii_lower_exec(va[i]) != ascii_lower_exec(vb[i]) {
            return false;
        }
        i = i + 1;
    }
    true
}

/// `String::push`: appends one character.
#[verifier::external_body]
pub(crate) fn push_char(s: &mut String, c: char)
    ensures
        final(s)@ == old(s)@.push(c),
{
    s.push(c)
}

/// `String::push_str`: appends a string.
pub fn push_str(s: &mut String, t: &str)
    ensures
        final(s)@ == old(s)@ + t@,
{
    s.append(t)
}

/// The lower-case hexadecimal digit of a value below 16.
pub open spec fn hex_digit(d: int) -> char {
    if d < 10 {
        (('0' as u32) + d) as char
    } else {
        (('a' as u32) + (d - 10)) as char
    }
}

fn hex_digit_exec(d: u8) -> (r: char)
    requires
        d < 16,
    ensures
        r == hex_digit(d as int),
{
    if d < 10 {
        (0x30u8 + d) as char
    } else {
        (0x61u8 + (d - 10)) as char
    }
}

/// Two lower-case hexadecimal digits per byte, high nibble first (the
/// rendering of `{:x}` on a digest and of a UUID without hyphens).
pub open spec fn hex_lower(bytes: Seq<u8>) -> Seq<char>
    decreases bytes.len(),
{
    if bytes.len() == 0 {
        Seq::empty()
    } else {
        hex_lower(bytes.drop_last()) + seq![
            hex_digit((bytes.last() / 16) as int),
            hex_digit((bytes.last() % 16) as int),
        ]
    }
}

pub proof fn lemma_hex_lower_len(bytes: Seq<u8>)
    ensures
        hex_lower(bytes).len() == 2 * bytes.len(),
    decreases bytes.len(),
{
    if bytes.len() > 0 {
        lemma_hex_lower_len(bytes.drop_last());
    }
}

/// Appends the lower-case hexadecimal rendering of `bytes` to `out`.
pub fn append_hex_lower(out: &mut String, bytes: &[u8])
    ensures
        final(out)@ == old(out)@ + hex_lower(bytes@),
{
    let ghost start = out@;
    let mut i: usize = 0;
    assert(bytes@.take(0) =~= Seq::<u8>::empty());
    while i < bytes.len()
        invariant
            i <= bytes@.len(),
            out@ == start + hex_lower(bytes@.take(i as int)),
        decreases bytes@.len() - i,
    {
        let b = bytes[i];
        push_char(out, hex_digit_exec(b / 16));
        push_char(out, hex_digit_exec(b % 16));
        proof {
            let t = bytes@.take(i + 1);
            assert(t.drop_last() =~= bytes@.take(i as int));
            assert(t.last() == b);
            assert(out@ =~= start + hex_lower(t));
        }
        i = i + 1;
    }
    assert(bytes@.take(bytes@.len() as int) =~= bytes@);
}

/// The lower-case hexadecimal rendering of `bytes`.
pub fn to_hex_lower(bytes: &[u8]) -> (r: String)
    ensures
        r@ == hex_lower(bytes@),
{
    let mut out = String::new();
    append_hex_lower(&mut out, bytes);
    assert(out@ =~= hex_lower(bytes@));
    out
}

/// The decimal digit of a value below 10.
pub open spec fn dec_digit(d: int) -> char {
    (('0' as u32) + d) as char
}

/// The decimal rendering of a natural number, without leading zeros.
pub open spec fn decimal(n: nat) -> Seq<char>
    decreases n,
{
    if n < 10 {
        seq![dec_digit(n as int)]
    } else {
        decimal(n / 10).push(dec_digit((n % 10) as int))
    }
}

/// The decimal rendering of an integer, with a leading `-` when negative
/// (`Display` of the integer types).
pub open spec fn decimal_int(n: int) -> Seq<char> {
    if n < 0 {
        seq!['-'] + decimal((-n) as nat)
    } else {
        decimal(n as nat)
    }
}

/// Appends the decimal rendering of `n` to `out`.
pub fn append_decimal_u64(out: &mut String, n: u64)
    ensures
        final(out)@ == old(out)@ + decimal(n as nat),
    decreases n,
{
    if n >= 10 {
        append_decimal_u64(out, n / 10);
    }
    let d: u8 = (n % 10) as u8;
    let c = (0x30u8 + d) as char;
    push_char(out, c);
    proof {
        if n >= 10 {
            assert(decimal(n as nat) == decimal((n / 10) as nat).push(dec_digit((n % 10) as int)));
        }
    }
}

/// Appends the decimal rendering of `n`, with its sign, to `out`.
pub fn append_decimal_i64(out: &mut String, n: i64)
    ensures
        final(out)@ == old(out)@ + decimal_int(n as int),
{
    if n < 0 {
        push_char(out, '-');
        let m: u64 = if n == i64::MIN {
            9223372036854775808u64
        } else {
            (-n) as u64
        };
        let ghost mid = out@;
        append_decimal_u64(out, m);
        assert(out@ =~= old(out)@ + decimal_int(n as int));
    } else {
        append_decimal_u64(out, n as u64);
    }
}

/// Whether `c` is an ASCII decimal digit.
pub open spec fn is_digit(c: char) -> bool {
    '0' <= c <= '9'
}

pub open spec fn digit_value(c: char) -> int {
    (c as u32) - ('0' as u32)
}

/// The value of a string of decimal digits.
pub open spec fn digits_value(d: Seq<char>) -> int
    decreases d.len(),
{
    if d.len() == 0 {
        0
    } else {
        10 * digits_value(d.drop_last()) + digit_value(d.last())
    }
}

/// `i64::from_str`: an optional `+` or `-` followed by one or more ASCII
/// digits, whose value lies in the range of `i64`.
/// The length of the optional sign at the front of `s`.
pub open spec fn sign_len(s: Seq<char>) -> int {
    if s.len() > 0 && (s[0] == '-' || s[0] == '+') {
        1
    } else {
        0
    }
}

pub open spec fn all_digits(d: Seq<char>) -> bool {
    forall|k: int| 0 <= k < d.len() ==> is_digit(#[trigger] d[k])
}

pub open spec fn parse_i64_spec(s: Seq<char>) -> Option<i64> {
    let body = s.skip(sign_len(s));
    let magnitude = digits_value(body);
    let v = if s.len() > 0 && s[0] == '-' {
        -magnitude
    } else {
        magnitude
    };
    if body.len() == 0 || !all_digits(body) {
        None
    } else if i64::MIN <= v <= i64::MAX {
        Some(v as i64)
    } else {
        None
    }
}

proof fn lemma_digits_value_nonneg(d: Seq<char>)
    requires
        forall|k: int| 0 <= k < d.len() ==> is_digit(#[trigger] d[k]),
    ensures
        digits_value(d) >= 0,
    decreases d.len(),
{
    if d.len() > 0 {
        lemma_digits_value_nonneg(d.drop_last());
    }
}

/// Parses a signed decimal integer as `str::parse::<i64>` does.
pub fn parse_i64(s: &str) -> (r: Option<i64>)
    ensures
        r == parse_i64_spec(s@),
{
    let v = chars_of(s);
    let n = v.len();
    let neg = n > 0 && v[0] == '-';
    let signed = n > 0 && (v[0] == '-' || v[0] == '+');
    let start: usize = if signed {
        1
    } else {
        0
    };
    let ghost body = s@.skip(start as int);
    proof {
        if n > 0 {
            assert(s@[0] == v@[0]);
        }
        assert(start == sign_len(s@));
        assert(neg == (s@.len() > 0 && s@[0] == '-'));
        assert(s@.skip(0) =~= s@);
        if n > 0 {
            assert(v@[0] == s@[0]);
        }
    }
    if start >= n {
        return None;
    }
    let cap: i128 = 9223372036854775809i128;
    let mut acc: i128 = 0;
    let mut i: usize = start;
    while i < n
        invariant
            v@ == s@,
            n == v@.len(),
            start <= i <= n,
            body == s@.skip(start as int),
            start == sign_len(s@),
            neg == (s@.len() > 0 && s@[0] == '-'),
            forall|k: int| 0 <= k < i - start ==> is_digit(#[trigger] body[k]),
            acc == if digits_value(body.take(i - start)) < cap {
                digits_value(body.take(i - start))
            } else {
                cap as int
            },
            0 <= digits_value(body.take(i - start)),
            0 <= acc <= cap,
            cap == 9223372036854775809i128,
        decreases n - i,
    {
        let c = v[i];
        if !('0' <= c && c <= '9') {
            proof {
                assert(body[i - start] == c);
                assert(!is_digit(body[i - start]));
                assert(body.len() == n - start);
                assert(!all_digits(body));
            }
            return None;
        }
        let d: i128 = (c as u32 - 0x30) as i128;
        proof {
            let t = body.take(i + 1 - start);
            assert(t.drop_last() =~= body.take(i - start));
            assert(t.last() == c);
            assert(body[i - start] == c);
            assert(digits_value(t) == 10 * digits_value(body.take(i - start)) + digit_value(c));
        }
        let next = acc * 10 + d;
        acc = if next < cap {
            next
        } else {
            cap
        };
        i = i + 1;
    }
    proof {
        assert(body.take(n - start) =~= body);
    }
    let value: i128 = if neg {
        -acc
    } else {
        acc
    };
    if -9223372036854775808i128 <= value && value <= 9223372036854775807i128 {
        Some(value as i64)
    } else {
        None
    }
}

/// The unsigned integer that a string of decimal digits denotes, when it is
/// one (at least one digit, nothing else) and fits `usize`.
pub open spec fn parse_usize_spec(s: Seq<char>) -> Option<usize> {
    if s.len() == 0 || !all_digits(s) {
        None
    } else if digits_value(s) <= usize::MAX {
        Some(digits_value(s) as usize)
    } else {
        None
    }
}

/// Parses a string of decimal digits into a `usize` (see `parse_usize_spec`).
pub fn parse_usize(s: &str) -> (r: Option<usize>)
    ensures
        r == parse_usize_spec(s@),
{
    let v = chars_of(s);
    let n = v.len();
    if n == 0 {
        return None;
    }
    let cap: u128 = (usize::MAX as u128) + 1;
    let mut acc: u128 = 0;
    let mut i: usize = 0;
    while i < n
        invariant
            v@ == s@,
            n == v@.len(),
            i <= n,
            cap == usize::MAX + 1,
            forall|k: int| 0 <= k < i ==> is_digit(#[trigger] s@[k]),
            0 <= digits_value(s@.take(i as int)),
            acc == if digits_value(s@.take(i as int)) < cap {
                digits_value(s@.take(i as int))
            } else {
                cap as int
            },
            acc <= cap,
        decreases n - i,
    {
        let c = v[i];
        if !('0' <= c && c <= '9') {
            proof {
                assert(!is_digit(s@[i as int]));
            }
            return None;
        }
        let d: u128 = (c as u32 - 0x30) as u128;
        proof {
            let t = s@.take(i + 1);
            assert(t.drop_last() =~= s@.take(i as int));
            assert(t.last() == c);
            assert(digits_value(t) == 10 * digits_value(s@.take(i as int)) + digit_value(c));
        }
        let next = acc * 10 + d;
        acc = if next < cap {
            next
        } else {
            cap
        };
        i = i + 1;
    }
    proof {
        assert(s@.take(n as int) =~= s@);
    }
    if acc < cap {
        Some(acc as usize)
    } else {
        None
    }
}

} // verus!
