//! Building message text from literals and numbers.

use vstd::prelude::*;
use vstd::string::StringExecFns;

verus! {

broadcast use vstd::string::group_string_axioms;

/// Decimal digits of `n`, most significant first.
pub open spec fn decimal(n: nat) -> Seq<char>
    decreases n,
{
    if n < 10 {
        seq![digit_char(n)]
    } else {
        decimal(n / 10).push(digit_char(n % 10))
    }
}

/// The ASCII digit for a value below ten.
pub open spec fn digit_char(d: nat) -> char {
    if d == 0 { '0' } else if d == 1 { '1' } else if d == 2 { '2' } else if d == 3 { '3' }
    else if d == 4 { '4' } else if d == 5 { '5' } else if d == 6 { '6' } else if d == 7 { '7' }
    else if d == 8 { '8' } else { '9' }
}

fn digit_str(d: u64) -> (r: &'static str)
    requires
        d < 10,
    ensures
        r@ == seq![digit_char(d as nat)],
{
    proof {
        reveal_strlit("0"); reveal_strlit("1"); reveal_strlit("2"); reveal_strlit("3"); reveal_strlit("4");
        reveal_strlit("5"); reveal_strlit("6"); reveal_strlit("7"); reveal_strlit("8"); reveal_strlit("9");
    }
    let r = if d == 0 { "0" } else if d == 1 { "1" } else if d == 2 { "2" } else if d == 3 { "3" }
        else if d == 4 { "4" } else if d == 5 { "5" } else if d == 6 { "6" } else if d == 7 { "7" }
        else if d == 8 { "8" } else { "9" };
    assert(r@ =~= seq![digit_char(d as nat)]);
    r
}

/// Appends the decimal form of `n` to `s`.
pub fn push_decimal(s: &mut String, n: u64)
    ensures
        final(s)@ == old(s)@ + decimal(n as nat),
    decreases n,
{
    if n >= 10 {
        push_decimal(s, n / 10);
    }
    let d = digit_str(n % 10);
    s.append(d);
    proof {
        if n >= 10 {
            assert(old(s)@ + decimal(n as nat) =~= old(s)@ + decimal((n / 10) as nat) + seq![digit_char((n % 10) as nat)]);
        } else {
            assert(old(s)@ + decimal(n as nat) =~= old(s)@ + seq![digit_char((n % 10) as nat)]);
        }
    }
}

/// Decimal form of a signed value: a minus sign before the magnitude of a
/// negative one.
pub open spec fn signed_decimal(n: int) -> Seq<char> {
    if n < 0 {
        seq!['-'] + decimal((-n) as nat)
    } else {
        decimal(n as nat)
    }
}

/// Appends the decimal form of the signed value `n` to `s`.
pub fn push_signed_decimal(s: &mut String, n: i64)
    ensures
        final(s)@ == old(s)@ + signed_decimal(n as int),
{
    if n < 0 {
        proof { reveal_strlit("-"); }
        s.append("-");
        let magnitude: u64 = if n == i64::MIN { 0x8000_0000_0000_0000 } else { (-n) as u64 };
        push_decimal(s, magnitude);
        assert(s@ =~= old(s)@ + signed_decimal(n as int));
    } else {
        push_decimal(s, n as u64);
    }
}

/// Lowercase hexadecimal digits of `n`, most significant first.
pub open spec fn hex(n: nat) -> Seq<char>
    decreases n,
{
    if n < 16 {
        seq![hex_digit_char(n)]
    } else {
        hex(n / 16).push(hex_digit_char(n % 16))
    }
}

/// The lowercase hexadecimal digit for a value below sixteen.
pub open spec fn hex_digit_char(d: nat) -> char {
    if d < 10 { digit_char(d) } else if d == 10 { 'a' } else if d == 11 { 'b' } else if d == 12 { 'c' }
    else if d == 13 { 'd' } else if d == 14 { 'e' } else { 'f' }
}

fn hex_digit_str(d: u64) -> (r: &'static str)
    requires
        d < 16,
    ensures
        r@ == seq![hex_digit_char(d as nat)],
{
    if d < 10 {
        return digit_str(d);
    }
    proof {
        reveal_strlit("a"); reveal_strlit("b"); reveal_strlit("c"); reveal_strlit("d"); reveal_strlit("e");
        reveal_strlit("f");
    }
    let r = if d == 10 { "a" } else if d == 11 { "b" } else if d == 12 { "c" } else if d == 13 { "d" }
        else if d == 14 { "e" } else { "f" };
    assert(r@ =~= seq![hex_digit_char(d as nat)]);
    r
}

/// Appends the lowercase hexadecimal form of `n` to `s`.
pub fn push_hex(s: &mut String, n: u64)
    ensures
        final(s)@ == old(s)@ + hex(n as nat),
    decreases n,
{
    if n >= 16 {
        push_hex(s, n / 16);
    }
    let d = hex_digit_str(n % 16);
    s.append(d);
    proof {
        if n >= 16 {
            assert(old(s)@ + hex(n as nat) =~= old(s)@ + hex((n / 16) as nat) + seq![hex_digit_char((n % 16) as nat)]);
        } else {
            assert(old(s)@ + hex(n as nat) =~= old(s)@ + seq![hex_digit_char((n % 16) as nat)]);
        }
    }
}

/// ASCII lowercase of a character.
pub open spec fn ascii_lower(c: char) -> char {
    if 'A' <= c <= 'Z' { ((c as u32) + 32) as char } else { c }
}

/// Whether the ASCII lowercase of `s` is `lower`.
pub open spec fn lowercase_equals(s: Seq<char>, lower: Seq<char>) -> bool {
    s.len() == lower.len() && forall|i: int| 0 <= i < s.len() ==> ascii_lower(#[trigger] s[i]) == lower[i]
}

/// Whether the ASCII lowercase of `c` is `t`.
pub(crate) fn char_lower_equals(c: char, t: char) -> (r: bool)
    requires
        !('A' <= t <= 'Z'),
    ensures
        r == (ascii_lower(c) == t),
{
    if 'A' <= c && c <= 'Z' {
        (c as u32) + 32 == t as u32
    } else {
        c == t
    }
}

/// Whether `needle` occurs in `haystack` when ASCII letters are compared
/// without case (`needle` is lowercase).
pub open spec fn contains_ignoring_ascii_case(haystack: Seq<char>, needle: Seq<char>) -> bool {
    exists|i: int| 0 <= i && i + needle.len() <= haystack.len()
        && #[trigger] lowercase_equals(haystack.subrange(i, i + needle.len()), needle)
}

/// Whether the characters of `haystack` from `at` match `needle` without
/// ASCII case.
fn matches_ignoring_ascii_case_at(haystack: &Vec<char>, at: usize, needle: &Vec<char>) -> (r: bool)
    requires
        at + needle@.len() <= haystack@.len(),
        forall|i: int| 0 <= i < needle@.len() ==> !('A' <= #[trigger] needle@[i] <= 'Z'),
    ensures
        r == lowercase_equals(haystack@.subrange(at as int, at + needle@.len()), needle@),
{
    let ghost window = haystack@.subrange(at as int, at + needle@.len());
    let hay_len = haystack.len();
    let mut j: usize = 0;
    while j < needle.len()
        invariant
            j <= needle@.len(),
            hay_len == haystack@.len(),
            at + needle@.len() <= haystack@.len(),
            window == haystack@.subrange(at as int, at + needle@.len()),
            forall|i: int| 0 <= i < needle@.len() ==> !('A' <= #[trigger] needle@[i] <= 'Z'),
            forall|k: int| 0 <= k < j ==> ascii_lower(#[trigger] window[k]) == needle@[k],
        decreases needle@.len() - j,
    {
        if !char_lower_equals(haystack[at + j], needle[j]) {
            assert(window[j as int] == haystack@[at + j]);
            return false;
        }
        assert(window[j as int] == haystack@[at + j]);
        j += 1;
    }
    true
}

/// Searches `haystack` for the lowercase `needle`, comparing ASCII letters
/// without case.
pub fn contains_ignoring_ascii_case_exec(haystack: &str, needle: &str) -> (r: bool)
    requires
        forall|i: int| 0 <= i < needle@.len() ==> !('A' <= #[trigger] needle@[i] <= 'Z'),
    ensures
        r == contains_ignoring_ascii_case(haystack@, needle@),
{
    let hay = chars_of(haystack);
    let pat = chars_of(needle);
    if pat.len() > hay.len() {
        return false;
    }
    let last = hay.len() - pat.len();
    let mut at: usize = 0;
    loop
        invariant
            hay@ == haystack@,
            pat@ == needle@,
            last == hay@.len() - pat@.len(),
            pat@.len() <= hay@.len(),
            at <= last,
            forall|i: int| 0 <= i < needle@.len() ==> !('A' <= #[trigger] needle@[i] <= 'Z'),
            forall|k: int| 0 <= k < at ==> !lowercase_equals(#[trigger] haystack@.subrange(k, k + needle@.len()), needle@),
        decreases last - at,
    {
        if matches_ignoring_ascii_case_at(&hay, at, &pat) {
            return true;
        }
        if at == last {
            proof {
                assert forall|i: int| 0 <= i && i + needle@.len() <= haystack@.len() implies
                    !#[trigger] lowercase_equals(haystack@.subrange(i, i + needle@.len()), needle@) by {
                    assert(i <= last);
                }
            }
            return false;
        }
        at += 1;
    }
}

/// A new string holding `text`.
pub fn string_of(text: &str) -> (r: String)
    ensures
        r@ == text@,
{
    String::from_str(text)
}

/// `10^n`.
pub open spec fn pow10(n: nat) -> nat
    decreases n,
{
    if n == 0 { 1 } else { 10 * pow10((n - 1) as nat) }
}

/// Number of trailing decimal zeros of a positive value.
pub open spec fn trailing_zeros(n: nat) -> nat
    decreases n,
{
    if n == 0 || n % 10 != 0 { 0 } else { 1 + trailing_zeros(n / 10) }
}

/// The nine-digit fraction of a sub-second nanosecond count, without its
/// trailing zeros.
pub open spec fn fraction_digits(nanos: nat) -> Seq<char> {
    Seq::new((9 - trailing_zeros(nanos)) as nat, |i: int| digit_char((nanos / pow10((8 - i) as nat)) % 10))
}

/// The exact decimal value of a span: whole seconds, then the nine-digit
/// fraction without trailing zeros when there is one. This is the text
/// `f64` display gives for the span's seconds only where the `f64` value of
/// the span prints as that exact decimal (whole seconds, and fractions such
/// as 0.5 or 1.25); elsewhere `f64` display shows the rounding of the
/// conversion (1 s 333 333 333 ns prints as 1.3333333330000001 there, and
/// as 1.333333333 here).
pub open spec fn seconds_text(secs: nat, subsec_nanos: nat) -> Seq<char> {
    if subsec_nanos == 0 {
        decimal(secs)
    } else {
        decimal(secs) + seq!['.'] + fraction_digits(subsec_nanos)
    }
}

proof fn lemma_trailing_zeros_bound(n: nat, k: nat)
    requires
        0 < n < pow10(k),
    ensures
        trailing_zeros(n) < k,
    decreases n,
{
    if n % 10 == 0 {
        assert(k > 0) by { if k == 0 { assert(pow10(0) == 1); } };
        assert(n / 10 < pow10((k - 1) as nat)) by (nonlinear_arith)
            requires n < pow10(k), pow10(k) == 10 * pow10((k - 1) as nat);
        lemma_trailing_zeros_bound(n / 10, (k - 1) as nat);
    }
}

fn pow10_exec(n: u32) -> (r: u64)
    requires
        n <= 9,
    ensures
        r == pow10(n as nat),
{
    let mut r: u64 = 1;
    let mut i: u32 = 0;
    while i < n
        invariant
            i <= n <= 9,
            r == pow10(i as nat),
            r <= 1_000_000_000,
        decreases n - i,
    {
        proof {
            assert(pow10((i + 1) as nat) == 10 * pow10(i as nat));
            reveal_with_fuel(pow10, 10);
            assert(pow10(9) == 1_000_000_000);
            lemma_pow10_mono((i + 1) as nat, 9);
        }
        r = r * 10;
        i += 1;
    }
    r
}

proof fn lemma_pow10_mono(a: nat, b: nat)
    requires
        a <= b,
    ensures
        pow10(a) <= pow10(b),
    decreases b,
{
    if a < b {
        lemma_pow10_mono(a, (b - 1) as nat);
    }
}

/// Appends `secs` seconds and `subsec_nanos` nanoseconds as their exact
/// decimal value (see `seconds_text`).
pub fn push_seconds(s: &mut String, secs: u64, subsec_nanos: u32)
    requires
        subsec_nanos < 1_000_000_000,
    ensures
        final(s)@ == old(s)@ + seconds_text(secs as nat, subsec_nanos as nat),
{
    push_decimal(s, secs);
    if subsec_nanos == 0 {
        return;
    }
    let ghost after_secs = s@;
    proof { reveal_strlit("."); }
    s.append(".");
    let mut zeros: u32 = 0;
    let mut rest: u32 = subsec_nanos;
    proof {
        reveal_with_fuel(pow10, 10);
        lemma_trailing_zeros_bound(subsec_nanos as nat, 9);
        assert(pow10(0) == 1);
        assert(rest as nat * 1 == rest as nat);
    }
    while rest % 10 == 0
        invariant
            0 < rest,
            rest as nat * pow10(zeros as nat) == subsec_nanos as nat,
            trailing_zeros(subsec_nanos as nat) == zeros + trailing_zeros(rest as nat),
            trailing_zeros(subsec_nanos as nat) < 9,
        decreases rest,
    {
        proof {
            assert(trailing_zeros(rest as nat) == 1 + trailing_zeros((rest / 10) as nat));
            assert((rest / 10) as nat * pow10((zeros + 1) as nat) == subsec_nanos as nat) by (nonlinear_arith)
                requires rest as nat * pow10(zeros as nat) == subsec_nanos as nat, rest % 10 == 0,
                    pow10((zeros + 1) as nat) == 10 * pow10(zeros as nat);
        }
        rest = rest / 10;
        zeros += 1;
    }
    let count: u32 = 9 - zeros;
    let mut i: u32 = 0;
    while i < count
        invariant
            count == 9 - trailing_zeros(subsec_nanos as nat),
            i <= count <= 9,
            s@ == after_secs + seq!['.'] + fraction_digits(subsec_nanos as nat).subrange(0, i as int),
        decreases count - i,
    {
        let p = pow10_exec(8 - i);
        proof { lemma_pow10_mono(0, (8 - i) as nat); assert(pow10(0) == 1); }
        let d = digit_str(((subsec_nanos as u64) / p) % 10);
        s.append(d);
        assert(fraction_digits(subsec_nanos as nat).subrange(0, i + 1)
            =~= fraction_digits(subsec_nanos as nat).subrange(0, i as int).push(
                digit_char(((subsec_nanos as nat) / pow10((8 - i) as nat)) % 10)));
        i += 1;
    }
    assert(fraction_digits(subsec_nanos as nat).subrange(0, count as int) =~= fraction_digits(subsec_nanos as nat));
}

/// Whether `prefix` is a prefix of `s`.
pub open spec fn spec_starts_with(s: Seq<char>, prefix: Seq<char>) -> bool {
    prefix.len() <= s.len() && s.subrange(0, prefix.len() as int) == prefix
}

/// Whether `prefix` is a prefix of `s`.
pub fn str_starts_with(s: &str, prefix: &str) -> (r: bool)
    ensures
        r == spec_starts_with(s@, prefix@),
{
    let text = chars_of(s);
    let head = chars_of(prefix);
    if head.len() > text.len() {
        return false;
    }
    let mut i: usize = 0;
    while i < head.len()
        invariant
            text@ == s@,
            head@ == prefix@,
            head@.len() <= text@.len(),
            i <= head@.len(),
            forall|k: int| 0 <= k < i ==> text@[k] == head@[k],
        decreases head@.len() - i,
    {
        if text[i] != head[i] {
            assert(s@.subrange(0, prefix@.len() as int)[i as int] != prefix@[i as int]);
            return false;
        }
        i += 1;
    }
    assert(s@.subrange(0, prefix@.len() as int) =~= prefix@);
    true
}

/// Whether `needle` occurs in `haystack`.
pub open spec fn spec_contains(haystack: Seq<char>, needle: Seq<char>) -> bool {
    exists|i: int| 0 <= i && i + needle.len() <= haystack.len()
        && #[trigger] haystack.subrange(i, i + needle.len()) == needle
}

/// Whether the characters of `haystack` from `at` are `needle`.
fn matches_at(haystack: &Vec<char>, at: usize, needle: &Vec<char>) -> (r: bool)
    requires
        at + needle@.len() <= haystack@.len(),
    ensures
        r == (haystack@.subrange(at as int, at + needle@.len()) == needle@),
{
    let ghost window = haystack@.subrange(at as int, at + needle@.len());
    let hay_len = haystack.len();
    let mut j: usize = 0;
    while j < needle.len()
        invariant
            j <= needle@.len(),
            hay_len == haystack@.len(),
            at + needle@.len() <= haystack@.len(),
            window == haystack@.subrange(at as int, at + needle@.len()),
            forall|k: int| 0 <= k < j ==> window[k] == needle@[k],
        decreases needle@.len() - j,
    {
        if haystack[at + j] != needle[j] {
            assert(window[j as int] == haystack@[at + j]);
            return false;
        }
        assert(window[j as int] == haystack@[at + j]);
        j += 1;
    }
    assert(window =~= needle@);
    true
}

/// Whether `needle` occurs in `haystack`.
pub fn str_contains(haystack: &str, needle: &str) -> (r: bool)
    ensures
        r == spec_contains(haystack@, needle@),
{
    let hay = chars_of(haystack);
    let pat = chars_of(needle);
    if pat.len() > hay.len() {
        return false;
    }
    let last = hay.len() - pat.len();
    let mut at: usize = 0;
    loop
        invariant
            hay@ == haystack@,
            pat@ == needle@,
            last == hay@.len() - pat@.len(),
            pat@.len() <= hay@.len(),
            at <= last,
            forall|k: int| 0 <= k < at ==> #[trigger] haystack@.subrange(k, k + needle@.len()) != needle@,
        decreases last - at,
    {
        if matches_at(&hay, at, &pat) {
            return true;
        }
        if at == last {
            proof {
                assert forall|i: int| 0 <= i && i + needle@.len() <= haystack@.len() implies
                    #[trigger] haystack@.subrange(i, i + needle@.len()) != needle@ by {
                    assert(i <= last);
                }
            }
            return false;
        }
        at += 1;
    }
}

/// The characters of `s`, in order.
pub fn chars_of(s: &str) -> (r: Vec<char>)
    ensures
        r@ == s@,
{
    let mut v: Vec<char> = Vec::new();
    for c in iter: s.chars()
        invariant
            v@ == iter.seq().take(iter.index() as int),
            iter.seq() == s@,
    {
        v.push(c);
    }
    v
}

} // verus!
