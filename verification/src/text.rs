//! Work on text and sequences that the other modules share: decimal and
//! hexadecimal rendering of integers, comparing and searching strings,
//! changing their case, and finding the first element of a sequence that
//! meets a predicate.

use vstd::prelude::*;
use vstd::string::{StrSliceExecFns, StringExecFns};
use vstd::utf8::{
    decode_utf8, decode_utf8_encode_utf8, encode_utf8, encode_utf8_decode_utf8,
    encode_utf8_valid_utf8, is_ascii_chars, is_ascii_chars_encode_utf8, valid_utf8,
};

verus! {

/// The character of one digit in base 16 or less, in lower case.
pub open spec fn digit_char(d: nat) -> char {
    if d == 0 {
        '0'
    } else if d == 1 {
        '1'
    } else if d == 2 {
        '2'
    } else if d == 3 {
        '3'
    } else if d == 4 {
        '4'
    } else if d == 5 {
        '5'
    } else if d == 6 {
        '6'
    } else if d == 7 {
        '7'
    } else if d == 8 {
        '8'
    } else if d == 9 {
        '9'
    } else if d == 10 {
        'a'
    } else if d == 11 {
        'b'
    } else if d == 12 {
        'c'
    } else if d == 13 {
        'd'
    } else if d == 14 {
        'e'
    } else {
        'f'
    }
}

/// The digits of `n` in the given base, most significant first, without
/// leading zeros; zero is the single digit `0`.
pub open spec fn digits(n: nat, base: nat) -> Seq<char>
    recommends
        2 <= base <= 16,
    decreases n,
    via digits_decreases
{
    if n < base || base < 2 {
        seq![digit_char(n)]
    } else {
        digits(n / base, base).push(digit_char(n % base))
    }
}

#[via_fn]
proof fn digits_decreases(n: nat, base: nat) {
    if !(n < base || base < 2) {
        lemma_quotient_smaller(n, base);
    }
}

/// Dividing a number by a base of two or more makes it smaller, unless it
/// is below the base already.
pub proof fn lemma_quotient_smaller(n: nat, base: nat)
    requires
        2 <= base <= n,
    ensures
        n / base < n,
{
    assert(n / base < n) by (nonlinear_arith)
        requires
            2 <= base <= n,
    ;
}

/// The decimal form of `n`.
pub open spec fn decimal(n: nat) -> Seq<char> {
    digits(n, 10)
}

/// The hexadecimal form of `n`, in lower case and without a prefix.
pub open spec fn hexadecimal(n: nat) -> Seq<char> {
    digits(n, 16)
}

/// The one-character string of a digit below 16.
fn digit_str(d: u64) -> (s: &'static str)
    requires
        d < 16,
    ensures
        s@ == seq![digit_char(d as nat)],
{
    proof {
        reveal_strlit("0");
        reveal_strlit("1");
        reveal_strlit("2");
        reveal_strlit("3");
        reveal_strlit("4");
        reveal_strlit("5");
        reveal_strlit("6");
        reveal_strlit("7");
        reveal_strlit("8");
        reveal_strlit("9");
        reveal_strlit("a");
        reveal_strlit("b");
        reveal_strlit("c");
        reveal_strlit("d");
        reveal_strlit("e");
        reveal_strlit("f");
    }
    let s = if d == 0 {
        "0"
    } else if d == 1 {
        "1"
    } else if d == 2 {
        "2"
    } else if d == 3 {
        "3"
    } else if d == 4 {
        "4"
    } else if d == 5 {
        "5"
    } else if d == 6 {
        "6"
    } else if d == 7 {
        "7"
    } else if d == 8 {
        "8"
    } else if d == 9 {
        "9"
    } else if d == 10 {
        "a"
    } else if d == 11 {
        "b"
    } else if d == 12 {
        "c"
    } else if d == 13 {
        "d"
    } else if d == 14 {
        "e"
    } else {
        "f"
    };
    s
}

/// Appends the digits of `n` in the given base to `out`.
pub fn push_digits(out: &mut String, n: u64, base: u64)
    requires
        2 <= base <= 16,
    ensures
        final(out)@ == old(out)@ + digits(n as nat, base as nat),
    decreases n,
{
    if n < base {
        out.append(digit_str(n));
    } else {
        proof {
            lemma_quotient_smaller(n as nat, base as nat);
        }
        push_digits(out, n / base, base);
        out.append(digit_str(n % base));
    }
}

/// Appends the decimal form of `n` to `out`.
pub fn push_decimal(out: &mut String, n: u64)
    ensures
        final(out)@ == old(out)@ + decimal(n as nat),
{
    push_digits(out, n, 10);
}

/// Appends the hexadecimal form of `n` to `out`.
pub fn push_hexadecimal(out: &mut String, n: u64)
    ensures
        final(out)@ == old(out)@ + hexadecimal(n as nat),
{
    push_digits(out, n, 16);
}

/// The decimal form of `n` as a string.
pub fn decimal_string(n: u64) -> (s: String)
    ensures
        s@ == decimal(n as nat),
{
    let mut s = String::new();
    push_decimal(&mut s, n);
    s
}

/// The text in lower case, as `str::to_lowercase` gives it.
pub uninterp spec fn lowercased(text: Seq<char>) -> Seq<char>;

/// Puts a text into lower case with `str::to_lowercase`.
///
/// Believed of the standard library: the result depends on the text alone.
/// Nothing else is claimed: the result is named, not described.
#[verifier::external_body]
pub(crate) fn to_lowercase(text: &str) -> (lower: String)
    ensures
        lower@ == lowercased(text@),
{
    text.to_lowercase()
}

/// The text in upper case, as `str::to_uppercase` gives it.
pub uninterp spec fn uppercased(text: Seq<char>) -> Seq<char>;

/// Puts a text into upper case with `str::to_uppercase`.
///
/// Believed of the standard library: the result depends on the text alone.
/// Nothing else is claimed: the result is named, not described.
#[verifier::external_body]
pub(crate) fn to_uppercase(text: &str) -> (upper: String)
    ensures
        upper@ == uppercased(text@),
{
    text.to_uppercase()
}

/// Whether two strings hold the same text.
pub fn str_equals(a: &str, b: &str) -> (r: bool)
    ensures
        r == (a@ == b@),
{
    let left = String::from_str(a);
    let right = String::from_str(b);
    left == right
}

/// The bytes of a text of ASCII characters: one byte for each character.
pub open spec fn ascii_bytes(chars: Seq<char>) -> Seq<u8> {
    Seq::new(chars.len(), |i: int| chars[i] as u8)
}

/// A text of ASCII characters and its bytes determine each other: bytes
/// are valid UTF-8 for that text exactly if they are its characters, one by
/// one.
pub proof fn lemma_ascii_text_bytes(bytes: Seq<u8>, chars: Seq<char>)
    requires
        is_ascii_chars(chars),
    ensures
        (valid_utf8(bytes) && decode_utf8(bytes) == chars) <==> bytes == ascii_bytes(chars),
{
    is_ascii_chars_encode_utf8(chars);
    assert(encode_utf8(chars) =~= ascii_bytes(chars));
    encode_utf8_valid_utf8(chars);
    encode_utf8_decode_utf8(chars);
    if valid_utf8(bytes) && decode_utf8(bytes) == chars {
        decode_utf8_encode_utf8(bytes);
    }
}

/// Whether the text ends at position `end` with the given suffix.
pub open spec fn ends_with_at(text: Seq<char>, end: int, suffix: Seq<char>) -> bool {
    suffix.len() <= end <= text.len() && text.subrange(end - suffix.len(), end) == suffix
}

/// Whether the text ends with the given suffix.
pub open spec fn ends_with(text: Seq<char>, suffix: Seq<char>) -> bool {
    ends_with_at(text, text.len() as int, suffix)
}

/// How much of the text is left when the suffix is taken from the part
/// before `end` as often as it stands there.
pub open spec fn trimmed_len(text: Seq<char>, end: int, suffix: Seq<char>) -> int
    decreases end,
{
    if suffix.len() > 0 && ends_with_at(text, end, suffix) {
        trimmed_len(text, end - suffix.len(), suffix)
    } else {
        end
    }
}

/// The text without the suffix, which is taken from its end as often as it
/// stands there.
pub open spec fn trim_end(text: Seq<char>, suffix: Seq<char>) -> Seq<char> {
    text.subrange(0, trimmed_len(text, text.len() as int, suffix))
}

/// What is left after trimming is a prefix of the text.
pub proof fn lemma_trimmed_len(text: Seq<char>, end: int, suffix: Seq<char>)
    requires
        0 <= end <= text.len(),
    ensures
        0 <= trimmed_len(text, end, suffix) <= end,
        suffix.len() > 0 ==> !ends_with_at(text, trimmed_len(text, end, suffix), suffix),
    decreases end,
{
    if suffix.len() > 0 && ends_with_at(text, end, suffix) {
        lemma_trimmed_len(text, end - suffix.len(), suffix);
    }
}

/// Whether the first `end` characters of the text end with the suffix.
pub fn str_ends_with_at(text: &str, end: usize, suffix: &str) -> (r: bool)
    requires
        end <= text@.len(),
    ensures
        r == ends_with_at(text@, end as int, suffix@),
{
    let m = suffix.unicode_len();
    if m > end {
        return false;
    }
    let start = end - m;
    let mut i: usize = 0;
    while i < m
        invariant
            i <= m,
            m == suffix@.len(),
            start + m == end,
            end <= text@.len(),
            forall|j: int| 0 <= j < i ==> text@[start + j] == suffix@[j],
        decreases m - i,
    {
        if text.get_char(start + i) != suffix.get_char(i) {
            return false;
        }
        i += 1;
    }
    assert(text@.subrange(end - suffix@.len(), end as int) =~= suffix@);
    true
}

/// Whether the text ends with the suffix.
pub fn str_ends_with(text: &str, suffix: &str) -> (r: bool)
    ensures
        r == ends_with(text@, suffix@),
{
    str_ends_with_at(text, text.unicode_len(), suffix)
}

/// Takes the suffix from the end of the text as often as it stands there.
pub fn str_trim_end(text: &str, suffix: &str) -> (r: String)
    ensures
        r@ == trim_end(text@, suffix@),
{
    let mut end = text.unicode_len();
    let m = suffix.unicode_len();
    if m > 0 {
        while str_ends_with_at(text, end, suffix)
            invariant
                end <= text@.len(),
                m == suffix@.len(),
                m > 0,
                trimmed_len(text@, text@.len() as int, suffix@) == trimmed_len(
                    text@,
                    end as int,
                    suffix@,
                ),
            decreases end,
        {
            end -= m;
        }
    }
    String::from_str(text.substring_char(0, end))
}

/// The position of the first element at or after `from` that meets the
/// predicate, or the length of the sequence if none does.
pub open spec fn first_index<T>(s: Seq<T>, p: spec_fn(T) -> bool, from: int) -> int
    decreases s.len() - from,
{
    if from < 0 || from >= s.len() {
        s.len() as int
    } else if p(s[from]) {
        from
    } else {
        first_index(s, p, from + 1)
    }
}

/// The first element that meets the predicate is where `first_index` says,
/// and none before it meets it.
pub proof fn lemma_first_index<T>(s: Seq<T>, p: spec_fn(T) -> bool, from: int)
    requires
        0 <= from <= s.len(),
    ensures
        from <= first_index(s, p, from) <= s.len(),
        first_index(s, p, from) < s.len() ==> p(s[first_index(s, p, from)]),
        forall|i: int| from <= i < first_index(s, p, from) ==> !p(s[i]),
    decreases s.len() - from,
{
    if from < s.len() && !p(s[from]) {
        lemma_first_index(s, p, from + 1);
    }
}

/// Whether every byte is an ASCII character.
pub open spec fn is_ascii_bytes(bytes: Seq<u8>) -> bool {
    forall|i: int| 0 <= i < bytes.len() ==> #[trigger] bytes[i] < 128
}

/// The text that ASCII bytes spell: one character for each byte.
pub open spec fn ascii_text(bytes: Seq<u8>) -> Seq<char> {
    Seq::new(bytes.len(), |i: int| bytes[i] as char)
}

/// ASCII bytes are valid UTF-8, and they decode to the text that they
/// spell.
pub proof fn lemma_ascii_bytes_decode(bytes: Seq<u8>)
    requires
        is_ascii_bytes(bytes),
    ensures
        valid_utf8(bytes),
        decode_utf8(bytes) == ascii_text(bytes),
{
    let chars = ascii_text(bytes);
    assert forall|i: int| 0 <= i < chars.len() implies '\0' <= #[trigger] chars[i] <= '\u{7f}' by {
        assert(bytes[i] < 128);
    }
    assert forall|i: int| 0 <= i < bytes.len() implies ascii_bytes(chars)[i] == bytes[i] by {
        assert(bytes[i] < 128);
    }
    assert(ascii_bytes(chars) =~= bytes);
    lemma_ascii_text_bytes(bytes, chars);
}

/// Whether `needle` stands in `haystack` at position `i`.
pub open spec fn occurs_at(haystack: Seq<char>, needle: Seq<char>, i: int) -> bool {
    0 <= i && i + needle.len() <= haystack.len() && haystack.subrange(i, i + needle.len())
        == needle
}

/// Whether `needle` occurs in `haystack` as a contiguous run.
pub open spec fn contains_run(haystack: Seq<char>, needle: Seq<char>) -> bool {
    exists|i: int| occurs_at(haystack, needle, i)
}

/// Whether the text holds the other text as a contiguous run.
pub fn str_contains(haystack: &str, needle: &str) -> (r: bool)
    ensures
        r == contains_run(haystack@, needle@),
{
    let n = haystack.unicode_len();
    let m = needle.unicode_len();
    if m > n {
        assert forall|i: int| !occurs_at(haystack@, needle@, i) by {}
        return false;
    }
    let last = n - m;
    let mut i: usize = 0;
    while i < last
        invariant
            n == haystack@.len(),
            m == needle@.len(),
            last == n - m,
            i <= last,
            forall|j: int| 0 <= j < i ==> !occurs_at(haystack@, needle@, j),
        decreases last - i,
    {
        if str_ends_with_at(haystack, i + m, needle) {
            assert(occurs_at(haystack@, needle@, i as int));
            return true;
        }
        i += 1;
    }
    if str_ends_with_at(haystack, last + m, needle) {
        assert(occurs_at(haystack@, needle@, last as int));
        return true;
    }
    assert forall|j: int| !occurs_at(haystack@, needle@, j) by {}
    false
}

} // verus!
