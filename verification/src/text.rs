//! Character classes and the text patterns of the wire format.

use vstd::prelude::*;
use vstd::string::*;

verus! {

/// Two string slices are equal exactly when they hold the same characters.
pub assume_specification[ <str as PartialEq>::eq ](a: &str, b: &str) -> (r: bool)
    ensures
        r == (a@ == b@),
;

/// Pushing a character onto a string appends it to the characters it holds.
pub assume_specification[ String::push ](s: &mut String, c: char)
    ensures
        final(s)@ == old(s)@.push(c),
;

/// The text in lower case, as `str::to_lowercase` gives it by the tables of
/// Unicode.
pub uninterp spec fn lowercase_of(text: Seq<char>) -> Seq<char>;

/// Calls `str::to_lowercase`. The result is whatever that function returns
/// for the text.
#[verifier::external_body]
pub(crate) fn lowercase(text: &str) -> (r: String)
    ensures
        r@ == lowercase_of(text@),
{
    text.to_lowercase()
}

/// The characters of each of the texts.
pub open spec fn each_text(texts: Seq<String>) -> Seq<Seq<char>> {
    texts.map_values(|t: String| t@)
}

/// The text that std writes for a list of strings under the format `{:?}`:
/// between square brackets and with commas between them the strings, each in
/// double quotes and with its special characters escaped.
pub uninterp spec fn list_shown(texts: Seq<Seq<char>>) -> Seq<char>;

/// Formats the list with `format!` under `{:?}`. The result is whatever std
/// writes for a list of these strings.
#[verifier::external_body]
pub(crate) fn show_list(texts: &Vec<String>) -> (r: String)
    ensures
        r@ == list_shown(each_text(texts@)),
{
    format!("{:?}", texts)
}

pub open spec fn is_digit(c: char) -> bool {
    '0' <= c <= '9'
}

pub open spec fn is_upper(c: char) -> bool {
    'A' <= c <= 'Z'
}

/// Where the run of digits that starts at `from` ends: the first position at
/// or after `from` that holds no digit, or the length of `s`.
pub open spec fn digits_end(s: Seq<char>, from: int) -> int
    decreases s.len() - from,
{
    if 0 <= from < s.len() && is_digit(s[from]) {
        digits_end(s, from + 1)
    } else {
        from
    }
}

/// `s` from `from` to its end reads as digits, optionally followed by a dot
/// and more digits, with at least one digit in each part.
pub open spec fn is_plain_decimal_from(s: Seq<char>, from: int) -> bool {
    let whole = digits_end(s, from);
    &&& 0 <= from < whole
    &&& whole == s.len() || {
        &&& s[whole] == '.'
        &&& whole + 1 < digits_end(s, whole + 1)
        &&& digits_end(s, whole + 1) == s.len()
    }
}

/// Digits, optionally a dot and more digits: `12`, `0.5`.
pub open spec fn is_unsigned_decimal(s: Seq<char>) -> bool {
    is_plain_decimal_from(s, 0)
}

/// An unsigned decimal, optionally after a minus sign.
pub open spec fn is_signed_decimal(s: Seq<char>) -> bool {
    if s.len() > 0 && s[0] == '-' {
        is_plain_decimal_from(s, 1)
    } else {
        is_plain_decimal_from(s, 0)
    }
}

/// The text `0`, or a minus sign followed by an unsigned decimal.
pub open spec fn is_non_positive_decimal(s: Seq<char>) -> bool {
    s == seq!['0'] || (s.len() > 0 && s[0] == '-' && is_plain_decimal_from(s, 1))
}

/// Some position of `s` holds a digit other than zero.
pub open spec fn has_nonzero_digit(s: Seq<char>) -> bool {
    exists|i: int| 0 <= i < s.len() && '1' <= #[trigger] s[i] <= '9'
}

/// An unsigned decimal with a digit other than zero.
pub open spec fn is_nonzero_unsigned_decimal(s: Seq<char>) -> bool {
    is_unsigned_decimal(s) && has_nonzero_digit(s)
}

/// Three dot-separated runs of digits, optionally followed by a hyphen and
/// exactly eight digits: `2.2.0`, `2.0.1-20230314`.
pub open spec fn is_spec_version(s: Seq<char>) -> bool {
    let major = digits_end(s, 0);
    let minor = digits_end(s, major + 1);
    let patch = digits_end(s, minor + 1);
    &&& 0 < major < s.len()
    &&& s[major] == '.'
    &&& major + 1 < minor < s.len()
    &&& s[minor] == '.'
    &&& minor + 1 < patch
    &&& patch == s.len() || {
        &&& s[patch] == '-'
        &&& digits_end(s, patch + 1) == s.len()
        &&& s.len() == patch + 9
    }
}

/// `s` begins with `urn:`, the three letters in either case.
pub open spec fn has_urn_prefix(s: Seq<char>) -> bool {
    &&& s.len() >= 4
    &&& (s[0] == 'u' || s[0] == 'U')
    &&& (s[1] == 'r' || s[1] == 'R')
    &&& (s[2] == 'n' || s[2] == 'N')
    &&& s[3] == ':'
}

/// The letters `AR` followed by one or more digits: `AR5`, `AR6`.
pub open spec fn is_assessment_report(s: Seq<char>) -> bool {
    &&& s.len() >= 3
    &&& s[0] == 'A'
    &&& s[1] == 'R'
    &&& digits_end(s, 2) == s.len()
}

/// Every character of `s` is an ASCII capital letter.
pub open spec fn all_upper(s: Seq<char>) -> bool {
    forall|i: int| 0 <= i < s.len() ==> is_upper(#[trigger] s[i])
}

/// A run of digits lies inside the string and holds digits only.
pub proof fn lemma_digits_end(s: Seq<char>, from: int)
    requires
        0 <= from <= s.len(),
    ensures
        from <= digits_end(s, from) <= s.len(),
        forall|k: int| from <= k < digits_end(s, from) ==> is_digit(#[trigger] s[k]),
        digits_end(s, from) < s.len() ==> !is_digit(s[digits_end(s, from)]),
    decreases s.len() - from,
{
    if from < s.len() && is_digit(s[from]) {
        lemma_digits_end(s, from + 1);
    }
}

/// Text that reads as a plain decimal from `from` on is ASCII from there on.
pub proof fn lemma_plain_decimal_chars(s: Seq<char>, from: int)
    requires
        0 <= from <= s.len(),
        is_plain_decimal_from(s, from),
    ensures
        forall|k: int| from <= k < s.len() ==> is_digit(#[trigger] s[k]) || s[k] == '.',
{
    let whole = digits_end(s, from);
    lemma_digits_end(s, from);
    if whole < s.len() {
        lemma_digits_end(s, whole + 1);
    }
}

/// Scans the run of digits that starts at `from`.
pub fn scan_digits(s: &str, from: usize) -> (r: usize)
    requires
        s.is_ascii(),
        from <= s@.len(),
    ensures
        r == digits_end(s@, from as int),
        from <= r <= s@.len(),
{
    let n: usize = s.unicode_len();
    let mut i: usize = from;
    while i < n
        invariant
            s.is_ascii(),
            n == s@.len(),
            from <= i <= n,
            digits_end(s@, from as int) == digits_end(s@, i as int),
        decreases n - i,
    {
        let b: u8 = s.get_ascii(i);
        if b < 48 || b > 57 {
            return i;
        }
        i = i + 1;
    }
    i
}

/// Whether `s`, known to be ASCII, reads as a plain decimal from `from` on.
pub fn check_plain_decimal_from(s: &str, from: usize) -> (r: bool)
    requires
        s.is_ascii(),
        from <= s@.len(),
    ensures
        r == is_plain_decimal_from(s@, from as int),
{
    let n: usize = s.unicode_len();
    let whole: usize = scan_digits(s, from);
    if whole == from {
        return false;
    }
    if whole == n {
        return true;
    }
    if s.get_ascii(whole) != 46 {
        return false;
    }
    let frac: usize = scan_digits(s, whole + 1);
    frac > whole + 1 && frac == n
}

/// Whether `s` is digits, optionally followed by a dot and more digits.
pub fn matches_unsigned_decimal(s: &str) -> (r: bool)
    ensures
        r == is_unsigned_decimal(s@),
{
    if !s.is_ascii() {
        proof {
            if is_unsigned_decimal(s@) {
                lemma_plain_decimal_chars(s@, 0);
            }
        }
        return false;
    }
    check_plain_decimal_from(s, 0)
}

/// Whether `s` is an unsigned decimal, optionally after a minus sign.
pub fn matches_signed_decimal(s: &str) -> (r: bool)
    ensures
        r == is_signed_decimal(s@),
{
    if !s.is_ascii() {
        proof {
            if is_signed_decimal(s@) {
                if s@.len() > 0 && s@[0] == '-' {
                    lemma_plain_decimal_chars(s@, 1);
                } else {
                    lemma_plain_decimal_chars(s@, 0);
                }
            }
        }
        return false;
    }
    let n: usize = s.unicode_len();
    if n > 0 && s.get_ascii(0) == 45 {
        check_plain_decimal_from(s, 1)
    } else {
        check_plain_decimal_from(s, 0)
    }
}

/// Whether `s` is the text `0` or a minus sign followed by an unsigned decimal.
pub fn matches_non_positive_decimal(s: &str) -> (r: bool)
    ensures
        r == is_non_positive_decimal(s@),
{
    if !s.is_ascii() {
        proof {
            if is_non_positive_decimal(s@) {
                if s@ == seq!['0'] {
                    assert(s@[0] == '0');
                } else {
                    lemma_plain_decimal_chars(s@, 1);
                }
            }
        }
        return false;
    }
    let n: usize = s.unicode_len();
    if n == 0 {
        return false;
    }
    let first: u8 = s.get_ascii(0);
    if n == 1 && first == 48 {
        assert(s@ =~= seq!['0']);
        return true;
    }
    if first == 45 {
        check_plain_decimal_from(s, 1)
    } else {
        false
    }
}

/// Whether some position of `s`, known to be ASCII, holds a digit from 1 to 9.
pub fn contains_nonzero_digit(s: &str) -> (r: bool)
    requires
        s.is_ascii(),
    ensures
        r == has_nonzero_digit(s@),
{
    let n: usize = s.unicode_len();
    let mut i: usize = 0;
    while i < n
        invariant
            s.is_ascii(),
            n == s@.len(),
            i <= n,
            forall|k: int| 0 <= k < i ==> !('1' <= #[trigger] s@[k] <= '9'),
        decreases n - i,
    {
        let b: u8 = s.get_ascii(i);
        if 49 <= b && b <= 57 {
            assert('1' <= s@[i as int] <= '9');
            return true;
        }
        i = i + 1;
    }
    false
}

/// Whether `s` is an unsigned decimal with a digit other than zero.
pub fn matches_nonzero_unsigned_decimal(s: &str) -> (r: bool)
    ensures
        r == is_nonzero_unsigned_decimal(s@),
{
    if matches_unsigned_decimal(s) {
        proof {
            lemma_plain_decimal_chars(s@, 0);
        }
        contains_nonzero_digit(s)
    } else {
        false
    }
}

/// Whether `s` is a version of three numbers with an optional date suffix.
pub fn matches_spec_version(s: &str) -> (r: bool)
    ensures
        r == is_spec_version(s@),
{
    if !s.is_ascii() {
        proof {
            if is_spec_version(s@) {
                let major = digits_end(s@, 0);
                let minor = digits_end(s@, major + 1);
                let patch = digits_end(s@, minor + 1);
                lemma_digits_end(s@, 0);
                lemma_digits_end(s@, major + 1);
                lemma_digits_end(s@, minor + 1);
                if patch < s@.len() {
                    lemma_digits_end(s@, patch + 1);
                }
                assert forall|k: int| 0 <= k < s@.len() implies '\0' <= #[trigger] s@[k]
                    <= '\u{7f}' by {
                    if k < major {
                    } else if k == major {
                    } else if k < minor {
                    } else if k == minor {
                    } else if k < patch {
                    } else if k == patch {
                    } else {
                    }
                }
            }
        }
        return false;
    }
    let n: usize = s.unicode_len();
    let major: usize = scan_digits(s, 0);
    if major == 0 || major >= n || s.get_ascii(major) != 46 {
        return false;
    }
    let minor: usize = scan_digits(s, major + 1);
    if minor == major + 1 || minor >= n || s.get_ascii(minor) != 46 {
        return false;
    }
    let patch: usize = scan_digits(s, minor + 1);
    if patch == minor + 1 {
        return false;
    }
    if patch == n {
        return true;
    }
    if s.get_ascii(patch) != 45 {
        return false;
    }
    let date: usize = scan_digits(s, patch + 1);
    date == n && n - patch == 9
}

/// Whether `s` begins with `urn:`, the three letters in either case.
pub fn starts_with_urn(s: &str) -> (r: bool)
    ensures
        r == has_urn_prefix(s@),
{
    let n: usize = s.unicode_len();
    if n < 4 {
        return false;
    }
    let c0: char = s.get_char(0);
    let c1: char = s.get_char(1);
    let c2: char = s.get_char(2);
    let c3: char = s.get_char(3);
    (c0 == 'u' || c0 == 'U') && (c1 == 'r' || c1 == 'R') && (c2 == 'n' || c2 == 'N') && c3 == ':'
}

/// Whether `s` is exactly two ASCII capital letters.
pub fn is_two_capitals(s: &str) -> (r: bool)
    ensures
        r == (s@.len() == 2 && all_upper(s@)),
{
    let n: usize = s.unicode_len();
    if n != 2 {
        return false;
    }
    let c0: char = s.get_char(0);
    let c1: char = s.get_char(1);
    let r = 'A' <= c0 && c0 <= 'Z' && 'A' <= c1 && c1 <= 'Z';
    proof {
        if r {
            assert forall|i: int| 0 <= i < s@.len() implies is_upper(#[trigger] s@[i]) by {
                if i == 0 {
                } else {
                }
            }
        } else {
            assert(!is_upper(s@[0]) || !is_upper(s@[1]));
        }
    }
    r
}

/// Whether `s` is `AR` followed by one or more digits.
pub fn matches_assessment_report(s: &str) -> (r: bool)
    ensures
        r == is_assessment_report(s@),
{
    if !s.is_ascii() {
        proof {
            if is_assessment_report(s@) {
                lemma_digits_end(s@, 2);
                assert forall|k: int| 0 <= k < s@.len() implies '\0' <= #[trigger] s@[k]
                    <= '\u{7f}' by {
                    if k >= 2 {
                        assert(is_digit(s@[k]));
                    }
                }
            }
        }
        return false;
    }
    let n: usize = s.unicode_len();
    if n < 3 || s.get_ascii(0) != 65 || s.get_ascii(1) != 82 {
        return false;
    }
    scan_digits(s, 2) == n
}

/// The decimal digit that stands for a number below ten.
pub open spec fn digit_char(d: nat) -> char {
    (d + 48) as char
}

/// The decimal digits of a number, without leading zeros.
pub open spec fn digits_of(n: nat) -> Seq<char>
    decreases n,
{
    if n < 10 {
        seq![digit_char(n)]
    } else {
        digits_of(n / 10).push(digit_char(n % 10))
    }
}

/// Writes a number of up to 128 bits in decimal digits.
pub fn magnitude_text(n: u128) -> (r: String)
    ensures
        r@ == digits_of(n as nat),
{
    let mut reversed: Vec<char> = Vec::new();
    let mut rest: u128 = n;
    while rest >= 10
        invariant
            digits_of(n as nat) == digits_of(rest as nat) + reverse_of(reversed@),
        decreases rest,
    {
        let d: u8 = (rest % 10) as u8;
        let ghost before = reversed@;
        reversed.push((d + 48) as char);
        proof {
            assert(reverse_of(reversed@) =~= seq![digit_char((rest % 10) as nat)] + reverse_of(
                before,
            )) by {
                lemma_reverse_push(before, digit_char((rest % 10) as nat));
            }
            assert(digits_of(rest as nat) == digits_of((rest / 10) as nat).push(
                digit_char((rest % 10) as nat),
            ));
            assert(digits_of(rest as nat) + reverse_of(before) =~= digits_of((rest / 10) as nat)
                + reverse_of(reversed@));
        }
        rest = rest / 10;
    }
    let mut text = String::new();
    text.push(((rest as u8) + 48) as char);
    let mut i: usize = reversed.len();
    while i > 0
        invariant
            i <= reversed@.len(),
            rest < 10,
            text@ == digits_of(rest as nat) + reverse_of(reversed@.skip(i as int)),
        decreases i,
    {
        i = i - 1;
        text.push(reversed[i]);
        proof {
            let tail = reversed@.skip(i + 1);
            assert(reversed@.skip(i as int) =~= seq![reversed@[i as int]] + tail);
            lemma_reverse_prepend(tail, reversed@[i as int]);
            assert(text@ =~= digits_of(rest as nat) + reverse_of(reversed@.skip(i as int)));
        }
    }
    proof {
        assert(reversed@.skip(0) =~= reversed@);
    }
    text
}

/// Writes a number in decimal digits.
pub fn number_text(n: usize) -> (r: String)
    ensures
        r@ == digits_of(n as nat),
{
    magnitude_text(n as u128)
}

/// The decimal digits of a whole number, after a minus sign where it is
/// below zero.
pub open spec fn integer_digits(n: int) -> Seq<char> {
    if n < 0 {
        seq!['-'] + digits_of((-n) as nat)
    } else {
        digits_of(n as nat)
    }
}

/// Writes a whole number in decimal digits, after a minus sign where it is
/// below zero.
pub fn integer_text(n: i128) -> (r: String)
    ensures
        r@ == integer_digits(n as int),
{
    if n < 0 {
        let magnitude: u128 = ((-(n + 1)) as u128) + 1;
        let mut text = String::new();
        text.push('-');
        text.append(magnitude_text(magnitude).as_str());
        assert(text@ =~= seq!['-'] + digits_of((-n) as nat));
        text
    } else {
        magnitude_text(n as u128)
    }
}

/// The sequence read backwards.
pub open spec fn reverse_of(s: Seq<char>) -> Seq<char>
    decreases s.len(),
{
    if s.len() == 0 {
        s
    } else {
        reverse_of(s.drop_first()).push(s[0])
    }
}

/// Reading a sequence backwards puts an element pushed at its end in front.
pub proof fn lemma_reverse_push(s: Seq<char>, c: char)
    ensures
        reverse_of(s.push(c)) =~= seq![c] + reverse_of(s),
    decreases s.len(),
{
    if s.len() == 0 {
        assert(s.push(c).drop_first() =~= s);
        assert(reverse_of(s.push(c).drop_first()).len() == 0);
    } else {
        assert(s.push(c).drop_first() =~= s.drop_first().push(c));
        lemma_reverse_push(s.drop_first(), c);
    }
}

/// Reading a sequence backwards puts an element in front of it at the end.
pub proof fn lemma_reverse_prepend(s: Seq<char>, c: char)
    ensures
        reverse_of(seq![c] + s) =~= reverse_of(s).push(c),
{
    assert((seq![c] + s).drop_first() =~= s);
}

/// `s` begins with `prefix`.
pub open spec fn starts_with(s: Seq<char>, prefix: Seq<char>) -> bool {
    prefix.len() <= s.len() && s.subrange(0, prefix.len() as int) == prefix
}

/// Whether `s` begins with `prefix`.
pub fn has_prefix(s: &str, prefix: &str) -> (r: bool)
    ensures
        r == starts_with(s@, prefix@),
{
    let n = prefix.unicode_len();
    if s.unicode_len() < n {
        return false;
    }
    let mut i: usize = 0;
    while i < n
        invariant
            n == prefix@.len(),
            n <= s@.len(),
            i <= n,
            forall|k: int| 0 <= k < i ==> s@[k] == prefix@[k],
        decreases n - i,
    {
        if s.get_char(i) != prefix.get_char(i) {
            assert(s@.subrange(0, n as int)[i as int] != prefix@[i as int]);
            return false;
        }
        i = i + 1;
    }
    assert(s@.subrange(0, n as int) =~= prefix@);
    true
}

} // verus!
