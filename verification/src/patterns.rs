//! Regular expressions, evaluated by the `regex` crate.
use vstd::prelude::*;
use vstd::utf8::is_ascii_chars;

verus! {

/// Whether `regex::bytes::Regex::new` accepts the pattern.
pub uninterp spec fn bytes_regex_compiles(pattern: Seq<char>) -> bool;

/// Whether `regex::bytes::Regex::find`, for the regex compiled from the
/// pattern, finds a match in the haystack.
pub uninterp spec fn bytes_regex_finds(pattern: Seq<char>, haystack: Seq<u8>) -> bool;

/// Whether `regex::Regex::new` accepts the pattern.
pub uninterp spec fn regex_compiles(pattern: Seq<char>) -> bool;

/// What `regex::Regex::replace_all`, for the regex compiled from the pattern,
/// returns for the haystack and the replacement string.
pub uninterp spec fn regex_replaced(
    pattern: Seq<char>,
    haystack: Seq<char>,
    replacement: Seq<char>,
) -> Seq<char>;

/// The outcome of matching a byte haystack against a pattern: `None` when the
/// pattern does not compile.
pub open spec fn bytes_match_outcome(pattern: Seq<char>, haystack: Seq<u8>) -> Option<bool> {
    if bytes_regex_compiles(pattern) {
        Some(bytes_regex_finds(pattern, haystack))
    } else {
        None
    }
}

/// The bytes that one of the model-year code patterns matches, as an
/// inclusive range: a character class of an ASCII range, or one ASCII letter.
pub open spec fn code_class_range(pattern: Seq<char>) -> Option<(u8, u8)> {
    if pattern == "[A-H]"@ {
        Some((0x41u8, 0x48u8))
    } else if pattern == "[J-N]"@ {
        Some((0x4au8, 0x4eu8))
    } else if pattern == "[R-T]"@ {
        Some((0x52u8, 0x54u8))
    } else if pattern == "[V-Y]"@ {
        Some((0x56u8, 0x59u8))
    } else if pattern == "[1-9]"@ {
        Some((0x31u8, 0x39u8))
    } else if pattern == "P"@ {
        Some((0x50u8, 0x50u8))
    } else {
        None
    }
}

/// The byte lies in the range of the model-year code pattern.
pub open spec fn in_code_class(pattern: Seq<char>, b: u8) -> bool {
    match code_class_range(pattern) {
        Some((lo, hi)) => lo <= b <= hi,
        None => false,
    }
}

/// Compiles `pattern` with `regex::bytes::Regex::new` and reports whether
/// `find` locates a match in `haystack`; `None` when the pattern does not
/// compile. The contract names both results. For the six model-year code
/// patterns (see `code_class_range`) and a one-byte haystack it also states,
/// as the regex syntax documentation gives it, that the pattern compiles and
/// matches exactly when the byte lies in the pattern's range.
#[verifier::external_body]
pub(crate) fn bytes_regex_match(haystack: &[u8], pattern: &str) -> (r: Option<bool>)
    ensures
        r is Some <==> bytes_regex_compiles(pattern@),
        r matches Some(found) ==> found == bytes_regex_finds(pattern@, haystack@),
        haystack@.len() == 1 && code_class_range(pattern@) is Some ==> r == Some(
            in_code_class(pattern@, haystack@[0]),
        ),
{
    Some(regex::bytes::Regex::new(pattern).ok()?.find(haystack).is_some())
}

/// The pattern of a decimal digit.
pub open spec fn digit_pattern() -> Seq<char> {
    "\\d"@
}

/// The pattern whose matches are blanked out of decoded values: the texts
/// "9", "13" and "10".
pub open spec fn value_pattern() -> Seq<char> {
    "((9)|(13)|(10))"@
}

/// One of the two patterns the decoder uses with `regex::Regex`.
pub open spec fn known_pattern(pattern: Seq<char>) -> bool {
    pattern == digit_pattern() || pattern == value_pattern()
}

/// Every ASCII digit of `s` replaced by `rep`.
pub open spec fn replace_ascii_digits(s: Seq<char>, rep: Seq<char>) -> Seq<char>
    decreases s.len(),
{
    if s.len() == 0 {
        s
    } else if '0' <= s[0] <= '9' {
        rep + replace_ascii_digits(s.drop_first(), rep)
    } else {
        seq![s[0]] + replace_ascii_digits(s.drop_first(), rep)
    }
}

/// Every match of `value_pattern` in `s`, leftmost first and not
/// overlapping, replaced by `rep`: at each position the alternatives "9",
/// "13" and "10" are tried in turn, and a match resumes the scan after it.
pub open spec fn replace_value_codes(s: Seq<char>, rep: Seq<char>) -> Seq<char>
    decreases s.len(),
{
    if s.len() == 0 {
        s
    } else if s[0] == '9' {
        rep + replace_value_codes(s.drop_first(), rep)
    } else if s.len() >= 2 && s[0] == '1' && (s[1] == '3' || s[1] == '0') {
        rep + replace_value_codes(s.subrange(2, s.len() as int), rep)
    } else {
        seq![s[0]] + replace_value_codes(s.drop_first(), rep)
    }
}

/// A replacement without `$`, which `replace_all` inserts as it is.
pub open spec fn is_literal_replacement(rep: Seq<char>) -> bool {
    !rep.contains('$')
}

/// The optional string holds the given text.
pub open spec fn gives_text(r: Option<String>, t: Seq<char>) -> bool {
    r matches Some(s) && s@ == t
}

/// Compiles `pattern` with `regex::Regex::new` and returns what `replace_all`
/// makes of `haystack` with `replacement`; `None` when the pattern does not
/// compile. The contract names both results. For the decoder's two patterns
/// it also states, as the regex syntax documentation gives it, that they
/// compile, and, for a replacement without `$` (which is then inserted as it
/// is), what the replacement gives: for the value pattern on any text, and
/// for the digit pattern on ASCII text (whose only decimal digits are '0' to
/// '9').
#[verifier::external_body]
pub(crate) fn regex_replace_all(pattern: &str, haystack: &str, replacement: &str) -> (r: Option<String>)
    ensures
        r is Some <==> regex_compiles(pattern@),
        r matches Some(s) ==> s@ == regex_replaced(pattern@, haystack@, replacement@),
        known_pattern(pattern@) ==> r is Some,
        pattern@ == value_pattern() && is_literal_replacement(replacement@) ==> gives_text(
            r,
            replace_value_codes(haystack@, replacement@),
        ),
        pattern@ == digit_pattern() && is_ascii_chars(haystack@) && is_literal_replacement(
            replacement@,
        ) ==> gives_text(r, replace_ascii_digits(haystack@, replacement@)),
{
    Some(regex::Regex::new(pattern).ok()?.replace_all(haystack, replacement).to_string())
}

/// Calls `regex::Regex::new` and reports whether it accepts the pattern; it
/// accepts the decoder's two patterns.
#[verifier::external_body]
pub(crate) fn regex_is_valid(pattern: &str) -> (r: bool)
    ensures
        r == regex_compiles(pattern@),
        known_pattern(pattern@) ==> r,
{
    regex::Regex::new(pattern).is_ok()
}

} // verus!
