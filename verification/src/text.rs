//! Text helpers: character and UTF-8 byte views of strings, decimal
//! rendering of integers, and the few standard-library string operations
//! that the decoder relies on.
use vstd::prelude::*;
use vstd::utf8::*;
use vstd::string::StringSliceAdditionalSpecFns;

verus! {

broadcast use {encode_utf8_valid_utf8, encode_utf8_decode_utf8};

/// What `str::to_uppercase` returns for a string with the given characters
/// (Unicode uppercase mapping, which may change the number of characters).
pub uninterp spec fn uppercase_of(s: Seq<char>) -> Seq<char>;

/// A character with the Unicode White_Space property (PropList.txt), which is
/// what `char::is_whitespace` and `str::trim` go by.
pub open spec fn is_white_space(c: char) -> bool {
    let u = c as u32;
    ||| 0x09 <= u <= 0x0d
    ||| u == 0x20
    ||| u == 0x85
    ||| u == 0xa0
    ||| u == 0x1680
    ||| 0x2000 <= u <= 0x200a
    ||| u == 0x2028
    ||| u == 0x2029
    ||| u == 0x202f
    ||| u == 0x205f
    ||| u == 0x3000
}

/// The text without its leading white space.
pub open spec fn trim_start(s: Seq<char>) -> Seq<char>
    decreases s.len(),
{
    if s.len() > 0 && is_white_space(s[0]) {
        trim_start(s.drop_first())
    } else {
        s
    }
}

/// The text without its trailing white space.
pub open spec fn trim_end(s: Seq<char>) -> Seq<char>
    decreases s.len(),
{
    if s.len() > 0 && is_white_space(s.last()) {
        trim_end(s.drop_last())
    } else {
        s
    }
}

/// What `str::trim` returns: the text without its leading and trailing white
/// space.
pub open spec fn trimmed(s: Seq<char>) -> Seq<char> {
    trim_end(trim_start(s))
}

/// The upper case of an ASCII character: 'a' to 'z' become 'A' to 'Z', any
/// other character stays.
pub open spec fn ascii_upper_char(c: char) -> char {
    if 'a' <= c <= 'z' {
        ((c as u32) - 32) as char
    } else {
        c
    }
}

/// The ASCII upper case of each character.
pub open spec fn ascii_upper(s: Seq<char>) -> Seq<char> {
    s.map_values(|c: char| ascii_upper_char(c))
}

/// What `str::to_uppercase` returns: for ASCII text, the ASCII upper case of
/// each character (the Unicode mapping of an ASCII character is its ASCII
/// upper case); for other text, the result named by `uppercase_of`.
pub open spec fn upper_text(s: Seq<char>) -> Seq<char> {
    if is_ascii_chars(s) {
        ascii_upper(s)
    } else {
        uppercase_of(s)
    }
}

/// Calls `str::to_uppercase`. The contract states the ASCII case and only
/// names the result for other text: the Unicode case mapping is not written
/// out here.
#[verifier::external_body]
pub(crate) fn to_uppercase(s: &str) -> (r: String)
    ensures
        is_ascii_chars(s@) ==> r@ == ascii_upper(s@),
        !is_ascii_chars(s@) ==> r@ == uppercase_of(s@),
{
    s.to_uppercase()
}

/// Calls `str::trim`, which, per its documentation, removes the leading and
/// trailing characters with the Unicode White_Space property.
#[verifier::external_body]
pub(crate) fn trim(s: &str) -> (r: &str)
    ensures
        r@ == trimmed(s@),
{
    s.trim()
}

/// Calls `String::from_iter` on the characters of a slice: the resulting
/// string holds exactly those characters, in order.
#[verifier::external_body]
pub(crate) fn string_from_chars(v: &[char]) -> (r: String)
    ensures
        r@ == v@,
{
    String::from_iter(v.iter())
}

/// Calls `String::from_utf8`, which succeeds exactly when the bytes are valid
/// UTF-8 and then holds the characters that they encode.
#[verifier::external_body]
pub(crate) fn string_from_utf8(v: Vec<u8>) -> (r: Option<String>)
    ensures
        r is Some <==> valid_utf8(v@),
        r matches Some(s) ==> s@ == decode_utf8(v@),
{
    String::from_utf8(v).ok()
}

/// The characters of `s`, in order.
pub fn chars_of(s: &str) -> (r: Vec<char>)
    ensures
        r@ == s@,
{
    let mut r: Vec<char> = Vec::new();
    for c in it: s.chars()
        invariant
            r@ == it.seq().take(it.index() as int),
            it.seq() == s@,
    {
        r.push(c);
    }
    r
}

/// Whether two strings hold the same characters.
pub fn str_eq(a: &str, b: &str) -> (r: bool)
    ensures
        r == (a@ == b@),
{
    let x = chars_of(a);
    let y = chars_of(b);
    if x.len() != y.len() {
        return false;
    }
    let mut i: usize = 0;
    while i < x.len()
        invariant
            x@ == a@,
            y@ == b@,
            x.len() == y.len(),
            i <= x.len(),
            forall|k: int| 0 <= k < i ==> x@[k] == y@[k],
        decreases x.len() - i,
    {
        if x[i] != y[i] {
            return false;
        }
        i = i + 1;
    }
    assert(x@ =~= y@);
    true
}

/// Whether an optional string holds exactly the given characters.
pub fn opt_str_is(a: &Option<String>, b: &str) -> (r: bool)
    ensures
        r == (a matches Some(s) && s@ == b@),
{
    match a {
        Some(s) => str_eq(s.as_str(), b),
        None => false,
    }
}

/// A copy of an optional string.
pub fn copy_opt_string(a: &Option<String>) -> (r: Option<String>)
    ensures
        r == *a,
{
    match a {
        Some(s) => Some(s.clone()),
        None => None,
    }
}

/// A new string holding the characters of `s`.
pub fn owned(s: &str) -> (r: String)
    ensures
        r@ == s@,
{
    s.to_owned()
}

/// The decimal digit character for `d` (0 to 9).
pub open spec fn digit_char(d: int) -> char {
    ((48 + d) as u32) as char
}

/// The decimal digits of a natural number, most significant first, without
/// leading zeros ("0" for zero).
pub open spec fn decimal_digits(n: nat) -> Seq<char>
    decreases n,
{
    if n < 10 {
        seq![digit_char(n as int)]
    } else {
        decimal_digits(n / 10).push(digit_char((n % 10) as int))
    }
}

/// The decimal rendering of an integer, with a leading '-' when it is
/// negative: what `to_string` gives for an `i32`.
pub open spec fn decimal_of(n: int) -> Seq<char> {
    if n < 0 {
        seq!['-'] + decimal_digits((-n) as nat)
    } else {
        decimal_digits(n as nat)
    }
}

fn push_digits(m: u32, out: &mut Vec<char>)
    ensures
        final(out)@ == old(out)@ + decimal_digits(m as nat),
    decreases m,
{
    if m >= 10 {
        push_digits(m / 10, out);
    }
    let d: u8 = (m % 10) as u8;
    let c: char = (48u8 + d) as char;
    assert(c == digit_char((m % 10) as int));
    out.push(c);
    assert(decimal_digits(m as nat) == if m < 10 {
        seq![digit_char(m as int)]
    } else {
        decimal_digits((m / 10) as nat).push(digit_char((m % 10) as int))
    });
}

/// The decimal rendering of `n`.
pub fn decimal_string(n: i32) -> (r: String)
    ensures
        r@ == decimal_of(n as int),
{
    let mut out: Vec<char> = Vec::new();
    let m: u32;
    if n < 0 {
        out.push('-');
        let w: i64 = -(n as i64);
        m = w as u32;
    } else {
        m = n as u32;
    }
    push_digits(m, &mut out);
    proof {
        if n < 0 {
            assert(out@ =~= seq!['-'] + decimal_digits((-n) as nat));
        } else {
            assert(out@ =~= decimal_digits(n as nat));
        }
    }
    string_from_chars(out.as_slice())
}

/// The optional decimal rendering of an optional integer.
pub fn opt_decimal_string(n: Option<i32>) -> (r: Option<String>)
    ensures
        r is Some <==> n is Some,
        r matches Some(s) ==> s@ == decimal_of(n->0 as int),
{
    match n {
        Some(x) => Some(decimal_string(x)),
        None => None,
    }
}

/// A character boundary of a valid encoding is still one in any longer
/// prefix that ends on a boundary.
pub proof fn lemma_boundary_in_prefix(b: Seq<u8>, i: int, k: int)
    requires
        valid_utf8(b),
        is_char_boundary(b, i),
        is_char_boundary(b, k),
        0 <= i <= k,
    ensures
        valid_utf8(b.take(k)),
        is_char_boundary(b.take(k), i),
{
    valid_utf8_split(b, k);
    let p = b.take(k);
    if i == 0 {
    } else if i == k {
        is_char_boundary_start_end_of_seq(p);
        assert(p.len() == k);
    } else {
        is_char_boundary_iff_not_is_continuation_byte(b, i);
        is_char_boundary_iff_not_is_continuation_byte(p, i);
    }
}

/// The bytes between two character boundaries of a valid encoding are
/// themselves a valid encoding.
pub proof fn lemma_valid_between(b: Seq<u8>, i: int, k: int)
    requires
        valid_utf8(b),
        is_char_boundary(b, i),
        is_char_boundary(b, k),
        0 <= i <= k,
    ensures
        valid_utf8(b.subrange(i, k)),
{
    lemma_boundary_in_prefix(b, i, k);
    valid_utf8_split(b.take(k), i);
    assert(b.take(k).subrange(i, b.take(k).len() as int) =~= b.subrange(i, k));
}

/// A single ASCII byte is a valid encoding.
pub proof fn lemma_ascii_byte_valid(x: u8)
    requires
        x < 0x80,
    ensures
        valid_utf8(seq![x]),
{
    reveal_with_fuel(valid_utf8, 2);
    assert(pop_first_scalar(seq![x]) =~= Seq::<u8>::empty());
}

/// Replacing a one-byte character of a valid encoding by an ASCII byte keeps
/// the encoding valid.
pub proof fn lemma_replace_ascii_valid(b: Seq<u8>, i: int, x: u8)
    requires
        valid_utf8(b),
        is_char_boundary(b, i),
        is_char_boundary(b, i + 1),
        0 <= i,
        x < 0x80,
    ensures
        valid_utf8(b.update(i, x)),
{
    valid_utf8_split(b, i);
    valid_utf8_split(b, i + 1);
    lemma_ascii_byte_valid(x);
    let l = b.take(i);
    let r = b.subrange(i + 1, b.len() as int);
    valid_utf8_concat(l, seq![x]);
    valid_utf8_concat(l + seq![x], r);
    assert(b.update(i, x) =~= l + seq![x] + r);
}

/// The part of `s` between two byte offsets that fall on character
/// boundaries.
pub fn substring(s: &str, i: usize, k: usize) -> (r: &str)
    requires
        i <= k,
        is_char_boundary(s.spec_bytes(), i as int),
        is_char_boundary(s.spec_bytes(), k as int),
    ensures
        r.spec_bytes() == s.spec_bytes().subrange(i as int, k as int),
        r@ == decode_utf8(s.spec_bytes().subrange(i as int, k as int)),
{
    proof {
        lemma_boundary_in_prefix(s.spec_bytes(), i as int, k as int);
    }
    let (head, _) = s.split_at(k);
    let (_, mid) = head.split_at(i);
    proof {
        assert(mid.spec_bytes() =~= s.spec_bytes().subrange(i as int, k as int));
        encode_utf8_decode_utf8(mid@);
    }
    mid
}

} // verus!
