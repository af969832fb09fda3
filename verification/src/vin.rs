//! The parts of a VIN that the decoder reads: the descriptor used to look up
//! a model year, the world manufacturer identifier (WMI), and the model year
//! encoded in position 10.
//!
//! VINs are sliced by byte offsets; a slice whose ends are not UTF-8
//! character boundaries would panic, so each function here requires those
//! boundaries, as stated by its spec predicate.
use vstd::prelude::*;
use vstd::utf8::*;
use vstd::string::StringSliceAdditionalSpecFns;

use crate::clock::{clock_year, this_year, ClockError};
use crate::patterns::{bytes_match_outcome, bytes_regex_match, code_class_range};
use crate::text::{
    chars_of, lemma_replace_ascii_valid, lemma_valid_between, string_from_chars, string_from_utf8,
    substring, to_uppercase, upper_text,
};

verus! {

broadcast use {encode_utf8_valid_utf8, encode_utf8_decode_utf8};

/// The characters of `c` padded on the right with '*' to 17 characters.
pub open spec fn star_padded(c: Seq<char>) -> Seq<char> {
    if c.len() < 17 {
        c + Seq::new((17 - c.len()) as nat, |_i: int| '*')
    } else {
        c
    }
}

/// The byte offsets that `vin_descriptor` slices at fall on character
/// boundaries of the padded VIN.
pub open spec fn descriptor_accepts(c: Seq<char>) -> bool {
    let b = encode_utf8(star_padded(c));
    &&& is_char_boundary(b, 2)
    &&& is_char_boundary(b, 3)
    &&& is_char_boundary(b, 8)
    &&& is_char_boundary(b, 9)
    &&& is_char_boundary(b, 11)
    &&& (b[2] == 0x39 ==> is_char_boundary(b, 14))
}

/// The descriptor of a VIN: pad it with '*' to 17 characters, mask the check
/// digit (byte 9) with '*', then keep the first 14 bytes when byte 3 is '9'
/// (a small manufacturer, whose descriptor is not upper-cased), else the first
/// 11 bytes, upper-cased.
pub open spec fn descriptor_of(c: Seq<char>) -> Seq<char> {
    let b = encode_utf8(star_padded(c)).update(8, 0x2a);
    if b[2] == 0x39 {
        decode_utf8(b.take(14))
    } else {
        upper_text(decode_utf8(b.take(11)))
    }
}

proof fn lemma_boundary_after_replace(b: Seq<u8>, i: int, x: u8, k: int)
    requires
        valid_utf8(b),
        is_char_boundary(b, i),
        is_char_boundary(b, i + 1),
        is_char_boundary(b, k),
        0 <= i,
        x < 0x80,
    ensures
        valid_utf8(b.update(i, x)),
        is_char_boundary(b.update(i, x), k),
{
    lemma_replace_ascii_valid(b, i, x);
    let u = b.update(i, x);
    if k == 0 {
    } else if k == b.len() {
        is_char_boundary_start_end_of_seq(u);
    } else {
        is_char_boundary_iff_not_is_continuation_byte(b, k);
        is_char_boundary_iff_not_is_continuation_byte(u, k);
        if k == i {
            is_char_boundary_iff_not_is_continuation_byte(b, i);
        }
    }
}

/// The VIN descriptor used to look up a model year: see `descriptor_of`.
pub fn vin_descriptor(v: &str) -> (r: String)
    requires
        descriptor_accepts(v@),
    ensures
        r@ == descriptor_of(v@),
{
    let mut cs = chars_of(v);
    while cs.len() < 17
        invariant
            v@.len() <= cs@.len() <= if v@.len() < 17 { 17 } else { v@.len() },
            cs@ =~= v@ + Seq::new((cs@.len() - v@.len()) as nat, |_i: int| '*'),
        decreases 17 - cs.len(),
    {
        cs.push('*');
    }
    proof {
        if v@.len() >= 17 {
            assert(cs@ =~= v@);
        }
        assert(cs@ =~= star_padded(v@));
    }
    let padded = string_from_chars(cs.as_slice());
    let b = padded.as_str().as_bytes();
    let ghost bs = encode_utf8(star_padded(v@));
    assert(b@ == bs);
    proof {
        reveal_with_fuel(is_char_boundary, 1);
        assert(bs.len() >= 11);
    }
    let nine = b[2] == 0x39u8;
    let n: usize = if nine { 14 } else { 11 };
    let ghost masked = bs.update(8, 0x2a);
    let mut out: Vec<u8> = Vec::new();
    let mut i: usize = 0;
    while i < n
        invariant
            b@ == bs,
            masked == bs.update(8, 0x2a),
            11 <= n <= bs.len(),
            i <= n,
            out@ =~= masked.take(i as int),
        decreases n - i,
    {
        if i == 8 {
            out.push(0x2au8);
        } else {
            out.push(b[i]);
        }
        assert(masked.take(i as int + 1) =~= masked.take(i as int).push(masked[i as int]));
        i = i + 1;
    }
    proof {
        lemma_boundary_after_replace(bs, 8, 0x2a, n as int);
        valid_utf8_split(masked, n as int);
        assert(out@ =~= masked.take(n as int));
    }
    let s = string_from_utf8(out).unwrap();
    if nine {
        s
    } else {
        to_uppercase(s.as_str())
    }
}

/// The byte offsets that `vin_wmi` slices at fall on character boundaries
/// and the VIN has at least three bytes.
pub open spec fn wmi_accepts(c: Seq<char>) -> bool {
    let b = encode_utf8(c);
    &&& b.len() >= 3
    &&& is_char_boundary(b, 2)
    &&& is_char_boundary(b, 3)
    &&& ((b[2] == 0x39 && b.len() >= 14) ==> is_char_boundary(b, 11) && is_char_boundary(b, 14))
}

/// The world manufacturer identifier of a VIN: its first three bytes, followed
/// by bytes 12 to 14 when the third byte is '9' and the VIN has at least 14
/// bytes (a manufacturer building fewer than 1000 vehicles a year).
pub open spec fn wmi_of(c: Seq<char>) -> Seq<char> {
    let b = encode_utf8(c);
    if b[2] == 0x39 && b.len() >= 14 {
        decode_utf8(b.take(3) + b.subrange(11, 14))
    } else {
        decode_utf8(b.take(3))
    }
}

/// The world manufacturer identifier of `vin`: see `wmi_of`.
pub fn vin_wmi(vin: &str) -> (r: String)
    requires
        wmi_accepts(vin@),
    ensures
        r@ == wmi_of(vin@),
{
    let b = vin.as_bytes();
    let ghost bs = encode_utf8(vin@);
    assert(b@ == bs);
    let n = b.len();
    let mut out: Vec<u8> = Vec::new();
    out.push(b[0]);
    out.push(b[1]);
    out.push(b[2]);
    assert(out@ =~= bs.take(3));
    proof {
        valid_utf8_split(bs, 3);
    }
    if b[2] == 0x39u8 && n >= 14 {
        out.push(b[11]);
        out.push(b[12]);
        out.push(b[13]);
        proof {
            assert(out@ =~= bs.take(3) + bs.subrange(11, 14));
            lemma_valid_between(bs, 11, 14);
            valid_utf8_concat(bs.take(3), bs.subrange(11, 14));
        }
    }
    string_from_utf8(out).unwrap()
}

/// Whether `vin_wmi` can read `vin`.
pub fn wmi_readable(vin: &str) -> (r: bool)
    ensures
        r == wmi_accepts(vin@),
{
    let b = vin.as_bytes();
    let n = b.len();
    if n < 3 || !vin.is_char_boundary(2) || !vin.is_char_boundary(3) {
        return false;
    }
    if b[2] == 0x39u8 && n >= 14 {
        vin.is_char_boundary(11) && vin.is_char_boundary(14)
    } else {
        true
    }
}

/// The offset of the first byte of `h` from `base`, if `h` has a byte.
pub open spec fn offset_of(h: Seq<u8>, base: int) -> Option<int> {
    if h.len() == 0 {
        None
    } else {
        Some(h[0] - base)
    }
}

/// The offset of the first byte of `my` from the code point of `val`; `None`
/// when `my` is empty.
pub fn offset_from(my: &str, val: char) -> (r: Option<i32>)
    ensures
        r matches Some(o) ==> offset_of(my.spec_bytes(), val as int) == Some(o as int),
        r is None ==> offset_of(my.spec_bytes(), val as int) is None,
{
    let bs = my.as_bytes();
    if bs.len() == 0 {
        None
    } else {
        let v: u32 = val as u32;
        assert(v <= 0x10FFFF) by {
            char_is_scalar(val);
        }
        let b0: i32 = bs[0] as i32;
        Some(b0 - v as i32)
    }
}

/// Which of the model-year code classes a position-10 code matches, each
/// `None` when its pattern does not compile.
pub struct CodeClassMatches {
    /// Pattern "[A-H]": model years 2010 to 2017.
    pub a_to_h: Option<bool>,
    /// Pattern "[J-N]": model years 2018 to 2022.
    pub j_to_n: Option<bool>,
    /// Pattern "[R-T]": model years 2024 to 2026.
    pub r_to_t: Option<bool>,
    /// Pattern "[V-Y]": model years 2027 to 2030.
    pub v_to_y: Option<bool>,
    /// Pattern "[1-9]": model years 2031 to 2039.
    pub one_to_nine: Option<bool>,
    /// Pattern "P": model year 2023.
    pub p_only: Option<bool>,
}

/// The code-class matches of a one-byte code: each class matches exactly the
/// bytes of its range.
pub open spec fn byte_class_matches(b: u8) -> CodeClassMatches {
    CodeClassMatches {
        a_to_h: Some(0x41 <= b <= 0x48),
        j_to_n: Some(0x4a <= b <= 0x4e),
        r_to_t: Some(0x52 <= b <= 0x54),
        v_to_y: Some(0x56 <= b <= 0x59),
        one_to_nine: Some(0x31 <= b <= 0x39),
        p_only: Some(b == 0x50),
    }
}

/// The code-class matches for a code with the given bytes, as the regex
/// engine reports them: for a one-byte code, the byte ranges of the classes;
/// for any other code, the engine's named results.
pub open spec fn class_matches_of(h: Seq<u8>) -> CodeClassMatches {
    if h.len() == 1 {
        byte_class_matches(h[0])
    } else {
        CodeClassMatches {
            a_to_h: bytes_match_outcome("[A-H]"@, h),
            j_to_n: bytes_match_outcome("[J-N]"@, h),
            r_to_t: bytes_match_outcome("[R-T]"@, h),
            v_to_y: bytes_match_outcome("[V-Y]"@, h),
            one_to_nine: bytes_match_outcome("[1-9]"@, h),
            p_only: bytes_match_outcome("P"@, h),
        }
    }
}

/// Matches the code against each model-year code class, in the order in
/// which the decoder tries them.
pub fn code_class_matches(code: &str) -> (r: CodeClassMatches)
    ensures
        r == class_matches_of(code.spec_bytes()),
{
    proof {
        reveal_strlit("[A-H]");
        reveal_strlit("[J-N]");
        reveal_strlit("[R-T]");
        reveal_strlit("[V-Y]");
        reveal_strlit("[1-9]");
        reveal_strlit("P");
    }
    let h = code.as_bytes();
    let a = bytes_regex_match(h, "[A-H]");
    let j = bytes_regex_match(h, "[J-N]");
    let r = bytes_regex_match(h, "[R-T]");
    let v = bytes_regex_match(h, "[V-Y]");
    let d = bytes_regex_match(h, "[1-9]");
    let p = bytes_regex_match(h, "P");
    proof {
        assert("[R-T]"@[1] != "[A-H]"@[1] && "[R-T]"@[1] != "[J-N]"@[1]);
        assert("[V-Y]"@[1] != "[A-H]"@[1] && "[V-Y]"@[1] != "[J-N]"@[1] && "[V-Y]"@[1]
            != "[R-T]"@[1]);
        assert(code_class_range("[A-H]"@) == Some((0x41u8, 0x48u8)));
        assert(code_class_range("[J-N]"@) == Some((0x4au8, 0x4eu8)));
        assert(code_class_range("[R-T]"@) == Some((0x52u8, 0x54u8)));
        assert(code_class_range("[V-Y]"@) == Some((0x56u8, 0x59u8)));
        assert(code_class_range("[1-9]"@) == Some((0x31u8, 0x39u8)));
        assert("P"@.len() != "[A-H]"@.len());
        assert(code_class_range("P"@) == Some((0x50u8, 0x50u8)));
    }
    CodeClassMatches { a_to_h: a, j_to_n: j, r_to_t: r, v_to_y: v, one_to_nine: d, p_only: p }
}

/// The model year a code stands for before the 30-year cycle is resolved: the
/// first class that matches decides; a class whose pattern did not compile
/// ends the decoding with `None`.
pub open spec fn raw_model_year(h: Seq<u8>, m: CodeClassMatches) -> Option<int> {
    match m.a_to_h {
        None => None,
        Some(true) => if h.len() == 0 { None } else { Some(h[0] - 65 + 2010) },
        Some(false) => match m.j_to_n {
            None => None,
            Some(true) => if h.len() == 0 { None } else { Some(h[0] - 65 + 2009) },
            Some(false) => match m.r_to_t {
                None => None,
                Some(true) => if h.len() == 0 { None } else { Some(h[0] - 65 + 2007) },
                Some(false) => match m.v_to_y {
                    None => None,
                    Some(true) => if h.len() == 0 { None } else { Some(h[0] - 65 + 2006) },
                    Some(false) => match m.one_to_nine {
                        None => None,
                        Some(true) => if h.len() == 0 { None } else { Some(h[0] - 49 + 2031) },
                        Some(false) => match m.p_only {
                            Some(true) => Some(2023),
                            _ => None,
                        },
                    },
                },
            },
        },
    }
}

/// The model year of a code: the raw year, moved back 30 years when it lies
/// after the year following `current_year`.
pub open spec fn model_year_from(h: Seq<u8>, m: CodeClassMatches, current_year: int) -> Option<int> {
    match raw_model_year(h, m) {
        None => None,
        Some(y) => if y > current_year + 1 { Some(y - 30) } else { Some(y) },
    }
}

fn shift(o: Option<i32>, base: i32) -> (r: Option<i32>)
    requires
        o matches Some(x) ==> -300 <= x <= 300,
        2000 <= base <= 2100,
    ensures
        r == match o { Some(x) => Some((x + base) as i32), None => None::<i32> },
{
    match o {
        Some(x) => Some(x + base),
        None => None,
    }
}

/// The model year that the position-10 code `my` stands for before the
/// 30-year cycle is resolved, given which code classes it matches.
pub fn raw_year_from_code(my: &str, m: &CodeClassMatches) -> (r: Option<i32>)
    ensures
        r matches Some(y) ==> raw_model_year(my.spec_bytes(), *m) == Some(y as int),
        r is None ==> raw_model_year(my.spec_bytes(), *m) is None,
        r matches Some(y) ==> 1900 <= y <= 2300,
{
    match m.a_to_h {
        None => None,
        Some(true) => shift(offset_from(my, 'A'), 2010),
        Some(false) => match m.j_to_n {
            None => None,
            Some(true) => shift(offset_from(my, 'A'), 2009),
            Some(false) => match m.r_to_t {
                None => None,
                Some(true) => shift(offset_from(my, 'A'), 2007),
                Some(false) => match m.v_to_y {
                    None => None,
                    Some(true) => shift(offset_from(my, 'A'), 2006),
                    Some(false) => match m.one_to_nine {
                        None => None,
                        Some(true) => shift(offset_from(my, '1'), 2031),
                        Some(false) => match m.p_only {
                            Some(true) => Some(2023),
                            _ => None,
                        },
                    },
                },
            },
        },
    }
}

/// The raw model year moved back 30 years when it lies after the year
/// following `current_year`.
fn resolve_cycle(y: i32, current_year: i32) -> (r: i32)
    requires
        1900 <= y <= 2300,
    ensures
        r == if y > current_year + 1 { y - 30 } else { y as int },
{
    if y - 1 > current_year {
        y - 30
    } else {
        y
    }
}

/// The model year that the position-10 code `my` stands for, given which code
/// classes it matches and the current year.
pub fn year_from_code(my: &str, m: &CodeClassMatches, current_year: i32) -> (r: Option<i32>)
    ensures
        r matches Some(y) ==> model_year_from(my.spec_bytes(), *m, current_year as int) == Some(
            y as int,
        ),
        r is None ==> model_year_from(my.spec_bytes(), *m, current_year as int) is None,
{
    match raw_year_from_code(my, m) {
        None => None,
        Some(y) => Some(resolve_cycle(y, current_year)),
    }
}

/// The bytes that `vin_model_year` slices at fall on character boundaries of
/// the upper-cased VIN.
pub open spec fn model_year_accepts(u: Seq<char>) -> bool {
    let b = encode_utf8(u);
    b.len() >= 10 ==> is_char_boundary(b, 9) && is_char_boundary(b, 10)
}

/// The model year encoded in byte 10 of an upper-cased VIN, given the current
/// year; `None` for a VIN shorter than 10 bytes.
pub open spec fn model_year_of(u: Seq<char>, current_year: int) -> Option<int> {
    let b = encode_utf8(u);
    if b.len() >= 10 {
        let h = seq![b[9]];
        model_year_from(h, class_matches_of(h), current_year)
    } else {
        None
    }
}

/// The model year encoded in byte 10 of an upper-cased VIN before the
/// 30-year cycle is resolved; `None` for a VIN shorter than 10 bytes or a
/// code of no class. It needs no clock.
pub open spec fn raw_model_year_of(u: Seq<char>) -> Option<int> {
    let b = encode_utf8(u);
    if b.len() >= 10 {
        let h = seq![b[9]];
        raw_model_year(h, class_matches_of(h))
    } else {
        None
    }
}

/// The model year of an already upper-cased VIN, given the current year.
pub fn model_year_at(upper: &str, current_year: i32) -> (r: Option<i32>)
    requires
        model_year_accepts(upper@),
    ensures
        r matches Some(y) ==> model_year_of(upper@, current_year as int) == Some(y as int),
        r is None ==> model_year_of(upper@, current_year as int) is None,
{
    let b = upper.as_bytes();
    if b.len() >= 10 {
        let pos_ten = substring(upper, 9, 10);
        assert(pos_ten.spec_bytes() =~= seq![b@[9]]);
        let m = code_class_matches(pos_ten);
        year_from_code(pos_ten, &m, current_year)
    } else {
        None
    }
}

/// The model year encoded in position 10 of `vin`, read from the upper-cased
/// VIN: no year, without reading the clock, for a VIN shorter than 10 bytes
/// or a code of no class; otherwise the code's year resolved against the
/// current year, read from the clock, or the clock's error when it cannot be
/// read.
pub fn vin_model_year(vin: &str) -> (r: Result<Option<i32>, ClockError>)
    requires
        model_year_accepts(upper_text(vin@)),
    ensures
        raw_model_year_of(upper_text(vin@)) is None <==> r == Ok::<Option<i32>, ClockError>(None),
        r matches Ok(Some(m)) ==> exists|y: i32|
            clock_year(y) && model_year_of(upper_text(vin@), y as int) == Some(m as int),
{
    let upper_string = to_uppercase(vin);
    let upper = upper_string.as_str();
    let b = upper.as_bytes();
    if b.len() < 10 {
        return Ok(None);
    }
    let pos_ten = substring(upper, 9, 10);
    assert(pos_ten.spec_bytes() =~= seq![b@[9]]);
    let m = code_class_matches(pos_ten);
    match raw_year_from_code(pos_ten, &m) {
        None => Ok(None),
        Some(raw) => match this_year() {
            Ok(y) => {
                let m = resolve_cycle(raw, y);
                assert(clock_year(y) && model_year_of(upper_text(vin@), y as int) == Some(m as int));
                Ok(Some(m))
            },
            Err(e) => Err(e),
        },
    }
}

/// Whether the upper-cased VIN can be read by `model_year_at`.
pub fn model_year_readable(upper: &str) -> (r: bool)
    ensures
        r == model_year_accepts(upper@),
{
    let n = upper.as_bytes().len();
    if n < 10 {
        true
    } else {
        upper.is_char_boundary(9) && upper.is_char_boundary(10)
    }
}

/// `vin_model_year` for any VIN: `None` when the upper-cased VIN cannot be
/// sliced at bytes 9 and 10, else `Some` of what `vin_model_year` gives.
pub fn vin_model_year_checked(vin: &str) -> (r: Option<Result<Option<i32>, ClockError>>)
    ensures
        r is None <==> !model_year_accepts(upper_text(vin@)),
        model_year_accepts(upper_text(vin@)) ==> (raw_model_year_of(upper_text(vin@)) is None
            <==> r == Some(Ok::<Option<i32>, ClockError>(None))),
        r matches Some(Ok(Some(m))) ==> exists|y: i32|
            clock_year(y) && model_year_of(upper_text(vin@), y as int) == Some(m as int),
{
    let upper = to_uppercase(vin);
    if model_year_readable(upper.as_str()) {
        Some(vin_model_year(vin))
    } else {
        None
    }
}

} // verus!
