//! Properties that hold across the decoder's functions.
use vstd::prelude::*;

use crate::core_rules::{
    key_entries, row_entries,
    is_contested, is_retained, manufacturer_id_view, manufacturer_name_view, uncontested_pred,
};
use crate::decode::{
    awaits_value, normalized, resolve_from, same_request, starts_decoding, with_literal_value,
    DecodeOutcome, DecodeQuery,
};
use crate::types::{
    opt_chars, item_views, DecodingItem, DefaultValueRow, ElementRow, ManufacturerRow, ModelMakeRow,
    SpVinDecodeArgs, SpecKeyRow, SpecSchemaRow, SpecValueRow, WmiMakeRow,
};
use crate::core_pass::{
    default_values_step, engine_step, formula_step, manufacturer_step, model_makes_step,
    opt_item_view, patterns_step, same_setup, spec_keys_step, spec_schemas_step,
    spec_values_step, vehicle_types_step, wmi_id_step, wmi_makes_step, CoreDecoder, CoreOutcome,
};
use crate::decode::{
    item_for, attribute_name_step, descriptor_year_step, elements_step, pass_done_step, VinDecoder,
};
use crate::element_attribute::attribute_table_of;
use crate::ranking::is_best_per_element;
use crate::text::{
    ascii_upper, ascii_upper_char, decimal_digits, decimal_of, digit_char, upper_text,
};
use crate::types::ItemView;
use crate::vin::{
    class_matches_of, descriptor_of, model_year_from, model_year_of, star_padded, wmi_of,
    CodeClassMatches,
};
use vstd::utf8::{
    decode_utf8, encode_utf8, encode_utf8_decode_utf8, is_ascii_chars, is_ascii_chars_encode_utf8,
};

verus! {

/// The code classes that matched agree with the one-byte code: a class only
/// matches codes it contains.
pub open spec fn classes_agree(h: Seq<u8>, m: CodeClassMatches) -> bool {
    &&& h.len() == 1
    &&& (m.a_to_h == Some(true) ==> 65 <= h[0] <= 72)
    &&& (m.j_to_n == Some(true) ==> 74 <= h[0] <= 78)
    &&& (m.r_to_t == Some(true) ==> 82 <= h[0] <= 84)
    &&& (m.v_to_y == Some(true) ==> 86 <= h[0] <= 89)
    &&& (m.one_to_nine == Some(true) ==> 49 <= h[0] <= 57)
}

/// A decoded model year lies in the 30-year window that ends with the year
/// after the current one, for current years from 2008 to 2038 (when the code
/// classes mean what their patterns say).
pub proof fn law_model_year_window(h: Seq<u8>, m: CodeClassMatches, current_year: int)
    requires
        classes_agree(h, m),
        2008 <= current_year <= 2038,
    ensures
        model_year_from(h, m, current_year) matches Some(y) ==> current_year - 28 <= y
            <= current_year + 1,
{
}

/// A decoded model year never lies after the year following the current one,
/// for any current year from 2008 on (when the code classes mean what their
/// patterns say).
pub proof fn law_model_year_not_after_next_year(h: Seq<u8>, m: CodeClassMatches, current_year: int)
    requires
        classes_agree(h, m),
        2008 <= current_year,
    ensures
        model_year_from(h, m, current_year) matches Some(y) ==> y <= current_year + 1,
{
}

/// The model year read from any upper-cased VIN, at a current year from 2008
/// to 2038, lies in the 30-year window that ends with the year after the
/// current one.
pub proof fn law_vin_model_year_window(u: Seq<char>, current_year: int)
    requires
        2008 <= current_year <= 2038,
    ensures
        model_year_of(u, current_year) matches Some(y) ==> current_year - 28 <= y <= current_year
            + 1,
{
    let b = encode_utf8(u);
    if b.len() >= 10 {
        let h = seq![b[9]];
        law_model_year_window(h, class_matches_of(h), current_year);
    }
}

/// The model year read from any upper-cased VIN never lies after the year
/// following the current one, for any current year from 2008 on.
pub proof fn law_vin_model_year_not_after_next_year(u: Seq<char>, current_year: int)
    requires
        2008 <= current_year,
    ensures
        model_year_of(u, current_year) matches Some(y) ==> y <= current_year + 1,
{
    let b = encode_utf8(u);
    if b.len() >= 10 {
        let h = seq![b[9]];
        law_model_year_not_after_next_year(h, class_matches_of(h), current_year);
    }
}

/// After the competing items of a pass are narrowed down, no two remaining
/// contested items of the pass decode the same element.
pub proof fn law_one_item_per_contested_element(
    out: Seq<ItemView>,
    s: Seq<ItemView>,
    pass: i32,
    i: int,
    j: int,
)
    requires
        is_retained(out, s, pass),
        0 <= i < out.len(),
        0 <= j < out.len(),
        i != j,
        is_contested(out[i], pass),
        is_contested(out[j], pass),
    ensures
        out[i].element_id != out[j].element_id,
{
    let keep = s.filter(uncontested_pred(pass));
    let n = keep.len() as int;
    broadcast use vstd::seq_lib::group_filter_ensures;

    if i < n {
        assert(out.take(n)[i] == keep[i]);
        assert(uncontested_pred(pass)(keep[i]));
    }
    if j < n {
        assert(out.take(n)[j] == keep[j]);
        assert(uncontested_pred(pass)(keep[j]));
    }
    let rest = out.skip(n);
    assert(rest[i - n] == out[i]);
    assert(rest[j - n] == out[j]);
    assert(is_best_per_element(rest, s.filter(crate::core_rules::contested_pred(pass))));
}

/// The two manufacturer items of a pass agree on everything but their
/// source, element and value.
pub proof fn law_manufacturer_items_agree(
    pass: i32,
    wmi: Seq<char>,
    wmi_id: i32,
    mfr: (Option<i32>, Option<Seq<char>>),
)
    ensures
        ({
            let a = manufacturer_name_view(pass, wmi, wmi_id, mfr);
            let b = manufacturer_id_view(pass, wmi, wmi_id, mfr);
            &&& a.decoding_id == b.decoding_id
            &&& a.created_on == b.created_on
            &&& a.priority == b.priority
            &&& a.pattern_id == b.pattern_id
            &&& a.keys == b.keys
            &&& a.vin_schema_id == b.vin_schema_id
            &&& a.wmi_id == b.wmi_id
            &&& a.attribute_id == b.attribute_id
        }),
{
}

proof fn lemma_decimal_digits_lead(n: nat)
    ensures
        decimal_digits(n).len() >= 1,
        exists|d: int| 0 <= d <= 9 && decimal_digits(n)[0] == #[trigger] digit_char(d),
    decreases n,
{
    if n < 10 {
        assert(decimal_digits(n)[0] == digit_char(n as int));
    } else {
        lemma_decimal_digits_lead(n / 10);
        let d = choose|d: int| 0 <= d <= 9 && decimal_digits(n / 10)[0] == #[trigger] digit_char(d);
        assert(decimal_digits(n)[0] == decimal_digits(n / 10)[0]);
    }
}

/// A decimal rendering is never the placeholder "XXX".
pub proof fn lemma_decimal_not_placeholder(n: int)
    ensures
        decimal_of(n) != "XXX"@,
{
    reveal_strlit("XXX");
    if n < 0 {
        assert(decimal_of(n)[0] == '-');
    } else {
        lemma_decimal_digits_lead(n as nat);
        let d = choose|d: int| 0 <= d <= 9 && decimal_digits(n as nat)[0] == #[trigger] digit_char(d);
        assert(digit_char(d) != 'X') by {
            assert(((48 + d) as u32) <= 57);
        }
    }
}

/// The stop of a value scan: the index where it stopped, or the end.
pub open spec fn scan_stop(s: Seq<ItemView>, from: int) -> int {
    match resolve_from(s, from).1 {
        Some(j) => j,
        None => s.len() as int,
    }
}

/// Resolving values from item `from` on keeps the items before it and the
/// length, stops at an item that waits for a value from a lookup table, and
/// leaves no item between `from` and where it stopped waiting for a value.
pub proof fn law_resolution_leaves_nothing_waiting(s: Seq<ItemView>, from: int)
    requires
        0 <= from <= s.len(),
    ensures
        resolve_from(s, from).0.len() == s.len(),
        resolve_from(s, from).0.take(from) == s.take(from),
        from <= scan_stop(s, from) <= s.len(),
        resolve_from(s, from).1 matches Some(j) ==> j < s.len(),
        resolve_from(s, from).1 matches Some(j) ==> awaits_value(resolve_from(s, from).0[j])
            && attribute_table_of(resolve_from(s, from).0[j].element_id->0) is Some,
        forall|k: int|
            from <= k < scan_stop(s, from) ==> !awaits_value(#[trigger] resolve_from(s, from).0[k]),
    decreases s.len() - from,
{
    if from >= s.len() {
    } else if awaits_value(s[from]) {
        if attribute_table_of(s[from].element_id->0) is Some {
        } else {
            let u = s.update(from, with_literal_value(s[from]));
            law_resolution_leaves_nothing_waiting(u, from + 1);
            lemma_decimal_not_placeholder(s[from].attribute_id->0 as int);
            assert(resolve_from(s, from) == resolve_from(u, from + 1));
            assert(u.take(from + 1).take(from) =~= s.take(from));
            assert(resolve_from(u, from + 1).0.take(from + 1)[from] == u[from]);
            assert(resolve_from(s, from).0.take(from) =~= resolve_from(u, from + 1).0.take(
                from + 1,
            ).take(from));
        }
    } else {
        law_resolution_leaves_nothing_waiting(s, from + 1);
        assert(resolve_from(s, from) == resolve_from(s, from + 1));
        assert(resolve_from(s, from + 1).0.take(from + 1)[from] == s[from]);
        assert(resolve_from(s, from).0.take(from) =~= resolve_from(s, from + 1).0.take(
            from + 1,
        ).take(from));
    }
}


proof fn lemma_ascii_upper_char(c: char)
    requires
        (c as u32) < 128,
    ensures
        (ascii_upper_char(c) as u32) < 128,
        ascii_upper_char(ascii_upper_char(c)) == ascii_upper_char(c),
        ascii_upper_char(c) == '9' <==> c == '9',
        ascii_upper_char(c) == '*' <==> c == '*',
{
}

proof fn lemma_ascii_upper(x: Seq<char>)
    requires
        is_ascii_chars(x),
    ensures
        is_ascii_chars(ascii_upper(x)),
        ascii_upper(x).len() == x.len(),
        ascii_upper(ascii_upper(x)) == ascii_upper(x),
        upper_text(x) == ascii_upper(x),
{
    assert forall|i: int| 0 <= i < x.len() implies '\0' <= #[trigger] ascii_upper(x)[i] <= '\u{7f}' by {
        lemma_ascii_upper_char(x[i]);
    }
    assert forall|i: int| 0 <= i < x.len() implies #[trigger] ascii_upper(ascii_upper(x))[i] == ascii_upper(x)[i] by {
        lemma_ascii_upper_char(x[i]);
    }
    assert(ascii_upper(ascii_upper(x)) =~= ascii_upper(x));
}

/// The model year of an ASCII VIN depends only on its length reaching ten
/// characters and on its tenth character, whatever its case.
pub proof fn law_model_year_reads_position_ten(v: Seq<char>, w: Seq<char>, current_year: int)
    requires
        is_ascii_chars(v),
        is_ascii_chars(w),
        v.len() >= 10,
        w.len() >= 10,
        ascii_upper_char(v[9]) == ascii_upper_char(w[9]),
    ensures
        model_year_of(upper_text(v), current_year) == model_year_of(upper_text(w), current_year),
{
    lemma_ascii_upper(v);
    lemma_ascii_upper(w);
    let uv = ascii_upper(v);
    let uw = ascii_upper(w);
    is_ascii_chars_encode_utf8(uv);
    is_ascii_chars_encode_utf8(uw);
    assert(uv[9] == uw[9]);
    assert(encode_utf8(uv)[9] == encode_utf8(uw)[9]);
    assert(seq![encode_utf8(uv)[9]] =~= seq![encode_utf8(uw)[9]]);
}


/// The VIN padded with '*' to 17 characters, with its ninth character (the
/// check digit) masked by '*'.
pub open spec fn masked_padded(c: Seq<char>) -> Seq<char> {
    star_padded(c).update(8, '*')
}

/// Encoding an ASCII text and decoding any prefix of it gives that prefix.
proof fn lemma_ascii_prefix(p: Seq<char>, n: int)
    requires
        is_ascii_chars(p),
        0 <= n <= p.len(),
    ensures
        encode_utf8(p).take(n) == encode_utf8(p.take(n)),
        decode_utf8(encode_utf8(p).take(n)) == p.take(n),
{
    is_ascii_chars_encode_utf8(p);
    let t = p.take(n);
    assert(is_ascii_chars(t));
    is_ascii_chars_encode_utf8(t);
    assert(encode_utf8(p).take(n) =~= encode_utf8(t));
    encode_utf8_decode_utf8(t);
}

proof fn lemma_ascii_char_byte(c: char)
    requires
        (c as u32) < 128,
    ensures
        (c as u8 == 0x39u8) <==> c == '9',
        ('*' as u8) == 0x2au8,
{
}

/// The descriptor of an ASCII VIN, character by character: the first 14
/// characters of the masked, padded VIN when its third character is '9',
/// else the ASCII upper case of its first 11.
proof fn lemma_descriptor_ascii(c: Seq<char>)
    requires
        is_ascii_chars(c),
    ensures
        masked_padded(c).len() >= 17,
        is_ascii_chars(masked_padded(c)),
        descriptor_of(c) == if masked_padded(c)[2] == '9' {
            masked_padded(c).take(14)
        } else {
            ascii_upper(masked_padded(c).take(11))
        },
{
    let sp = star_padded(c);
    let p = masked_padded(c);
    assert(is_ascii_chars(sp));
    assert(is_ascii_chars(p));
    is_ascii_chars_encode_utf8(sp);
    is_ascii_chars_encode_utf8(p);
    let b = encode_utf8(sp).update(8, 0x2a);
    assert(b =~= encode_utf8(p)) by {
        lemma_ascii_char_byte('*');
    }
    lemma_ascii_char_byte(p[2]);
    lemma_ascii_prefix(p, 14);
    lemma_ascii_prefix(p, 11);
    assert(is_ascii_chars(p.take(11)));
    lemma_ascii_upper(p.take(11));
}

/// Taking the descriptor of an ASCII descriptor gives it back: taking the
/// descriptor twice is taking it once.
pub proof fn law_descriptor_idempotent(c: Seq<char>)
    requires
        is_ascii_chars(c),
    ensures
        descriptor_of(descriptor_of(c)) == descriptor_of(c),
{
    lemma_descriptor_ascii(c);
    let p = masked_padded(c);
    let d = descriptor_of(c);
    if p[2] == '9' {
        assert(d == p.take(14));
        assert(is_ascii_chars(d));
        lemma_descriptor_ascii(d);
        let q = masked_padded(d);
        assert(q[2] == '9');
        assert(q.take(14) =~= d);
    } else {
        let t = p.take(11);
        assert(is_ascii_chars(t));
        lemma_ascii_upper(t);
        assert(d == ascii_upper(t));
        lemma_descriptor_ascii(d);
        let q = masked_padded(d);
        lemma_ascii_upper_char(p[2]);
        assert(q[2] == ascii_upper_char(t[2]));
        assert(q.take(11) =~= d) by {
            lemma_ascii_upper_char(p[8]);
        }
    }
}

/// The descriptor of an ASCII VIN of at least 14 characters depends neither
/// on its check digit (the ninth character) nor on its characters from the
/// fifteenth on.
pub proof fn law_descriptor_ignores_check_digit_and_tail(v: Seq<char>, w: Seq<char>)
    requires
        is_ascii_chars(v),
        is_ascii_chars(w),
        v.len() >= 14,
        w.len() >= 14,
        v.take(8) == w.take(8),
        v.subrange(9, 14) == w.subrange(9, 14),
    ensures
        descriptor_of(v) == descriptor_of(w),
{
    lemma_descriptor_ascii(v);
    lemma_descriptor_ascii(w);
    let p = masked_padded(v);
    let q = masked_padded(w);
    assert forall|i: int| 0 <= i < 14 implies p[i] == q[i] by {
        assert(star_padded(v)[i] == v[i]);
        assert(star_padded(w)[i] == w[i]);
        assert(star_padded(v).len() >= 17 && star_padded(w).len() >= 17);
        if i == 8 {
            assert(p[i] == '*');
            assert(q[i] == '*');
        } else {
            assert(p[i] == v[i]);
            assert(q[i] == w[i]);
        }
        if i < 8 {
            assert(v.take(8)[i] == v[i]);
            assert(w.take(8)[i] == w[i]);
            assert(v.take(8)[i] == w.take(8)[i]);
            assert(v[i] == w[i]);
        } else if i > 8 {
            assert(v.subrange(9, 14)[i - 9] == v[i]);
            assert(w.subrange(9, 14)[i - 9] == w[i]);
            assert(v.subrange(9, 14)[i - 9] == w.subrange(9, 14)[i - 9]);
            assert(v[i] == w[i]);
        }
    }
    assert(p.take(14) =~= q.take(14));
    assert(p.take(11) =~= q.take(11));
}

/// For an ASCII VIN already in upper case, of at least three characters, the
/// WMI is read from positions that the descriptor keeps: its first three
/// characters are the descriptor's, and a six-character WMI ends with the
/// descriptor's characters 12 to 14.
pub proof fn law_wmi_agrees_with_descriptor(c: Seq<char>)
    requires
        is_ascii_chars(c),
        ascii_upper(c) == c,
        c.len() >= 3,
    ensures
        wmi_of(c).len() >= 3,
        wmi_of(c).take(3) == descriptor_of(c).take(3),
        wmi_of(c).len() == 6 ==> wmi_of(c).subrange(3, 6) == descriptor_of(c).subrange(11, 14),
{
    lemma_descriptor_ascii(c);
    let p = masked_padded(c);
    is_ascii_chars_encode_utf8(c);
    let b = encode_utf8(c);
    lemma_ascii_char_byte(c[2]);
    lemma_ascii_prefix(c, 3);
    assert(p[2] == c[2]);
    if b[2] == 0x39 && b.len() >= 14 {
        let x = c.take(3) + c.subrange(11, 14);
        assert(is_ascii_chars(x));
        is_ascii_chars_encode_utf8(x);
        assert(b.take(3) + b.subrange(11, 14) =~= encode_utf8(x));
        encode_utf8_decode_utf8(x);
        assert(wmi_of(c) == x);
        assert(x.take(3) =~= p.take(14).take(3));
        assert(x.subrange(3, 6) =~= p.take(14).subrange(11, 14));
    } else {
        assert(wmi_of(c) == c.take(3));
        if p[2] == '9' {
            assert(c.take(3) =~= p.take(14).take(3));
        } else {
            let t = p.take(11);
            assert(ascii_upper(t).take(3) =~= ascii_upper(c).take(3));
            assert(c.take(3) =~= ascii_upper(t).take(3));
        }
    }
}


/// Two requests whose VINs normalise alike and whose `include_private` and
/// `include_all` agree start decoding alike, whatever their `year` and
/// `no_output`: every start allowed for one is allowed for the other, and
/// both are malformed, or both ask for the same descriptor from states that
/// hold the same request. With `law_decoder_steps_read_the_state_alone` and
/// `law_pass_steps_read_the_state_alone`, every run of the decoding that one
/// request allows, for given database answers, the other allows too.
pub proof fn law_decoding_reads_the_normalised_request(
    a1: SpVinDecodeArgs,
    a2: SpVinDecodeArgs,
    max_model_year: i32,
    current_year: i32,
    r1: DecodeOutcome,
    r2: DecodeOutcome,
)
    requires
        starts_decoding(a1, max_model_year, current_year, r1),
        starts_decoding(a2, max_model_year, current_year, r2),
        normalized(a1.v@) == normalized(a2.v@),
        a1.include_private == a2.include_private,
        a1.include_all == a2.include_all,
    ensures
        forall|r: DecodeOutcome|
            #[trigger] starts_decoding(a1, max_model_year, current_year, r) == starts_decoding(
                a2,
                max_model_year,
                current_year,
                r,
            ),
        r1 is Malformed <==> r2 is Malformed,
        r1 matches DecodeOutcome::Malformed(m1) ==> r2 matches DecodeOutcome::Malformed(m2) && m1
            == m2,
        r1 matches DecodeOutcome::Query(n1, q1) ==> r2 matches DecodeOutcome::Query(n2, q2)
            && n1.stage == n2.stage && same_request(n1, n2) && n1.decodings@.len()
            == n2.decodings@.len() && (q1 matches DecodeQuery::DescriptorYear { descriptor: d1 }
            && q2 matches DecodeQuery::DescriptorYear { descriptor: d2 } && d1@ == d2@),
{
}


/// Two states of a pass agree in everything that its steps read.
pub open spec fn same_pass_state(c1: CoreDecoder, c2: CoreDecoder) -> bool {
    &&& same_setup(c1, c2)
    &&& c1.stage == c2.stage
    &&& item_views(c1.decodings@) == item_views(c2.decodings@)
    &&& opt_item_view(c1.model_item) == opt_item_view(c2.model_item)
    &&& c1.spec_patterns@ == c2.spec_patterns@
    &&& c1.default_vehicle_type == c2.default_vehicle_type
}

/// Each step of a pass reads its state only through what `same_pass_state`
/// compares: two such states, given the same answer, allow exactly the same
/// outcomes.
pub proof fn law_pass_steps_read_the_state_alone(c1: CoreDecoder, c2: CoreDecoder)
    requires
        same_pass_state(c1, c2),
    ensures
        forall|row: Option<Option<i32>>, r: CoreOutcome|
            #[trigger] wmi_id_step(c1, row, r) == wmi_id_step(c2, row, r),
        forall|rows: Vec<DecodingItem>, r: CoreOutcome|
            #[trigger] patterns_step(c1, rows, r) == patterns_step(c2, rows, r),
        forall|rows: Vec<DecodingItem>, r: CoreOutcome|
            #[trigger] engine_step(c1, rows, r) == engine_step(c2, rows, r),
        forall|rows: Vec<DecodingItem>, r: CoreOutcome|
            #[trigger] vehicle_types_step(c1, rows, r) == vehicle_types_step(c2, rows, r),
        forall|row: Option<ManufacturerRow>, r: CoreOutcome|
            #[trigger] manufacturer_step(c1, row, r) == manufacturer_step(c2, row, r),
        forall|rows: Vec<DecodingItem>, r: CoreOutcome|
            #[trigger] formula_step(c1, rows, r) == formula_step(c2, rows, r),
        c1.model_item is Some ==> forall|rows: Vec<ModelMakeRow>, r: CoreOutcome|
            #[trigger] model_makes_step(c1, rows, r) == model_makes_step(c2, rows, r),
        forall|rows: Vec<WmiMakeRow>, r: CoreOutcome|
            #[trigger] wmi_makes_step(c1, rows, r) == wmi_makes_step(c2, rows, r),
        forall|rows: Vec<SpecSchemaRow>, r: CoreOutcome|
            #[trigger] spec_schemas_step(c1, rows, r) == spec_schemas_step(c2, rows, r),
        forall|rows: Vec<SpecKeyRow>, r: CoreOutcome|
            #[trigger] spec_keys_step(c1, rows, r) == spec_keys_step(c2, rows, r),
        forall|rows: Vec<SpecValueRow>, r: CoreOutcome|
            #[trigger] spec_values_step(c1, rows, r) == spec_values_step(c2, rows, r),
        forall|rows: Vec<DefaultValueRow>, r: CoreOutcome|
            #[trigger] default_values_step(c1, rows, r) == default_values_step(c2, rows, r),
{
}

/// Two decoder states agree in everything that its steps read.
pub open spec fn same_decoder_state(d1: VinDecoder, d2: VinDecoder) -> bool {
    &&& same_request(d1, d2)
    &&& d1.stage == d2.stage
    &&& d1.cursor == d2.cursor
    &&& item_views(d1.decodings@) == item_views(d2.decodings@)
}

/// Each step of the decoder reads its state only through what
/// `same_decoder_state` compares: two such states, given the same answer,
/// allow exactly the same outcomes.
pub proof fn law_decoder_steps_read_the_state_alone(d1: VinDecoder, d2: VinDecoder)
    requires
        same_decoder_state(d1, d2),
    ensures
        forall|row: Option<Option<i32>>, r: DecodeOutcome|
            #[trigger] descriptor_year_step(d1, row, r) == descriptor_year_step(d2, row, r),
        forall|items: Vec<DecodingItem>, r: DecodeOutcome|
            #[trigger] pass_done_step(d1, items, r) == pass_done_step(d2, items, r),
        d1.cursor < d1.decodings@.len() ==> forall|name: Option<String>, r: DecodeOutcome|
            #[trigger] attribute_name_step(d1, name, r) == attribute_name_step(d2, name, r),
        forall|rows: Vec<ElementRow>, r: DecodeOutcome|
            #[trigger] elements_step(d1, rows, r) == elements_step(d2, rows, r),
{
    if d1.cursor < d1.decodings@.len() {
        assert(item_views(d1.decodings@).len() == d1.decodings@.len());
        assert(item_views(d2.decodings@).len() == d2.decodings@.len());
        assert(d1.decodings@[d1.cursor as int]@ == item_views(d1.decodings@)[d1.cursor as int]);
        assert(d2.decodings@[d2.cursor as int]@ == item_views(d2.decodings@)[d2.cursor as int]);
    }
}


/// The elements whose attribute is the id of a row in a lookup table, each
/// with that table, and no other element: the value of such an element's
/// attribute is the name in that row, and of any other element the id itself.
pub proof fn law_attribute_tables()
    ensures
        attribute_table_of(2) == Some("battery_type"@),
        attribute_table_of(3) == Some("bed_type"@),
        attribute_table_of(4) == Some("body_cab"@),
        attribute_table_of(5) == Some("body_style"@),
        attribute_table_of(10) == Some("destination_market"@),
        attribute_table_of(15) == Some("drive_type"@),
        attribute_table_of(23) == Some("entertainment_system"@),
        attribute_table_of(24) == Some("fuel_type"@),
        attribute_table_of(25) == Some("gross_vehicle_weight_rating"@),
        attribute_table_of(26) == Some("make"@),
        attribute_table_of(27) == Some("manufacturer"@),
        attribute_table_of(28) == Some("model"@),
        attribute_table_of(36) == Some("steering"@),
        attribute_table_of(37) == Some("transmission"@),
        attribute_table_of(39) == Some("vehicle_type"@),
        attribute_table_of(42) == Some("brake_system"@),
        attribute_table_of(55) == Some("air_bag_locations"@),
        attribute_table_of(56) == Some("air_bag_locations"@),
        attribute_table_of(60) == Some("wheel_base_type"@),
        attribute_table_of(62) == Some("valvetrain_design"@),
        attribute_table_of(64) == Some("engine_configuration"@),
        attribute_table_of(65) == Some("air_bag_loc_front"@),
        attribute_table_of(66) == Some("fuel_type"@),
        attribute_table_of(67) == Some("fuel_delivery_type"@),
        attribute_table_of(69) == Some("air_bag_loc_knee"@),
        attribute_table_of(72) == Some("evdrive_unit"@),
        attribute_table_of(75) == Some("country"@),
        attribute_table_of(78) == Some("pretensioner"@),
        attribute_table_of(79) == Some("seat_belts_all"@),
        attribute_table_of(81) == Some("adaptive_cruise_control"@),
        attribute_table_of(86) == Some("abs"@),
        attribute_table_of(87) == Some("auto_brake"@),
        attribute_table_of(88) == Some("blind_spot_monitoring"@),
        attribute_table_of(96) == Some("v_ncsabody_type"@),
        attribute_table_of(97) == Some("v_ncsamake"@),
        attribute_table_of(98) == Some("v_ncsamodel"@),
        attribute_table_of(99) == Some("ecs"@),
        attribute_table_of(100) == Some("traction_control"@),
        attribute_table_of(101) == Some("forward_collision_warning"@),
        attribute_table_of(102) == Some("lane_departure_warning"@),
        attribute_table_of(103) == Some("lane_keep_system"@),
        attribute_table_of(104) == Some("rear_visibility_camera"@),
        attribute_table_of(105) == Some("park_assist"@),
        attribute_table_of(107) == Some("air_bag_locations"@),
        attribute_table_of(116) == Some("trailer_type"@),
        attribute_table_of(117) == Some("trailer_body_type"@),
        attribute_table_of(122) == Some("cooling_type"@),
        attribute_table_of(126) == Some("electrification_level"@),
        attribute_table_of(127) == Some("charger_level"@),
        attribute_table_of(135) == Some("turbo"@),
        attribute_table_of(143) == Some("error_code"@),
        attribute_table_of(145) == Some("axle_configuration"@),
        attribute_table_of(148) == Some("bus_floor_config_type"@),
        attribute_table_of(149) == Some("bus_type"@),
        attribute_table_of(151) == Some("custom_motorcycle_type"@),
        attribute_table_of(152) == Some("motorcycle_suspension_type"@),
        attribute_table_of(153) == Some("motorcycle_chassis_type"@),
        attribute_table_of(168) == Some("tpms"@),
        attribute_table_of(170) == Some("dynamic_brake_support"@),
        attribute_table_of(171) == Some("pedestrian_automatic_emergency_braking"@),
        attribute_table_of(172) == Some("auto_reverse_system"@),
        attribute_table_of(173) == Some("automatic_pedestrain_alerting_sound"@),
        attribute_table_of(174) == Some("can__aacn"@),
        attribute_table_of(175) == Some("edr"@),
        attribute_table_of(176) == Some("keyless_ignition"@),
        attribute_table_of(177) == Some("daytime_running_light"@),
        attribute_table_of(178) == Some("lower_beam_headlamp_light_source"@),
        attribute_table_of(179) == Some("semiautomatic_headlamp_beam_switching"@),
        attribute_table_of(180) == Some("adaptive_driving_beam"@),
        attribute_table_of(183) == Some("rear_cross_traffic_alert"@),
        attribute_table_of(184) == Some("gross_vehicle_weight_rating"@),
        attribute_table_of(185) == Some("gross_vehicle_weight_rating"@),
        attribute_table_of(190) == Some("gross_vehicle_weight_rating"@),
        attribute_table_of(192) == Some("rear_automatic_emergency_braking"@),
        attribute_table_of(193) == Some("blind_spot_intervention"@),
        attribute_table_of(194) == Some("lane_centering_assistance"@),
        attribute_table_of(195) == Some("non_land_use"@),
        forall|e: i32|
            #[trigger] attribute_table_of(e) is Some ==> (e == 2 || e == 3 || e == 4 || e == 5 || e == 10 || e == 15 || e == 23 || e == 24 || e ==
            25 || e == 26 || e == 27 || e == 28 || e == 36 || e == 37 || e == 39 || e == 42 || e ==
            55 || e == 56 || e == 60 || e == 62 || e == 64 || e == 65 || e == 66 || e == 67 || e ==
            69 || e == 72 || e == 75 || e == 78 || e == 79 || e == 81 || e == 86 || e == 87 || e ==
            88 || e == 96 || e == 97 || e == 98 || e == 99 || e == 100 || e == 101 || e == 102 || e
            == 103 || e == 104 || e == 105 || e == 107 || e == 116 || e == 117 || e == 122 || e ==
            126 || e == 127 || e == 135 || e == 143 || e == 145 || e == 148 || e == 149 || e == 151
            || e == 152 || e == 153 || e == 168 || e == 170 || e == 171 || e == 172 || e == 173 || e
            == 174 || e == 175 || e == 176 || e == 177 || e == 178 || e == 179 || e == 180 || e ==
            183 || e == 184 || e == 185 || e == 190 || e == 192 || e == 193 || e == 194 || e == 195),
{
}


/// An element of the pass whose items are all kept when a pass narrows its
/// items down: 121, 129, 150, 154, 155, 114, 169 and 186.
pub open spec fn keeps_all_items(e: Option<i32>) -> bool {
    e matches Some(x) && (x == 121 || x == 129 || x == 150 || x == 154 || x == 155 || x == 114
        || x == 169 || x == 186)
}

/// After a pass narrows its items down, two items of the pass that decode the
/// same element are of one of the elements 121, 129, 150, 154, 155, 114, 169
/// and 186: of every other element (an absent one included) at most one item
/// of the pass is left.
pub proof fn law_only_listed_elements_keep_several_items(
    out: Seq<ItemView>,
    s: Seq<ItemView>,
    pass: i32,
    i: int,
    j: int,
)
    requires
        is_retained(out, s, pass),
        0 <= i < out.len(),
        0 <= j < out.len(),
        i != j,
        out[i].decoding_id == Some(pass),
        out[j].decoding_id == Some(pass),
        out[i].element_id == out[j].element_id,
    ensures
        keeps_all_items(out[i].element_id),
{
    if !keeps_all_items(out[i].element_id) {
        assert(is_contested(out[i], pass));
        assert(is_contested(out[j], pass));
        law_one_item_per_contested_element(out, s, pass, i, j);
    }
}

/// Narrowing the items of a pass keeps every item of another pass and every
/// item of the elements 121, 129, 150, 154, 155, 114, 169 and 186.
pub proof fn law_listed_and_other_pass_items_are_kept(
    out: Seq<ItemView>,
    s: Seq<ItemView>,
    pass: i32,
    k: int,
)
    requires
        is_retained(out, s, pass),
        0 <= k < s.len(),
        s[k].decoding_id != Some(pass) || keeps_all_items(s[k].element_id),
    ensures
        out.contains(s[k]),
{
    broadcast use vstd::seq_lib::group_filter_ensures;

    let keep = s.filter(uncontested_pred(pass));
    assert(uncontested_pred(pass)(s[k]));
    assert(keep.contains(s[k]));
    let m = choose|m: int| 0 <= m < keep.len() && keep[m] == s[k];
    assert(out.take(keep.len() as int)[m] == out[m]);
}


proof fn lemma_row_entries(cur: Seq<ItemView>, row: SpecKeyRow, n: int)
    requires
        0 <= n <= cur.len(),
        cur.len() <= usize::MAX,
    ensures
        forall|k: int|
            0 <= k < row_entries(cur, row, n).len() ==> {
                let e = #[trigger] row_entries(cur, row, n)[k];
                &&& 0 <= e.0 < n
                &&& cur[e.0 as int].element_id == row.element_id
                &&& cur[e.0 as int].attribute_id == row.attribute_id
                &&& e.1 == row.v_spec_schema_pattern_id
            },
        forall|i: int|
            0 <= i < n && cur[i].element_id == row.element_id && cur[i].attribute_id
                == row.attribute_id ==> row_entries(cur, row, n).contains(
                (i as usize, row.v_spec_schema_pattern_id),
            ),
    decreases n,
{
    if n > 0 {
        lemma_row_entries(cur, row, n - 1);
        let prev = row_entries(cur, row, n - 1);
        let cur_n = row_entries(cur, row, n);
        assert forall|i: int|
            0 <= i < n && cur[i].element_id == row.element_id && cur[i].attribute_id
                == row.attribute_id implies cur_n.contains(
            (i as usize, row.v_spec_schema_pattern_id),
        ) by {
            if i < n - 1 {
                let k = choose|k: int|
                    0 <= k < prev.len() && prev[k] == (i as usize, row.v_spec_schema_pattern_id);
                assert(cur_n[k] == prev[k]);
            } else {
                assert(cur_n[prev.len() as int] == (i as usize, row.v_spec_schema_pattern_id));
            }
        }
        assert forall|k: int| 0 <= k < cur_n.len() implies {
            let e = #[trigger] cur_n[k];
            &&& 0 <= e.0 < n
            &&& cur[e.0 as int].element_id == row.element_id
            &&& cur[e.0 as int].attribute_id == row.attribute_id
            &&& e.1 == row.v_spec_schema_pattern_id
        } by {
            if k < prev.len() {
                assert(cur_n[k] == prev[k]);
            }
        }
    }
}

/// The key entries of vehicle-specification patterns pair an item with a
/// pattern exactly when some key row of that pattern names both the item's
/// element and its attribute: every entry's item has the element and the
/// attribute of a key row of the entry's pattern, and every item that has
/// the element and the attribute of a key row is paired with its pattern.
pub proof fn law_key_entries_match_element_and_attribute(
    cur: Seq<ItemView>,
    rows: Seq<SpecKeyRow>,
)
    requires
        cur.len() <= usize::MAX,
    ensures
        forall|k: int|
            0 <= k < key_entries(cur, rows).len() ==> {
                let e = #[trigger] key_entries(cur, rows)[k];
                &&& 0 <= e.0 < cur.len()
                &&& exists|j: int|
                    0 <= j < rows.len() && rows[j].element_id == cur[e.0 as int].element_id
                        && rows[j].attribute_id == cur[e.0 as int].attribute_id
                        && rows[j].v_spec_schema_pattern_id == e.1
            },
        forall|i: int, j: int|
            0 <= i < cur.len() && 0 <= j < rows.len() && rows[j].element_id == cur[i].element_id
                && rows[j].attribute_id == cur[i].attribute_id ==> #[trigger] key_entries(
                cur,
                rows,
            ).contains((i as usize, (#[trigger] rows[j]).v_spec_schema_pattern_id)),
    decreases rows.len(),
{
    if rows.len() > 0 {
        let front = rows.drop_last();
        let last = rows.last();
        law_key_entries_match_element_and_attribute(cur, front);
        lemma_row_entries(cur, last, cur.len() as int);
        let a = key_entries(cur, front);
        let b = row_entries(cur, last, cur.len() as int);
        let all = key_entries(cur, rows);
        assert(all == a + b);
        assert forall|k: int| 0 <= k < all.len() implies {
            let e = #[trigger] all[k];
            &&& 0 <= e.0 < cur.len()
            &&& exists|j: int|
                0 <= j < rows.len() && rows[j].element_id == cur[e.0 as int].element_id
                    && rows[j].attribute_id == cur[e.0 as int].attribute_id
                    && rows[j].v_spec_schema_pattern_id == e.1
        } by {
            if k < a.len() {
                assert(all[k] == a[k]);
                let e = a[k];
                let j = choose|j: int|
                    0 <= j < front.len() && front[j].element_id == cur[e.0 as int].element_id
                        && front[j].attribute_id == cur[e.0 as int].attribute_id
                        && front[j].v_spec_schema_pattern_id == e.1;
                assert(rows[j] == front[j]);
            } else {
                assert(all[k] == b[k - a.len()]);
                assert(rows[rows.len() - 1] == last);
            }
        }
        assert forall|i: int, j: int|
            0 <= i < cur.len() && 0 <= j < rows.len() && rows[j].element_id == cur[i].element_id
                && rows[j].attribute_id == cur[i].attribute_id implies #[trigger] all.contains(
            (i as usize, (#[trigger] rows[j]).v_spec_schema_pattern_id),
        ) by {
            let x = (i as usize, rows[j].v_spec_schema_pattern_id);
            if j < rows.len() - 1 {
                assert(rows[j] == front[j]);
                assert(a.contains(x));
                let k = choose|k: int| 0 <= k < a.len() && a[k] == x;
                assert(all[k] == a[k]);
            } else {
                assert(rows[j] == last);
                assert(b.contains(x));
                let k = choose|k: int| 0 <= k < b.len() && b[k] == x;
                assert(all[a.len() + k] == b[k]);
            }
        }
    }
}


/// Each output row of a decoding carries the fields of its element row and
/// of the first item of its element under the same names: group, variable,
/// code, data type and decode from the element row; pattern, schema, keys,
/// element, attribute, creation time, WMI and source from the item; and the
/// item's value, when it has one, with "9", "13" and "10" blanked.
pub proof fn law_output_rows_carry_their_fields(d: VinDecoder, rows: Vec<ElementRow>, r: DecodeOutcome)
    requires
        elements_step(d, rows, r),
    ensures
        r matches DecodeOutcome::Done(out) && out@.len() == rows@.len() && forall|k: int|
            0 <= k < rows@.len() ==> {
                let o = #[trigger] out@[k];
                let x = rows@[k];
                let it = item_for(item_views(d.decodings@), x.element_id);
                &&& o@.group_name == opt_chars(x.group_name)
                &&& o@.variable == opt_chars(x.variable)
                &&& o@.code == opt_chars(x.code)
                &&& o@.data_type == opt_chars(x.data_type)
                &&& o@.decode == opt_chars(x.decode)
                &&& o.pattern_id == it.pattern_id
                &&& o.vin_schema_id == it.vin_schema_id
                &&& o@.keys == it.keys
                &&& o.element_id == it.element_id
                &&& o.attribute_id == it.attribute_id
                &&& o.created_on == it.created_on
                &&& o.wmi_id == it.wmi_id
                &&& o@.source == it.source
                &&& (o.value is Some <==> it.value is Some)
                &&& (it.value matches Some(v) ==> o@.value == Some(
                    crate::patterns::replace_value_codes(v, " "@),
                ))
            },
{
    if let DecodeOutcome::Done(out) = r {
        assert forall|k: int| 0 <= k < rows@.len() implies {
            let o = #[trigger] out@[k];
            let x = rows@[k];
            let it = item_for(item_views(d.decodings@), x.element_id);
            &&& o@.group_name == opt_chars(x.group_name)
            &&& o@.variable == opt_chars(x.variable)
            &&& o@.code == opt_chars(x.code)
            &&& o@.data_type == opt_chars(x.data_type)
            &&& o@.decode == opt_chars(x.decode)
            &&& o.pattern_id == it.pattern_id
            &&& o.vin_schema_id == it.vin_schema_id
            &&& o@.keys == it.keys
            &&& o.element_id == it.element_id
            &&& o.attribute_id == it.attribute_id
            &&& o.created_on == it.created_on
            &&& o.wmi_id == it.wmi_id
            &&& o@.source == it.source
            &&& (o.value is Some <==> it.value is Some)
            &&& (it.value matches Some(v) ==> o@.value == Some(
                crate::patterns::replace_value_codes(v, " "@),
            ))
        } by {
            assert(out@[k]@ == crate::decode::output_of(rows@[k], item_for(item_views(d.decodings@), rows@[k].element_id)));
        }
    }
}

} // verus!
