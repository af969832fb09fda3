//! The decisions of one decoding pass over a VIN, each a function of the
//! pass's state and of what the database answered: which pattern keys the VIN
//! has, which items it gains from each answer, which item of each element is
//! kept and which vehicle-specification patterns apply.
use vstd::prelude::*;
use vstd::utf8::*;
use vstd::string::StringSliceAdditionalSpecFns;

use crate::patterns::{digit_pattern, regex_replace_all, regex_replaced, replace_ascii_digits};
use crate::ranking::{
    best_per_element, dedup_exact_len, first_least_ranked, group_by_pattern, is_best_per_element,
    is_first_least,
};
use crate::text::{
    copy_opt_string, decimal_of, decimal_string, lemma_valid_between, opt_decimal_string, owned, string_from_utf8,
    substring, to_uppercase, upper_text,
};
use crate::types::{
    item_views, opt_chars, DecodingItem, DefaultValueRow, ItemView, ModelMakeRow, SpecKeyRow,
    SpecSchemaRow, SpecValueRow, WmiMakeRow,
};
use crate::vin::wmi_accepts;

verus! {

broadcast use {encode_utf8_valid_utf8, encode_utf8_decode_utf8};

/// The byte offsets that the pattern keys are sliced at fall on character
/// boundaries: bytes 4 to 8 when the VIN is longer than 3 bytes, bytes 10 to
/// 17 when it is longer than 9.
pub open spec fn keys_accepts(c: Seq<char>) -> bool {
    let b = encode_utf8(c);
    &&& (b.len() > 3 ==> is_char_boundary(b, 3) && is_char_boundary(b, 8))
    &&& (b.len() > 9 ==> is_char_boundary(b, 9) && is_char_boundary(b, 17))
}

/// The pattern keys of a VIN: bytes 4 to 8, then '|' and bytes 10 to 17 when
/// the VIN is longer than 9 bytes; empty for a VIN of at most 3 bytes.
pub open spec fn keys_of(c: Seq<char>) -> Seq<char> {
    let b = encode_utf8(c);
    if b.len() > 9 {
        decode_utf8(b.subrange(3, 8)) + seq!['|'] + decode_utf8(b.subrange(9, 17))
    } else if b.len() > 3 {
        decode_utf8(b.subrange(3, 8))
    } else {
        Seq::empty()
    }
}

/// A decoding pass can read the VIN: its WMI and its keys can be sliced.
pub open spec fn core_accepts(c: Seq<char>) -> bool {
    wmi_accepts(c) && keys_accepts(c)
}

/// The pattern keys of `vin`: see `keys_of`.
pub fn vin_keys(vin: &str) -> (r: String)
    requires
        keys_accepts(vin@),
    ensures
        r@ == keys_of(vin@),
{
    let n = vin.as_bytes().len();
    if n > 9 {
        let a = substring(vin, 3, 8);
        let c = substring(vin, 9, 17);
        proof {
            reveal_strlit("|");
        }
        let r = owned(a).concat("|").concat(c);
        assert(r@ =~= keys_of(vin@));
        r
    } else if n > 3 {
        owned(substring(vin, 3, 8))
    } else {
        String::new()
    }
}

/// Whether a decoding pass can read `vin`.
pub fn core_readable(vin: &str) -> (r: bool)
    ensures
        r == core_accepts(vin@),
{
    let b = vin.as_bytes();
    let n = b.len();
    if n < 3 || !vin.is_char_boundary(2) || !vin.is_char_boundary(3) {
        return false;
    }
    if b[2] == 0x39u8 && n >= 14 && !(vin.is_char_boundary(11) && vin.is_char_boundary(14)) {
        return false;
    }
    if n > 3 && !vin.is_char_boundary(8) {
        return false;
    }
    if n > 9 && !(vin.is_char_boundary(9) && vin.is_char_boundary(17)) {
        return false;
    }
    true
}

/// An item belongs to the pass.
pub open spec fn in_pass(v: ItemView, pass: i32) -> bool {
    v.decoding_id == Some(pass)
}

/// An item of the pass that decodes the given element.
pub open spec fn is_pass_element(v: ItemView, pass: i32, element: i32) -> bool {
    v.decoding_id == Some(pass) && v.element_id == Some(element)
}

/// Index `i` is the first item of the pass that decodes the element.
pub open spec fn is_first_pass_element(s: Seq<ItemView>, pass: i32, element: i32, i: int) -> bool {
    &&& 0 <= i < s.len()
    &&& is_pass_element(s[i], pass, element)
    &&& forall|j: int| 0 <= j < i ==> !is_pass_element(#[trigger] s[j], pass, element)
}

/// The first item of the pass that decodes the element, if any.
pub fn find_pass_element(decodings: &Vec<DecodingItem>, pass: i32, element: i32) -> (r: Option<
    usize,
>)
    ensures
        r matches Some(i) ==> is_first_pass_element(item_views(decodings@), pass, element, i as int),
        r is None ==> forall|j: int|
            0 <= j < decodings@.len() ==> !is_pass_element(
                #[trigger] item_views(decodings@)[j],
                pass,
                element,
            ),
{
    let ghost s = item_views(decodings@);
    let mut i: usize = 0;
    while i < decodings.len()
        invariant
            s == item_views(decodings@),
            i <= decodings.len(),
            forall|j: int| 0 <= j < i ==> !is_pass_element(#[trigger] s[j], pass, element),
        decreases decodings.len() - i,
    {
        if decodings[i].decoding_id == Some(pass) && decodings[i].element_id == Some(element) {
            return Some(i);
        }
        i = i + 1;
    }
    None
}

/// The first item of the pass that decodes the element is unique.
pub proof fn lemma_first_pass_element_unique(s: Seq<ItemView>, pass: i32, element: i32, i: int, j: int)
    requires
        is_first_pass_element(s, pass, element, i),
        is_first_pass_element(s, pass, element, j),
    ensures
        i == j,
{
    if i < j {
        assert(!is_pass_element(s[i], pass, element));
    } else if j < i {
        assert(!is_pass_element(s[j], pass, element));
    }
}

/// `m` is the first item of the pass that decodes the element.
pub open spec fn is_first_found(s: Seq<ItemView>, pass: i32, element: i32, m: ItemView) -> bool {
    exists|i: int| is_first_pass_element(s, pass, element, i) && s[i] == m
}

/// The attribute of the first item of the pass that decodes the element;
/// `None` when there is no such item.
pub open spec fn first_pass_attribute(s: Seq<ItemView>, pass: i32, element: i32) -> Option<Option<i32>> {
    if exists|i: int| is_first_pass_element(s, pass, element, i) {
        Some(s[choose|i: int| is_first_pass_element(s, pass, element, i)].attribute_id)
    } else {
        None
    }
}

/// The attribute of the first item of the pass that decodes the element: see
/// `first_pass_attribute`.
pub fn pass_attribute(decodings: &Vec<DecodingItem>, pass: i32, element: i32) -> (r: Option<Option<i32>>)
    ensures
        r == first_pass_attribute(item_views(decodings@), pass, element),
{
    let ghost s = item_views(decodings@);
    match find_pass_element(decodings, pass, element) {
        Some(i) => {
            proof {
                let j = choose|j: int| is_first_pass_element(s, pass, element, j);
                lemma_first_pass_element_unique(s, pass, element, i as int, j);
            }
            Some(decodings[i].attribute_id)
        },
        None => {
            proof {
                if exists|j: int| is_first_pass_element(s, pass, element, j) {
                    let j = choose|j: int| is_first_pass_element(s, pass, element, j);
                    assert(is_pass_element(s[j], pass, element));
                }
            }
            None
        },
    }
}

/// The rank by which an engine-model item is chosen: its priority, -1 when it
/// has none.
pub open spec fn engine_rank(v: ItemView) -> i32 {
    match v.priority {
        Some(p) => p,
        None => -1i32,
    }
}

/// Index `i` is the engine-model item that the pass follows: among the items
/// of the pass for element 18 (engine model), the first of least rank.
pub open spec fn is_engine_choice(s: Seq<ItemView>, pass: i32, i: int) -> bool {
    &&& 0 <= i < s.len()
    &&& is_pass_element(s[i], pass, 18)
    &&& forall|j: int|
        #![trigger s[j]]
        0 <= j < s.len() && is_pass_element(s[j], pass, 18) ==> engine_rank(s[j]) >= engine_rank(
            s[i],
        ) && (j < i ==> engine_rank(s[j]) > engine_rank(s[i]))
}

/// The engine-model item that the pass follows is unique.
pub proof fn lemma_engine_choice_unique(s: Seq<ItemView>, pass: i32, i: int, j: int)
    requires
        is_engine_choice(s, pass, i),
        is_engine_choice(s, pass, j),
    ensures
        i == j,
{
    assert(s[i] == s[i]);
    assert(s[j] == s[j]);
}

/// The engine-model item that the pass follows, if any: see
/// `is_engine_choice`.
pub fn engine_candidate(decodings: &Vec<DecodingItem>, pass: i32) -> (r: Option<usize>)
    ensures
        r matches Some(i) ==> is_engine_choice(item_views(decodings@), pass, i as int),
        r is None ==> forall|j: int|
            0 <= j < decodings@.len() ==> !is_pass_element(
                #[trigger] item_views(decodings@)[j],
                pass,
                18,
            ),
{
    let ghost s = item_views(decodings@);
    let mut cands: Vec<(usize, i32)> = Vec::new();
    let mut i: usize = 0;
    while i < decodings.len()
        invariant
            s == item_views(decodings@),
            i <= decodings.len(),
            forall|k: int|
                #![trigger cands@[k]]
                0 <= k < cands@.len() ==> {
                    &&& cands@[k].0 < i
                    &&& is_pass_element(s[cands@[k].0 as int], pass, 18)
                    &&& cands@[k].1 == engine_rank(s[cands@[k].0 as int])
                },
            forall|k1: int, k2: int|
                #![trigger cands@[k1], cands@[k2]]
                0 <= k1 < k2 < cands@.len() ==> cands@[k1].0 < cands@[k2].0,
            forall|j: int|
                #![trigger s[j]]
                0 <= j < i && is_pass_element(s[j], pass, 18) ==> exists|k: int|
                    0 <= k < cands@.len() && (#[trigger] cands@[k]).0 == j,
        decreases decodings.len() - i,
    {
        let d = &decodings[i];
        if d.decoding_id == Some(pass) && d.element_id == Some(18) {
            let p: i32 = match d.priority {
                Some(p) => p,
                None => -1,
            };
            let ghost old_cands = cands@;
            cands.push((i, p));
            proof {
                assert forall|j: int|
                    #![trigger s[j]]
                    0 <= j < i + 1 && is_pass_element(s[j], pass, 18) implies exists|k: int|
                    0 <= k < cands@.len() && (#[trigger] cands@[k]).0 == j by {
                    if j == i {
                        assert(cands@[cands@.len() - 1].0 == j);
                    } else {
                        let k = choose|k: int| 0 <= k < old_cands.len() && (#[trigger] old_cands[k]).0 == j;
                        assert(cands@[k] == old_cands[k]);
                    }
                }
            }
        }
        i = i + 1;
    }
    let ghost c = cands@;
    let r = first_least_ranked(cands);
    proof {
        if let Some(x) = r {
            let j = choose|j: int| #[trigger] is_first_least(c, j) && x == c[j].0;
            assert forall|m: int|
                #![trigger s[m]]
                0 <= m < s.len() && is_pass_element(s[m], pass, 18) implies engine_rank(s[m])
                >= engine_rank(s[x as int]) && (m < x ==> engine_rank(s[m]) > engine_rank(
                s[x as int],
            )) by {
                let k = choose|k: int| 0 <= k < c.len() && (#[trigger] c[k]).0 == m;
                assert(c[k].1 >= c[j].1);
                if m < x {
                    if k >= j {
                        if k > j {
                            assert(c[j].0 < c[k].0);
                        }
                    }
                    assert(k < j);
                    assert(c[k].1 > c[j].1);
                }
            }
        } else {
            assert forall|m: int|
                0 <= m < decodings@.len() implies !is_pass_element(#[trigger] s[m], pass, 18) by {
                if is_pass_element(s[m], pass, 18) {
                    let k = choose|k: int| 0 <= k < c.len() && (#[trigger] c[k]).0 == m;
                }
            }
        }
    }
    r
}


/// The manufacturer of a WMI, as the database row gives it: its id and name.
pub open spec fn manufacturer_of(row: Option<crate::types::ManufacturerRow>) -> (Option<i32>, Option<Seq<char>>) {
    match row {
        Some(x) => (x.id, opt_chars(x.name)),
        None => (None, None),
    }
}

/// The item naming the manufacturer (element 27).
pub open spec fn manufacturer_name_view(
    pass: i32,
    wmi: Seq<char>,
    wmi_id: i32,
    mfr: (Option<i32>, Option<Seq<char>>),
) -> ItemView {
    ItemView {
        decoding_id: Some(pass),
        source: Some("Manuf. Name"@),
        created_on: None,
        priority: Some(100),
        pattern_id: None,
        keys: Some(upper_text(wmi)),
        vin_schema_id: None,
        wmi_id: Some(wmi_id),
        element_id: Some(27),
        attribute_id: mfr.0,
        value: mfr.1,
    }
}

/// The item giving the manufacturer's id (element 157): the name item with
/// another source, element and value.
pub open spec fn manufacturer_id_view(
    pass: i32,
    wmi: Seq<char>,
    wmi_id: i32,
    mfr: (Option<i32>, Option<Seq<char>>),
) -> ItemView {
    ItemView {
        source: Some("Manuf. Id"@),
        value: match mfr.0 {
            Some(id) => Some(decimal_of(id as int)),
            None => None,
        },
        element_id: Some(157),
        ..manufacturer_name_view(pass, wmi, wmi_id, mfr)
    }
}

/// The two manufacturer items of a pass: see `manufacturer_name_view` and
/// `manufacturer_id_view`.
pub fn manufacturer_items(
    pass: i32,
    wmi: &str,
    wmi_id: i32,
    row: Option<crate::types::ManufacturerRow>,
) -> (r: (DecodingItem, DecodingItem))
    ensures
        r.0@ == manufacturer_name_view(pass, wmi@, wmi_id, manufacturer_of(row)),
        r.1@ == manufacturer_id_view(pass, wmi@, wmi_id, manufacturer_of(row)),
{
    let (mfr_id, mfr_name) = match row {
        Some(x) => (x.id, x.name),
        None => (None, None),
    };
    let name_item = DecodingItem {
        decoding_id: Some(pass),
        source: Some(owned("Manuf. Name")),
        priority: Some(100),
        created_on: None,
        pattern_id: None,
        keys: Some(to_uppercase(wmi)),
        vin_schema_id: None,
        wmi_id: Some(wmi_id),
        element_id: Some(27),
        attribute_id: mfr_id,
        value: mfr_name,
    };
    let id_item = DecodingItem {
        decoding_id: Some(pass),
        source: Some(owned("Manuf. Id")),
        priority: Some(100),
        created_on: None,
        pattern_id: None,
        keys: copy_opt_string(&name_item.keys),
        vin_schema_id: None,
        wmi_id: Some(wmi_id),
        element_id: Some(157),
        attribute_id: mfr_id,
        value: opt_decimal_string(mfr_id),
    };
    (name_item, id_item)
}

/// The item giving the model year (element 29) that the pass was started
/// with, and where that year came from.
pub open spec fn model_year_view(pass: i32, model_year: i32, source: Option<Seq<char>>) -> ItemView {
    ItemView {
        decoding_id: Some(pass),
        source: Some("ModelYear"@),
        created_on: None,
        priority: Some(100),
        pattern_id: None,
        keys: source,
        vin_schema_id: None,
        wmi_id: None,
        element_id: Some(29),
        attribute_id: Some(model_year),
        value: Some(decimal_of(model_year as int)),
    }
}

/// The model-year item of a pass: see `model_year_view`.
pub fn model_year_item(pass: i32, model_year: i32, source: &Option<String>) -> (r: DecodingItem)
    ensures
        r@ == model_year_view(pass, model_year, opt_chars(*source)),
{
    DecodingItem {
        decoding_id: Some(pass),
        source: Some(owned("ModelYear")),
        created_on: None,
        priority: Some(100),
        pattern_id: None,
        keys: copy_opt_string(source),
        vin_schema_id: None,
        wmi_id: None,
        element_id: Some(29),
        attribute_id: Some(model_year),
        value: Some(decimal_string(model_year)),
    }
}

/// The keys used to match formula patterns: the pattern keys with every
/// decimal digit replaced by '#', by the regex `\d`; for ASCII keys, every
/// ASCII digit.
pub open spec fn formula_keys_of(keys: Seq<char>) -> Seq<char> {
    if is_ascii_chars(keys) {
        replace_ascii_digits(keys, "#"@)
    } else {
        regex_replaced(digit_pattern(), keys, "#"@)
    }
}

/// The keys used to match formula patterns: see `formula_keys_of`. The digit
/// regex always compiles, so this is never `None`.
pub fn formula_keys(keys: &str) -> (r: Option<String>)
    ensures
        r matches Some(f) && f@ == formula_keys_of(keys@),
{
    proof {
        reveal_strlit("#");
        assert(!"#"@.contains('$')) by {
            assert("#"@[0] != '$');
        }
    }
    regex_replace_all("\\d", keys, "#")
}

/// An element whose items are never narrowed down to one.
pub open spec fn is_exempt_element(e: i32) -> bool {
    e == 121 || e == 129 || e == 150 || e == 154 || e == 155 || e == 114 || e == 169 || e == 186
}

/// An item of the pass whose element competes for a single kept item.
pub open spec fn is_contested(v: ItemView, pass: i32) -> bool {
    v.decoding_id == Some(pass) && !is_exempt_element(
        match v.element_id {
            Some(e) => e,
            None => 0,
        },
    )
}

/// The items that `retain_best` keeps as they are.
pub open spec fn uncontested_pred(pass: i32) -> spec_fn(ItemView) -> bool {
    |v: ItemView| !is_contested(v, pass)
}

/// The items among which `retain_best` keeps one per element.
pub open spec fn contested_pred(pass: i32) -> spec_fn(ItemView) -> bool {
    |v: ItemView| is_contested(v, pass)
}

/// `out` is what `retain_best` makes of the items `s` of a pass: the
/// uncontested items first, in their order, then the kept contested item of
/// each element, in an order left open.
pub open spec fn is_retained(out: Seq<ItemView>, s: Seq<ItemView>, pass: i32) -> bool {
    let keep = s.filter(uncontested_pred(pass));
    let cand = s.filter(contested_pred(pass));
    &&& out.len() >= keep.len()
    &&& out.take(keep.len() as int) == keep
    &&& is_best_per_element(out.skip(keep.len() as int), cand)
}

/// Keeps one item per element among the contested items of the pass (see
/// `is_contested`): the uncontested items come first, in their order, then the
/// kept contested item of each element, in an order left open.
pub fn retain_best(decodings: Vec<DecodingItem>, pass: i32) -> (r: Vec<DecodingItem>)
    ensures
        is_retained(item_views(r@), item_views(decodings@), pass),
{
    let ghost s = item_views(decodings@);
    let mut to_keep: Vec<DecodingItem> = Vec::new();
    let mut to_filter: Vec<DecodingItem> = Vec::new();
    let n = decodings.len();
    let mut i: usize = 0;
    while i < n
        invariant
            n == s.len(),
            s == item_views(decodings@),
            i <= n,
            item_views(to_keep@) == s.take(i as int).filter(uncontested_pred(pass)),
            item_views(to_filter@) == s.take(i as int).filter(contested_pred(pass)),
        decreases n - i,
    {
        let d = decodings[i].clone();
        assert(d@ == s[i as int]);
        proof {
            reveal(Seq::filter);
            assert(s.take(i as int + 1).drop_last() =~= s.take(i as int));
            assert(s.take(i as int + 1).last() == s[i as int]);
        }
        let c = d.decoding_id == Some(pass) && !(match d.element_id {
            Some(e) => e == 121 || e == 129 || e == 150 || e == 154 || e == 155 || e == 114 || e
                == 169 || e == 186,
            None => false,
        });
        assert(c == is_contested(s[i as int], pass));
        let ghost pk = uncontested_pred(pass);
        let ghost pc = contested_pred(pass);
        assert(pc(s[i as int]) == c);
        assert(pk(s[i as int]) == !c);
        if c {
            let ghost before = to_filter@;
            to_filter.push(d);
            assert(item_views(to_filter@) =~= item_views(before).push(s[i as int]));
        } else {
            let ghost before = to_keep@;
            to_keep.push(d);
            assert(item_views(to_keep@) =~= item_views(before).push(s[i as int]));
        }
        i = i + 1;
    }
    proof {
        assert(s.take(n as int) =~= s);
    }
    let best = best_per_element(to_filter);
    let ghost keep_views = item_views(to_keep@);
    let ghost best_views = item_views(best@);
    let mut out = to_keep;
    let mut b = best;
    out.append(&mut b);
    proof {
        assert(item_views(out@).take(keep_views.len() as int) =~= keep_views);
        assert(item_views(out@).skip(keep_views.len() as int) =~= best_views);
    }
    out
}

/// The item recording a make of the decoded model (element 26), taking the
/// model item's pattern, keys and schema.
pub open spec fn model_make_view(
    pass: i32,
    model: ItemView,
    attribute_id: Option<i32>,
    value: Option<Seq<char>>,
) -> ItemView {
    ItemView {
        decoding_id: Some(pass),
        source: Some("pattern - model"@),
        created_on: None,
        priority: Some(1000),
        pattern_id: model.pattern_id,
        keys: model.keys,
        vin_schema_id: model.vin_schema_id,
        wmi_id: None,
        element_id: Some(26),
        attribute_id,
        value,
    }
}

/// One make item per make row of the decoded model, in row order.
pub fn model_make_items(pass: i32, model: &DecodingItem, rows: &Vec<ModelMakeRow>) -> (r: Vec<
    DecodingItem,
>)
    ensures
        r@.len() == rows@.len(),
        forall|i: int|
            0 <= i < rows@.len() ==> (#[trigger] r@[i])@ == model_make_view(
                pass,
                model@,
                rows@[i].attribute_id,
                opt_chars(rows@[i].value),
            ),
{
    let mut r: Vec<DecodingItem> = Vec::new();
    let mut i: usize = 0;
    while i < rows.len()
        invariant
            i <= rows@.len(),
            r@.len() == i,
            forall|k: int|
                0 <= k < i ==> (#[trigger] r@[k])@ == model_make_view(
                    pass,
                    model@,
                    rows@[k].attribute_id,
                    opt_chars(rows@[k].value),
                ),
        decreases rows.len() - i,
    {
        let mm = &rows[i];
        r.push(
            DecodingItem {
                decoding_id: Some(pass),
                source: Some(owned("pattern - model")),
                created_on: None,
                priority: Some(1000),
                pattern_id: model.pattern_id,
                keys: copy_opt_string(&model.keys),
                vin_schema_id: model.vin_schema_id,
                wmi_id: None,
                element_id: Some(26),
                attribute_id: mm.attribute_id,
                value: copy_opt_string(&mm.value),
            },
        );
        i = i + 1;
    }
    r
}

/// The item recording the make of the WMI (element 26).
pub open spec fn wmi_make_view(pass: i32, wmi: Seq<char>, row: WmiMakeRow) -> ItemView {
    ItemView {
        decoding_id: Some(pass),
        source: Some("Make"@),
        created_on: row.created_on,
        priority: Some(-100i32),
        pattern_id: None,
        keys: Some(wmi),
        vin_schema_id: None,
        wmi_id: row.wmi_id,
        element_id: Some(26),
        attribute_id: row.attribute_id,
        value: opt_chars(row.value),
    }
}

/// The make item of the WMI, when exactly one make is registered for it.
pub fn wmi_make_item(pass: i32, wmi: &str, rows: Vec<WmiMakeRow>) -> (r: Option<DecodingItem>)
    ensures
        r is Some <==> rows@.len() == 1,
        r matches Some(d) ==> d@ == wmi_make_view(pass, wmi@, rows@[0]),
{
    if rows.len() != 1 {
        return None;
    }
    let mm = &rows[0];
    Some(
        DecodingItem {
            decoding_id: Some(pass),
            source: Some(owned("Make")),
            created_on: mm.created_on,
            priority: Some(-100),
            pattern_id: None,
            keys: Some(owned(wmi)),
            vin_schema_id: None,
            wmi_id: mm.wmi_id,
            element_id: Some(26),
            attribute_id: mm.attribute_id,
            value: copy_opt_string(&mm.value),
        },
    )
}


/// The id of a schema pattern row, if it has one.
pub open spec fn schema_row_id() -> spec_fn(SpecSchemaRow) -> Option<i32> {
    |x: SpecSchemaRow| x.id
}

/// The ids of the schema patterns, skipping rows without one, in row order.
pub fn schema_pattern_ids(temp: &Vec<SpecSchemaRow>) -> (r: Vec<i32>)
    ensures
        r@ == temp@.filter_map(schema_row_id()),
{
    let mut r: Vec<i32> = Vec::new();
    let mut i: usize = 0;
    while i < temp.len()
        invariant
            i <= temp@.len(),
            r@ == temp@.take(i as int).filter_map(schema_row_id()),
        decreases temp.len() - i,
    {
        assert(temp@.take(i as int + 1).drop_last() =~= temp@.take(i as int));
        if let Some(id) = temp[i].id {
            r.push(id);
        }
        i = i + 1;
    }
    assert(temp@.take(temp@.len() as int) =~= temp@);
    r
}

/// The items that belong to the pass.
pub open spec fn pass_pred(pass: i32) -> spec_fn(ItemView) -> bool {
    |v: ItemView| in_pass(v, pass)
}

/// A key row of a vehicle specification pattern matches an item with the same
/// element and attribute.
pub open spec fn key_row_matches(v: ItemView, row: SpecKeyRow) -> bool {
    v.element_id == row.element_id && v.attribute_id == row.attribute_id
}

/// For one key row, the entries (position among the pass's items, pattern id)
/// of the first `n` items of the pass that it matches, in item order.
pub open spec fn row_entries(cur: Seq<ItemView>, row: SpecKeyRow, n: int) -> Seq<(usize, Option<i32>)>
    decreases n,
{
    if n <= 0 {
        Seq::empty()
    } else {
        row_entries(cur, row, n - 1) + if key_row_matches(cur[n - 1], row) {
            seq![((n - 1) as usize, row.v_spec_schema_pattern_id)]
        } else {
            Seq::empty()
        }
    }
}

/// The entries of all key rows, row by row: each pairs the position of a
/// matching item among the items of the pass with the row's pattern id.
pub open spec fn key_entries(cur: Seq<ItemView>, rows: Seq<SpecKeyRow>) -> Seq<(usize, Option<i32>)>
    decreases rows.len(),
{
    if rows.len() == 0 {
        Seq::empty()
    } else {
        key_entries(cur, rows.drop_last()) + row_entries(cur, rows.last(), cur.len() as int)
    }
}

/// The items of the pass, in order.
pub fn pass_items(decodings: &Vec<DecodingItem>, pass: i32) -> (r: Vec<DecodingItem>)
    ensures
        item_views(r@) == item_views(decodings@).filter(pass_pred(pass)),
{
    let ghost s = item_views(decodings@);
    let mut r: Vec<DecodingItem> = Vec::new();
    let mut i: usize = 0;
    while i < decodings.len()
        invariant
            s == item_views(decodings@),
            i <= decodings@.len(),
            item_views(r@) == s.take(i as int).filter(pass_pred(pass)),
        decreases decodings.len() - i,
    {
        proof {
            reveal(Seq::filter);
            assert(s.take(i as int + 1).drop_last() =~= s.take(i as int));
        }
        if decodings[i].decoding_id == Some(pass) {
            let ghost before = r@;
            r.push(decodings[i].clone());
            assert(item_views(r@) =~= item_views(before).push(s[i as int]));
        }
        i = i + 1;
    }
    assert(s.take(s.len() as int) =~= s);
    r
}

/// The entries of the key rows against the items of the pass: see
/// `key_entries`.
pub fn matching_entries(cur: &Vec<DecodingItem>, rows: &Vec<SpecKeyRow>) -> (r: Vec<
    (usize, Option<i32>),
>)
    ensures
        r@ == key_entries(item_views(cur@), rows@),
{
    let ghost c = item_views(cur@);
    let mut r: Vec<(usize, Option<i32>)> = Vec::new();
    let mut j: usize = 0;
    while j < rows.len()
        invariant
            c == item_views(cur@),
            j <= rows@.len(),
            r@ == key_entries(c, rows@.take(j as int)),
        decreases rows.len() - j,
    {
        let row = &rows[j];
        let ghost before = r@;
        let mut i: usize = 0;
        while i < cur.len()
            invariant
                c == item_views(cur@),
                i <= cur@.len(),
                j < rows@.len(),
                *row == rows@[j as int],
                r@ == before + row_entries(c, *row, i as int),
            decreases cur.len() - i,
        {
            if cur[i].element_id == row.element_id && cur[i].attribute_id == row.attribute_id {
                r.push((i, row.v_spec_schema_pattern_id));
            }
            proof {
                assert(c[i as int] == cur@[i as int]@);
                assert(r@ =~= before + row_entries(c, *row, i as int + 1));
            }
            i = i + 1;
        }
        proof {
            assert(rows@.take(j as int + 1).drop_last() =~= rows@.take(j as int));
            assert(rows@.take(j as int + 1).last() == rows@[j as int]);
            assert(c.len() == cur@.len());
        }
        j = j + 1;
    }
    assert(rows@.take(rows@.len() as int) =~= rows@);
    r
}

/// The entries that carry the given pattern id.
pub open spec fn entries_with(entries: Seq<(usize, Option<i32>)>, id: Option<i32>) -> Seq<(usize, Option<i32>)> {
    entries.filter(|e: (usize, Option<i32>)| e.1 == id)
}

/// The pattern ids that occur in at least two entries, each once, in an order
/// left open.
pub fn repeated_patterns(entries: Vec<(usize, Option<i32>)>) -> (r: Vec<Option<i32>>)
    ensures
        forall|k1: int, k2: int|
            0 <= k1 < r@.len() && 0 <= k2 < r@.len() && k1 != k2 ==> r@[k1] != r@[k2],
        forall|id: Option<i32>| r@.contains(id) <==> entries_with(entries@, id).len() >= 2,
{
    let ghost e = entries@;
    let groups = group_by_pattern(entries);
    let mut r: Vec<Option<i32>> = Vec::new();
    let ghost mut picked: Seq<int> = Seq::empty();
    let mut g: usize = 0;
    while g < groups.len()
        invariant
            g <= groups@.len(),
            forall|g1: int, g2: int|
                0 <= g1 < groups@.len() && 0 <= g2 < groups@.len() && g1 != g2 ==> (
                #[trigger] groups@[g1]).0 != (#[trigger] groups@[g2]).0,
            forall|h: int|
                0 <= h < groups@.len() ==> (#[trigger] groups@[h]).1@ == entries_with(e, groups@[h].0),
            r@.len() == picked.len(),
            forall|k: int|
                0 <= k < picked.len() ==> 0 <= #[trigger] picked[k] < g && r@[k]
                    == groups@[picked[k]].0,
            forall|k1: int, k2: int|
                0 <= k1 < k2 < picked.len() ==> #[trigger] picked[k1] < #[trigger] picked[k2],
            forall|h: int|
                0 <= h < g ==> ((#[trigger] groups@[h]).1@.len() >= 2 <==> r@.contains(
                    groups@[h].0,
                )),
        decreases groups.len() - g,
    {
        let ghost r_old = r@;
        let n = groups[g].1.len();
        let exact = dedup_exact_len(&groups[g].1);
        let len_or_zero: usize = match exact {
            Some(x) => x,
            None => 0,
        };
        if len_or_zero != n {
            r.push(groups[g].0);
            proof {
                picked = picked.push(g as int);
            }
        }
        proof {
            assert forall|h: int|
                0 <= h < g + 1 implies ((#[trigger] groups@[h]).1@.len() >= 2 <==> r@.contains(
                groups@[h].0,
            )) by {
                if r@.contains(groups@[h].0) {
                    let k = choose|k: int| 0 <= k < r@.len() && r@[k] == groups@[h].0;
                    assert(groups@[picked[k]].0 == groups@[h].0);
                    assert(picked[k] == h);
                }
                if groups@[h].1@.len() >= 2 {
                    if h < g {
                        assert(r_old.contains(groups@[h].0));
                        let k = choose|k: int| 0 <= k < r_old.len() && r_old[k] == groups@[h].0;
                        assert(r@[k] == r_old[k]);
                        assert(r@.contains(groups@[h].0));
                    } else {
                        assert(r@[r@.len() - 1] == groups@[h].0);
                    }
                }
            }
        }
        g = g + 1;
    }
    proof {
        assert forall|k1: int, k2: int|
            0 <= k1 < r@.len() && 0 <= k2 < r@.len() && k1 != k2 implies r@[k1] != r@[k2] by {
            if k1 < k2 {
                assert(picked[k1] < picked[k2]);
            } else {
                assert(picked[k2] < picked[k1]);
            }
        }
        assert forall|id: Option<i32>| r@.contains(id) <==> entries_with(e, id).len() >= 2 by {
            if r@.contains(id) {
                let k = choose|k: int| 0 <= k < r@.len() && r@[k] == id;
                let h = picked[k];
                assert(groups@[h].1@.len() >= 2);
            }
            if entries_with(e, id).len() >= 2 {
                let f = entries_with(e, id);
                let pred = |x: (usize, Option<i32>)| x.1 == id;
                assert(f.contains(f[0]));
                e.lemma_filter_contains_rev(pred, f[0]);
                e.lemma_filter_pred(pred, 0);
                let i = choose|i: int| 0 <= i < e.len() && e[i] == f[0];
                assert(e[i].1 == id);
                let h = choose|h: int| 0 <= h < groups@.len() && (#[trigger] groups@[h]).0 == e[i].1;
                assert(groups@[h].1@.len() >= 2);
            }
        }
    }
    r
}


/// The first position at or after `p` where `listed` holds `x`.
pub open spec fn find_from(listed: Seq<Option<i32>>, p: int, x: Option<i32>) -> Option<int>
    decreases listed.len() - p,
{
    if p < 0 || p >= listed.len() {
        None
    } else if listed[p] == x {
        Some(p)
    } else {
        find_from(listed, p + 1, x)
    }
}

/// The schema rows kept when each row's id is looked up in `listed` by
/// advancing one cursor through it, as repeated `Itertools::contains` calls on
/// one iterator do: a row is kept when its id is found at or after the cursor,
/// and the cursor then moves past it; otherwise the cursor reaches the end.
/// Also returns the final cursor.
pub open spec fn scan_keep(temp: Seq<SpecSchemaRow>, listed: Seq<Option<i32>>) -> (Seq<SpecSchemaRow>, int)
    decreases temp.len(),
{
    if temp.len() == 0 {
        (Seq::empty(), 0)
    } else {
        let (kept, p) = scan_keep(temp.drop_last(), listed);
        match find_from(listed, p, temp.last().id) {
            Some(q) => (kept.push(temp.last()), q + 1),
            None => (kept, listed.len() as int),
        }
    }
}

/// The schema rows that survive the cursor scan of `listed`: see `scan_keep`.
pub fn keep_listed(temp: &Vec<SpecSchemaRow>, listed: &Vec<Option<i32>>) -> (r: Vec<SpecSchemaRow>)
    ensures
        r@ == scan_keep(temp@, listed@).0,
{
    let mut r: Vec<SpecSchemaRow> = Vec::new();
    let mut p: usize = 0;
    let mut i: usize = 0;
    while i < temp.len()
        invariant
            i <= temp@.len(),
            (r@, p as int) == scan_keep(temp@.take(i as int), listed@),
            p <= listed@.len(),
        decreases temp.len() - i,
    {
        assert(temp@.take(i as int + 1).drop_last() =~= temp@.take(i as int));
        let x = temp[i].id;
        let p0 = p;
        while p < listed.len() && listed[p] != x
            invariant
                p0 <= p <= listed@.len(),
                find_from(listed@, p0 as int, x) == find_from(listed@, p as int, x),
            decreases listed.len() - p,
        {
            p = p + 1;
        }
        if p < listed.len() {
            r.push(temp[i]);
            p = p + 1;
        }
        i = i + 1;
    }
    assert(temp@.take(temp@.len() as int) =~= temp@);
    r
}

/// An element whose items of the pass keep vehicle-specification values off.
pub open spec fn is_spec_exempt_element(e: i32) -> bool {
    e == 1 || e == 114 || e == 121 || e == 129 || e == 150 || e == 154 || e == 155 || e == 169
        || e == 186
}

/// Some item of the pass decodes element `e`, and that element keeps
/// vehicle-specification values off.
pub open spec fn is_relevant(s: Seq<ItemView>, pass: i32, e: Option<i32>) -> bool {
    exists|i: int|
        0 <= i < s.len() && in_pass(#[trigger] s[i], pass) && s[i].element_id == e
            && is_spec_exempt_element(
            match s[i].element_id {
                Some(x) => x,
                None => 0,
            },
        )
}

/// The elements of the pass that keep vehicle-specification values off: see
/// `is_relevant`.
pub fn relevant_elements(decodings: &Vec<DecodingItem>, pass: i32) -> (r: Vec<Option<i32>>)
    ensures
        forall|e: Option<i32>| r@.contains(e) <==> is_relevant(item_views(decodings@), pass, e),
{
    let ghost s = item_views(decodings@);
    let mut r: Vec<Option<i32>> = Vec::new();
    let mut i: usize = 0;
    while i < decodings.len()
        invariant
            s == item_views(decodings@),
            i <= decodings@.len(),
            forall|e: Option<i32>|
                #![trigger r@.contains(e)]
                #![trigger is_relevant(s.take(i as int), pass, e)]
                r@.contains(e) <==> is_relevant(s.take(i as int), pass, e),
        decreases decodings.len() - i,
    {
        let d = &decodings[i];
        let e0: i32 = match d.element_id {
            Some(x) => x,
            None => 0,
        };
        let hit = (e0 == 1 || e0 == 114 || e0 == 121 || e0 == 129 || e0 == 150 || e0 == 154 || e0
            == 155 || e0 == 169 || e0 == 186) && d.decoding_id == Some(pass);
        let ghost before = r@;
        if hit {
            r.push(d.element_id);
        }
        proof {
            assert(s[i as int] == d@);
            assert forall|e: Option<i32>|
                r@.contains(e) <==> is_relevant(s.take(i as int + 1), pass, e) by {
                let t = s.take(i as int + 1);
                if r@.contains(e) {
                    let k = choose|k: int| 0 <= k < r@.len() && r@[k] == e;
                    if k < before.len() {
                        assert(before.contains(e));
                        let j = choose|j: int|
                            0 <= j < i && in_pass(#[trigger] s.take(i as int)[j], pass)
                                && s.take(i as int)[j].element_id == e && is_spec_exempt_element(
                                match s.take(i as int)[j].element_id {
                                    Some(x) => x,
                                    None => 0,
                                },
                            );
                        assert(t[j] == s.take(i as int)[j]);
                    } else {
                        assert(t[i as int] == s[i as int]);
                    }
                }
                if is_relevant(t, pass, e) {
                    let j = choose|j: int|
                        0 <= j < t.len() && in_pass(#[trigger] t[j], pass) && t[j].element_id == e
                            && is_spec_exempt_element(
                            match t[j].element_id {
                                Some(x) => x,
                                None => 0,
                            },
                        );
                    if j < i {
                        assert(s.take(i as int)[j] == t[j]);
                        assert(is_relevant(s.take(i as int), pass, e));
                        let k = choose|k: int| 0 <= k < before.len() && before[k] == e;
                        assert(r@[k] == before[k]);
                    } else {
                        assert(r@[r@.len() - 1] == e);
                    }
                }
            }
        }
        i = i + 1;
    }
    assert(s.take(s.len() as int) =~= s);
    r
}

/// Whether the list holds `e`.
pub fn holds(list: &Vec<Option<i32>>, e: Option<i32>) -> (r: bool)
    ensures
        r == list@.contains(e),
{
    let mut i: usize = 0;
    while i < list.len()
        invariant
            i <= list@.len(),
            forall|k: int| 0 <= k < i ==> list@[k] != e,
        decreases list.len() - i,
    {
        if list[i] == e {
            return true;
        }
        i = i + 1;
    }
    false
}

/// The item recording a vehicle-specification value, to be resolved later.
pub open spec fn spec_value_view(pass: i32, x: SpecValueRow) -> ItemView {
    ItemView {
        decoding_id: Some(pass),
        source: Some("Vehicle Specs"@),
        created_on: x.changed_on,
        priority: Some(-100i32),
        pattern_id: x.v_spec_schema_pattern_id,
        keys: Some(Seq::empty()),
        vin_schema_id: x.schema_id,
        wmi_id: None,
        element_id: x.element_id,
        attribute_id: x.attribute_id,
        value: Some("XXX"@),
    }
}

/// One copy of the row's item for each of the first `n` kept schema patterns
/// whose id equals the row's pattern id, unless the row's element is
/// relevant.
pub open spec fn value_copies(
    pass: i32,
    x: SpecValueRow,
    temp: Seq<SpecSchemaRow>,
    relevant: bool,
    n: int,
) -> Seq<ItemView>
    decreases n,
{
    if n <= 0 {
        Seq::empty()
    } else {
        value_copies(pass, x, temp, relevant, n - 1) + if temp[n - 1].id == x.id && !relevant {
            seq![spec_value_view(pass, x)]
        } else {
            Seq::empty()
        }
    }
}

/// The vehicle-specification items of all value rows, row by row.
pub open spec fn spec_value_views(
    pass: i32,
    rows: Seq<SpecValueRow>,
    temp: Seq<SpecSchemaRow>,
    s: Seq<ItemView>,
) -> Seq<ItemView>
    decreases rows.len(),
{
    if rows.len() == 0 {
        Seq::empty()
    } else {
        spec_value_views(pass, rows.drop_last(), temp, s) + value_copies(
            pass,
            rows.last(),
            temp,
            is_relevant(s, pass, rows.last().element_id),
            temp.len() as int,
        )
    }
}

/// The vehicle-specification items: see `spec_value_views`.
pub fn spec_value_items(
    pass: i32,
    rows: &Vec<SpecValueRow>,
    temp: &Vec<SpecSchemaRow>,
    decodings: &Vec<DecodingItem>,
) -> (r: Vec<DecodingItem>)
    ensures
        item_views(r@) == spec_value_views(pass, rows@, temp@, item_views(decodings@)),
{
    let ghost s = item_views(decodings@);
    let relevant = relevant_elements(decodings, pass);
    let mut r: Vec<DecodingItem> = Vec::new();
    let mut j: usize = 0;
    while j < rows.len()
        invariant
            s == item_views(decodings@),
            forall|e: Option<i32>| relevant@.contains(e) <==> is_relevant(s, pass, e),
            j <= rows@.len(),
            item_views(r@) == spec_value_views(pass, rows@.take(j as int), temp@, s),
        decreases rows.len() - j,
    {
        let x = &rows[j];
        let rel = holds(&relevant, x.element_id);
        let ghost before = item_views(r@);
        let mut k: usize = 0;
        while k < temp.len()
            invariant
                j < rows@.len(),
                *x == rows@[j as int],
                rel == is_relevant(s, pass, x.element_id),
                k <= temp@.len(),
                item_views(r@) == before + value_copies(pass, *x, temp@, rel, k as int),
            decreases temp.len() - k,
        {
            let ghost pre = r@;
            if temp[k].id == x.id && !rel {
                r.push(
                    DecodingItem {
                        decoding_id: Some(pass),
                        source: Some(owned("Vehicle Specs")),
                        created_on: x.changed_on,
                        priority: Some(-100),
                        pattern_id: x.v_spec_schema_pattern_id,
                        keys: Some(String::new()),
                        vin_schema_id: x.schema_id,
                        wmi_id: None,
                        element_id: x.element_id,
                        attribute_id: x.attribute_id,
                        value: Some(owned("XXX")),
                    },
                );
                assert(item_views(r@) =~= item_views(pre).push(spec_value_view(pass, *x)));
            }
            assert(item_views(r@) =~= before + value_copies(pass, *x, temp@, rel, k as int + 1));
            k = k + 1;
        }
        proof {
            assert(rows@.take(j as int + 1).drop_last() =~= rows@.take(j as int));
            assert(rows@.take(j as int + 1).last() == rows@[j as int]);
        }
        j = j + 1;
    }
    assert(rows@.take(rows@.len() as int) =~= rows@);
    r
}

/// Adjacent equal entries collapsed into one, as itertools' `dedup` does.
pub open spec fn dedup_seq(v: Seq<i32>) -> Seq<i32>
    decreases v.len(),
{
    if v.len() == 0 {
        v
    } else if v.len() >= 2 && v[v.len() - 2] == v.last() {
        dedup_seq(v.drop_last())
    } else {
        dedup_seq(v.drop_last()).push(v.last())
    }
}

/// The entries of `v` with adjacent repeats collapsed: see `dedup_seq`.
pub fn dedup_adjacent(v: &Vec<i32>) -> (r: Vec<i32>)
    ensures
        r@ == dedup_seq(v@),
        forall|e: i32| r@.contains(e) <==> v@.contains(e),
{
    let mut r: Vec<i32> = Vec::new();
    let mut i: usize = 0;
    while i < v.len()
        invariant
            i <= v@.len(),
            r@ == dedup_seq(v@.take(i as int)),
            i > 0 ==> r@.len() > 0 && r@.last() == v@[i - 1],
            forall|e: i32|
                #![trigger r@.contains(e)]
                #![trigger v@.take(i as int).contains(e)]
                r@.contains(e) <==> v@.take(i as int).contains(e),
        decreases v.len() - i,
    {
        let ghost t = v@.take(i as int + 1);
        assert(t.drop_last() =~= v@.take(i as int));
        let ghost before = r@;
        if i > 0 && v[i - 1] == v[i] {
            assert(t[t.len() - 2] == v@[i - 1]);
        } else {
            r.push(v[i]);
        }
        proof {
            assert forall|e: i32| r@.contains(e) <==> t.contains(e) by {
                if t.contains(e) {
                    let k = choose|k: int| 0 <= k < t.len() && t[k] == e;
                    if k < i {
                        assert(v@.take(i as int)[k] == e);
                        assert(before.contains(e));
                        let m = choose|m: int| 0 <= m < before.len() && before[m] == e;
                        assert(r@[m] == before[m]);
                    } else if r@.len() > before.len() {
                        assert(r@[r@.len() - 1] == e);
                    } else {
                        assert(before.last() == e);
                        assert(r@[r@.len() - 1] == e);
                    }
                }
                if r@.contains(e) {
                    let m = choose|m: int| 0 <= m < r@.len() && r@[m] == e;
                    if m < before.len() {
                        assert(before[m] == e);
                        assert(v@.take(i as int).contains(e));
                        let k = choose|k: int| 0 <= k < i && v@.take(i as int)[k] == e;
                        assert(t[k] == e);
                    } else {
                        assert(t[i as int] == e);
                    }
                }
            }
        }
        i = i + 1;
    }
    assert(v@.take(v@.len() as int) =~= v@);
    r
}

/// Some item of the pass decodes element `e`.
pub open spec fn has_pass_element(s: Seq<ItemView>, pass: i32, e: i32) -> bool {
    exists|i: int| 0 <= i < s.len() && in_pass(#[trigger] s[i], pass) && s[i].element_id == Some(e)
}

/// The elements decoded by the pass, with adjacent repeats collapsed.
pub fn pass_elements(decodings: &Vec<DecodingItem>, pass: i32) -> (r: Vec<i32>)
    ensures
        forall|e: i32| r@.contains(e) <==> has_pass_element(item_views(decodings@), pass, e),
{
    let ghost s = item_views(decodings@);
    let mut v: Vec<i32> = Vec::new();
    let mut i: usize = 0;
    while i < decodings.len()
        invariant
            s == item_views(decodings@),
            i <= decodings@.len(),
            forall|e: i32|
                #![trigger v@.contains(e)]
                #![trigger has_pass_element(s.take(i as int), pass, e)]
                v@.contains(e) <==> has_pass_element(s.take(i as int), pass, e),
        decreases decodings.len() - i,
    {
        let d = &decodings[i];
        let ghost before = v@;
        if d.decoding_id == Some(pass) {
            if let Some(e) = d.element_id {
                v.push(e);
            }
        }
        proof {
            let t = s.take(i as int + 1);
            assert(s[i as int] == d@);
            assert forall|e: i32| v@.contains(e) <==> has_pass_element(t, pass, e) by {
                if v@.contains(e) {
                    let k = choose|k: int| 0 <= k < v@.len() && v@[k] == e;
                    if k < before.len() {
                        assert(before.contains(e));
                        let j = choose|j: int|
                            0 <= j < i && in_pass(#[trigger] s.take(i as int)[j], pass)
                                && s.take(i as int)[j].element_id == Some(e);
                        assert(t[j] == s.take(i as int)[j]);
                    } else {
                        assert(t[i as int] == s[i as int]);
                    }
                }
                if has_pass_element(t, pass, e) {
                    let j = choose|j: int|
                        0 <= j < t.len() && in_pass(#[trigger] t[j], pass) && t[j].element_id == Some(
                            e,
                        );
                    if j < i {
                        assert(s.take(i as int)[j] == t[j]);
                        assert(has_pass_element(s.take(i as int), pass, e));
                        let k = choose|k: int| 0 <= k < before.len() && before[k] == e;
                        assert(v@[k] == before[k]);
                    } else {
                        assert(v@[v@.len() - 1] == e);
                    }
                }
            }
        }
        i = i + 1;
    }
    assert(s.take(s.len() as int) =~= s);
    dedup_adjacent(&v)
}

/// Whether the list holds element `e`.
pub fn holds_element(list: &Vec<i32>, e: i32) -> (r: bool)
    ensures
        r == list@.contains(e),
{
    let mut i: usize = 0;
    while i < list.len()
        invariant
            i <= list@.len(),
            forall|k: int| 0 <= k < i ==> list@[k] != e,
        decreases list.len() - i,
    {
        if list[i] == e {
            return true;
        }
        i = i + 1;
    }
    false
}

/// The item recording a default value of an element (element and attribute
/// from the row).
pub open spec fn default_view(pass: i32, r: DefaultValueRow) -> ItemView {
    ItemView {
        decoding_id: Some(pass),
        source: Some("default"@),
        created_on: r.created_on,
        priority: Some(10i32),
        pattern_id: None,
        keys: None,
        vin_schema_id: None,
        wmi_id: None,
        element_id: r.element_id,
        attribute_id: r.default_value,
        value: opt_chars(r.value),
    }
}

/// A default row applies: it is for the vehicle type, has a default value,
/// and its element (-999 when absent) is not yet decoded by the pass.
pub open spec fn default_applies(r: DefaultValueRow, vt: Option<i32>, s: Seq<ItemView>, pass: i32) -> bool {
    &&& r.vehicle_type_id == vt
    &&& r.default_value is Some
    &&& !has_pass_element(
        s,
        pass,
        match r.element_id {
            Some(e) => e,
            None => -999i32,
        },
    )
}

/// The default item of a row, when the row applies.
pub open spec fn default_of(vt: Option<i32>, s: Seq<ItemView>, pass: i32) -> spec_fn(DefaultValueRow) -> Option<ItemView> {
    |r: DefaultValueRow| if default_applies(r, vt, s, pass) {
        Some(default_view(pass, r))
    } else {
        None
    }
}

/// The default items of the rows that apply, in row order.
pub fn default_items(
    pass: i32,
    vt: Option<i32>,
    decodings: &Vec<DecodingItem>,
    rows: &Vec<DefaultValueRow>,
) -> (r: Vec<DecodingItem>)
    ensures
        item_views(r@) == rows@.filter_map(default_of(vt, item_views(decodings@), pass)),
{
    let ghost s = item_views(decodings@);
    let elements = pass_elements(decodings, pass);
    let mut r: Vec<DecodingItem> = Vec::new();
    let mut i: usize = 0;
    while i < rows.len()
        invariant
            s == item_views(decodings@),
            forall|e: i32| elements@.contains(e) <==> has_pass_element(s, pass, e),
            i <= rows@.len(),
            item_views(r@) == rows@.take(i as int).filter_map(default_of(vt, s, pass)),
        decreases rows.len() - i,
    {
        let row = &rows[i];
        assert(rows@.take(i as int + 1).drop_last() =~= rows@.take(i as int));
        assert(rows@.take(i as int + 1).last() == rows@[i as int]);
        let e: i32 = match row.element_id {
            Some(x) => x,
            None => -999,
        };
        let seen = holds_element(&elements, e);
        let ghost before = r@;
        if row.vehicle_type_id == vt && row.default_value.is_some() && !seen {
            r.push(
                DecodingItem {
                    decoding_id: Some(pass),
                    source: Some(owned("default")),
                    created_on: row.created_on,
                    priority: Some(10),
                    pattern_id: None,
                    keys: None,
                    vin_schema_id: None,
                    wmi_id: None,
                    element_id: row.element_id,
                    attribute_id: row.default_value,
                    value: copy_opt_string(&row.value),
                },
            );
            assert(item_views(r@) =~= item_views(before).push(default_view(pass, *row)));
        }
        i = i + 1;
    }
    assert(rows@.take(rows@.len() as int) =~= rows@);
    r
}

} // verus!
