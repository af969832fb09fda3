//! Decoding a VIN, as a state machine around the decoding pass: normalise
//! the VIN, look up a model year by its descriptor, run one pass, resolve the
//! attribute names that the pass left open, and lay the items out along the
//! element list. Each method takes the state and what the database answered,
//! and gives the next query to run, or the result.
use vstd::prelude::*;

use crate::core_pass::{sp_vin_decode_core, CoreDecoder, CoreQuery, CoreStage, DecodeError};
use crate::core_rules::{core_accepts, core_readable, keys_of};
use crate::element_attribute::{attribute_table, attribute_table_of};
use crate::patterns::{regex_is_valid, regex_replace_all, replace_value_codes};
use crate::text::{
    copy_opt_string, decimal_of, decimal_string, opt_str_is, owned, to_uppercase, trim,
    trimmed, upper_text,
};
use crate::types::{
    empty_item_view, item_views, opt_chars, DecodingItem, DecodingOutput, ElementRow, ItemView,
    OutputView, SpVinDecodeArgs, SpVinDecodeCoreArgs,
};
use crate::vin::{
    descriptor_accepts, descriptor_of, model_year_accepts, model_year_at, model_year_of,
    model_year_readable, vin_descriptor, wmi_of,
};

verus! {

/// The normalised form of a VIN: trimmed, then upper-cased.
pub open spec fn normalized(v: Seq<char>) -> Seq<char> {
    upper_text(trimmed(v))
}

/// The earliest model year that a descriptor record may carry.
pub const EARLIEST_MODEL_YEAR: i32 = 1980;

/// The model year of a descriptor record, kept only when it lies between
/// 1980 and `max_model_year`.
pub open spec fn descriptor_year(row: Option<Option<i32>>, max_model_year: i32) -> Option<i32> {
    match row {
        Some(Some(y)) => if EARLIEST_MODEL_YEAR <= y <= max_model_year {
            Some(y)
        } else {
            None
        },
        _ => None,
    }
}

/// Where in the decoding a VIN turned out to be unreadable: a byte offset
/// that the decoder slices at is not a character boundary.
#[derive(Debug, Clone, Copy, PartialEq, Eq, Structural)]
pub enum Malformed {
    /// While taking the descriptor.
    Descriptor,
    /// While reading the model-year code.
    ModelYear,
    /// While reading the WMI or the pattern keys.
    Keys,
}

/// The answer that the decoder waits for.
#[derive(Debug, Clone, Copy, PartialEq, Eq, Structural)]
pub enum DecodeStage {
    AwaitDescriptorYear,
    AwaitPass,
    AwaitAttribute,
    AwaitElements,
}

/// A database query that the decoder asks for.
pub enum DecodeQuery {
    /// The model year recorded for a descriptor.
    DescriptorYear { descriptor: String },
    /// The name of row `attribute_id` of `table`.
    AttributeName { table: &'static str, attribute_id: i32 },
    /// The elements to report, in report order.
    Elements { include_all: Option<bool>, include_private: Option<bool> },
}

/// The state of a decoding.
pub struct VinDecoder {
    pub stage: DecodeStage,
    /// The normalised VIN.
    pub vin: String,
    /// The VIN's descriptor.
    pub descriptor: String,
    pub include_private: Option<bool>,
    pub include_all: Option<bool>,
    /// The latest model year a descriptor record may carry.
    pub max_model_year: i32,
    /// The current year, against which a model-year code is resolved.
    pub current_year: i32,
    /// The items of the pass.
    pub decodings: Vec<DecodingItem>,
    /// The item whose attribute name is asked for.
    pub cursor: usize,
}

/// What the decoder does next.
pub enum DecodeOutcome {
    /// Run the query and hand its answer to the state.
    Query(VinDecoder, DecodeQuery),
    /// Run the decoding pass to its end and hand its items to the state.
    RunPass(VinDecoder, CoreDecoder, CoreQuery),
    /// The decoding is over.
    Done(Vec<DecodingOutput>),
    /// The decoding stopped.
    Failed(DecodeError),
    /// The VIN cannot be read at this point.
    Malformed(Malformed),
}

/// The position of a stage in the order in which the decoder asks its
/// queries.
pub open spec fn decode_stage_order(s: DecodeStage) -> int {
    match s {
        DecodeStage::AwaitDescriptorYear => 0,
        DecodeStage::AwaitPass => 1,
        DecodeStage::AwaitAttribute => 2,
        DecodeStage::AwaitElements => 3,
    }
}

/// A step of the decoder moves it forward: to a later stage, or, while
/// attribute names are looked up, to a later item of an unchanged number of
/// items; a name is only asked for an item that exists.
pub open spec fn moves_on(d: VinDecoder, out: DecodeOutcome) -> bool {
    match out {
        DecodeOutcome::Query(n, _) => {
            &&& (decode_stage_order(d.stage) < decode_stage_order(n.stage) || (d.stage
                == DecodeStage::AwaitAttribute && n.stage == DecodeStage::AwaitAttribute
                && d.cursor < n.cursor && n.decodings@.len() == d.decodings@.len()))
            &&& (n.stage == DecodeStage::AwaitAttribute ==> n.cursor < n.decodings@.len())
        },
        DecodeOutcome::RunPass(n, _, _) => decode_stage_order(d.stage) < decode_stage_order(
            n.stage,
        ),
        _ => true,
    }
}

/// Two decoder states share the request: VIN, descriptor, flags and years.
pub open spec fn same_request(a: VinDecoder, b: VinDecoder) -> bool {
    &&& a.vin@ == b.vin@
    &&& a.descriptor@ == b.descriptor@
    &&& a.include_private == b.include_private
    &&& a.include_all == b.include_all
    &&& a.max_model_year == b.max_model_year
    &&& a.current_year == b.current_year
}

/// `c` and `q` start a pass over `vin` with the given pass number and model
/// year, the descriptor as the model year's source, and records that are not
/// publicly available left out.
pub open spec fn starts_pass(
    c: CoreDecoder,
    q: CoreQuery,
    vin: Seq<char>,
    pass: i32,
    model_year: Option<i32>,
    descriptor: Seq<char>,
    include_private: Option<bool>,
) -> bool {
    &&& c.stage == CoreStage::AwaitWmiId
    &&& c.pass == pass
    &&& c.model_year == model_year
    &&& opt_chars(c.model_year_source) == Some(descriptor)
    &&& c.include_private == include_private
    &&& c.include_not_publicly_available == Some(false)
    &&& c.wmi@ == wmi_of(vin)
    &&& c.keys@ == keys_of(vin)
    &&& c.decodings@.len() == 0
    &&& c.model_item is None
    &&& c.spec_patterns@.len() == 0
    &&& q matches CoreQuery::WmiId { wmi, include_not_publicly_available } && wmi@ == wmi_of(vin)
        && include_not_publicly_available == Some(false)
}

/// An item whose value waits to be resolved from its element's attribute.
pub open spec fn awaits_value(v: ItemView) -> bool {
    v.value == Some("XXX"@) && v.element_id is Some && v.attribute_id is Some
}

/// The item with its value set to its attribute id in decimal.
pub open spec fn with_literal_value(v: ItemView) -> ItemView {
    ItemView { value: Some(decimal_of(v.attribute_id->0 as int)), ..v }
}

/// Resolves values from item `from` on: an item that waits for a value and
/// whose element has no lookup table gets its attribute id in decimal; the
/// scan stops at the first one whose element has a table. Gives the items and
/// the index where the scan stopped, if it did.
pub open spec fn resolve_from(s: Seq<ItemView>, from: int) -> (Seq<ItemView>, Option<int>)
    decreases s.len() - from,
{
    if from < 0 || from >= s.len() {
        (s, None)
    } else if awaits_value(s[from]) {
        if attribute_table_of(s[from].element_id->0) is Some {
            (s, Some(from))
        } else {
            resolve_from(s.update(from, with_literal_value(s[from])), from + 1)
        }
    } else {
        resolve_from(s, from + 1)
    }
}

/// The outcome of resolving values from item `from` of `s` on, for the
/// decoder `d`: ask for the next attribute name, or, when none is left,
/// ask for the elements (the value regex always compiles).
pub open spec fn resolves(d: VinDecoder, s: Seq<ItemView>, from: int, out: DecodeOutcome) -> bool {
    let (t, next) = resolve_from(s, from);
    match next {
        Some(j) => out matches DecodeOutcome::Query(n, q) && same_request(n, d) && n.stage
            == DecodeStage::AwaitAttribute && n.cursor == j && item_views(n.decodings@) == t && (
        q matches DecodeQuery::AttributeName { table, attribute_id } && Some(table@)
            == attribute_table_of(t[j].element_id->0) && attribute_id == t[j].attribute_id->0),
        None => out matches DecodeOutcome::Query(n, q) && same_request(n, d) && n.stage
            == DecodeStage::AwaitElements && item_views(n.decodings@) == t && (
        q matches DecodeQuery::Elements { include_all, include_private } && include_all
            == d.include_all && include_private == d.include_private),
    }
}

/// Index `i` is the first item of element `e` (of any pass).
pub open spec fn is_first_of_element(s: Seq<ItemView>, e: Option<i32>, i: int) -> bool {
    &&& 0 <= i < s.len()
    &&& s[i].element_id == e
    &&& forall|j: int| 0 <= j < i ==> (#[trigger] s[j]).element_id != e
}

/// The first item of element `e`, or the empty item when there is none.
pub open spec fn item_for(s: Seq<ItemView>, e: Option<i32>) -> ItemView {
    if exists|i: int| is_first_of_element(s, e, i) {
        s[choose|i: int| is_first_of_element(s, e, i)]
    } else {
        empty_item_view()
    }
}

/// The output row of an element, from the element row and its item: the
/// item's value has every match of the value regex replaced by a space.
pub open spec fn output_of(x: ElementRow, d: ItemView) -> OutputView {
    OutputView {
        group_name: opt_chars(x.group_name),
        variable: opt_chars(x.variable),
        value: match d.value {
            Some(v) => Some(replace_value_codes(v, " "@)),
            None => None,
        },
        pattern_id: d.pattern_id,
        vin_schema_id: d.vin_schema_id,
        keys: d.keys,
        element_id: d.element_id,
        attribute_id: d.attribute_id,
        created_on: d.created_on,
        wmi_id: d.wmi_id,
        code: opt_chars(x.code),
        data_type: opt_chars(x.data_type),
        decode: opt_chars(x.decode),
        source: d.source,
    }
}

/// The normalised form of a VIN: see `normalized`.
pub fn normalize_vin(v: &str) -> (r: String)
    ensures
        r@ == normalized(v@),
{
    to_uppercase(trim(v))
}

/// Whether `vin` can be read by a decoding pass.
pub fn pass_readable(vin: &str) -> (r: bool)
    ensures
        r == core_accepts(vin@),
{
    core_readable(vin)
}

/// Whether the descriptor of `vin` can be taken.
pub fn descriptor_readable(vin: &str) -> (r: bool)
    ensures
        r == descriptor_accepts(vin@),
{
    let cs = crate::text::chars_of(vin);
    let mut padded = cs;
    while padded.len() < 17
        invariant
            vin@.len() <= padded@.len() <= if vin@.len() < 17 {
                17
            } else {
                vin@.len()
            },
            padded@ =~= vin@ + Seq::new((padded@.len() - vin@.len()) as nat, |_i: int| '*'),
        decreases 17 - padded.len(),
    {
        padded.push('*');
    }
    proof {
        if vin@.len() >= 17 {
            assert(padded@ =~= vin@);
        }
        assert(padded@ =~= crate::vin::star_padded(vin@));
    }
    let p = crate::text::string_from_chars(padded.as_slice());
    let s = p.as_str();
    let b = s.as_bytes();
    if !(s.is_char_boundary(2) && s.is_char_boundary(3) && s.is_char_boundary(8)
        && s.is_char_boundary(9) && s.is_char_boundary(11)) {
        return false;
    }
    proof {
        broadcast use vstd::utf8::encode_utf8_valid_utf8;
        reveal_with_fuel(vstd::utf8::is_char_boundary, 1);
        assert(b@.len() >= 11);
    }
    if b[2] == 0x39u8 {
        s.is_char_boundary(14)
    } else {
        true
    }
}

/// What `on_descriptor_year` gives for the answer `row`.
pub open spec fn descriptor_year_step(d: VinDecoder, row: Option<Option<i32>>, r: DecodeOutcome) -> bool {
    &&& moves_on(d, r)
    &&& match descriptor_year(row, d.max_model_year) {
        Some(y) => if core_accepts(d.vin@) {
            r matches DecodeOutcome::RunPass(n, c, q) && same_request(n, d) && n.stage
                == DecodeStage::AwaitPass && starts_pass(
                c,
                q,
                d.vin@,
                1,
                Some(y),
                d.descriptor@,
                d.include_private,
            )
        } else {
            r matches DecodeOutcome::Malformed(m) && m == Malformed::Keys
        },
        None => if !model_year_accepts(upper_text(d.vin@)) {
            r matches DecodeOutcome::Malformed(m) && m == Malformed::ModelYear
        } else if !core_accepts(d.vin@) {
            r matches DecodeOutcome::Malformed(m) && m == Malformed::Keys
        } else {
            r matches DecodeOutcome::RunPass(n, c, q) && same_request(n, d) && n.stage
                == DecodeStage::AwaitPass && starts_pass(
                c,
                q,
                d.vin@,
                3,
                c.model_year,
                d.descriptor@,
                d.include_private,
            ) && match c.model_year {
                Some(m) => model_year_of(upper_text(d.vin@), d.current_year as int)
                    == Some(m as int),
                None => model_year_of(
                    upper_text(d.vin@),
                    d.current_year as int,
                ) is None,
            }
        },
    }
}

/// What `on_pass_done` gives for the items `items` of the pass.
pub open spec fn pass_done_step(d: VinDecoder, items: Vec<DecodingItem>, r: DecodeOutcome) -> bool {
    &&& moves_on(d, r)
    &&& resolves(d, item_views(items@), 0, r)
}

/// What `on_attribute_name` gives for the answer `name`.
pub open spec fn attribute_name_step(d: VinDecoder, name: Option<String>, r: DecodeOutcome) -> bool {
    &&& moves_on(d, r)
    &&& resolves(
        d,
        item_views(d.decodings@).update(
            d.cursor as int,
            ItemView { value: opt_chars(name), ..d.decodings@[d.cursor as int]@ },
        ),
        d.cursor + 1,
        r,
    )
}

/// What `on_elements` gives for the answer `rows`.
pub open spec fn elements_step(d: VinDecoder, rows: Vec<ElementRow>, r: DecodeOutcome) -> bool {
    &&& r matches DecodeOutcome::Done(out) && out@.len() == rows@.len() && forall|k: int|
        0 <= k < rows@.len() ==> (#[trigger] out@[k])@ == output_of(
            rows@[k],
            item_for(item_views(d.decodings@), rows@[k].element_id),
        )
}

/// How a decoding of `args` starts: when the descriptor of the normalised VIN
/// can be taken, the model year recorded for it is asked for, from a state
/// that holds the normalised VIN, its descriptor, the request's flags and the
/// two years; otherwise the VIN is `Malformed(Descriptor)`.
pub open spec fn starts_decoding(
    args: SpVinDecodeArgs,
    max_model_year: i32,
    current_year: i32,
    r: DecodeOutcome,
) -> bool {
    &&& descriptor_accepts(normalized(args.v@)) ==> (r matches DecodeOutcome::Query(n, q)
        && n.stage == DecodeStage::AwaitDescriptorYear && n.vin@ == normalized(args.v@)
        && n.descriptor@ == descriptor_of(normalized(args.v@)) && n.include_private
        == args.include_private && n.include_all == args.include_all && n.max_model_year
        == max_model_year && n.current_year == current_year && n.decodings@.len() == 0 && (
    q matches DecodeQuery::DescriptorYear { descriptor } && descriptor@ == descriptor_of(
        normalized(args.v@),
    )))
    &&& !descriptor_accepts(normalized(args.v@)) ==> (r matches DecodeOutcome::Malformed(m) && m
        == Malformed::Descriptor)
}

/// Starts decoding a VIN, with `max_model_year` the latest model year that
/// a descriptor record may carry and `current_year` the year against which a
/// model-year code is resolved: the VIN is normalised (see `normalized`), and the model
/// year recorded for its descriptor is asked for; `Malformed(Descriptor)`
/// when the descriptor cannot be taken.
pub fn sp_vin_decode(args: &SpVinDecodeArgs, max_model_year: i32, current_year: i32) -> (r:
DecodeOutcome)
    ensures
        starts_decoding(*args, max_model_year, current_year, r),
{
    let vin = normalize_vin(args.v);
    if !descriptor_readable(vin.as_str()) {
        return DecodeOutcome::Malformed(Malformed::Descriptor);
    }
    let descriptor = vin_descriptor(vin.as_str());
    let q = DecodeQuery::DescriptorYear { descriptor: descriptor.clone() };
    let d = VinDecoder {
        stage: DecodeStage::AwaitDescriptorYear,
        vin,
        descriptor,
        include_private: args.include_private,
        include_all: args.include_all,
        max_model_year,
        current_year,
        decodings: Vec::new(),
        cursor: 0,
    };
    DecodeOutcome::Query(d, q)
}


impl VinDecoder {
    /// The answer to `DescriptorYear`: with a recorded model year between 1980
    /// and the latest allowed (see `descriptor_year`), pass 1 runs with that
    /// year; otherwise pass 3 runs with the model year read from the VIN's
    /// code, which may be absent. `Malformed` when the code, or the WMI and
    /// keys, cannot be read.
    pub fn on_descriptor_year(self, row: Option<Option<i32>>) -> (r: DecodeOutcome)
        requires
            self.stage == DecodeStage::AwaitDescriptorYear,
        ensures
            descriptor_year_step(self, row, r),
    {
        let dmy: Option<i32> = match row {
            Some(Some(y)) => if EARLIEST_MODEL_YEAR <= y && y <= self.max_model_year {
                Some(y)
            } else {
                None
            },
            _ => None,
        };
        let (pass, model_year) = match dmy {
            Some(y) => (1i32, Some(y)),
            None => {
                let upper = to_uppercase(self.vin.as_str());
                if !model_year_readable(upper.as_str()) {
                    return DecodeOutcome::Malformed(Malformed::ModelYear);
                }
                (3i32, model_year_at(upper.as_str(), self.current_year))
            },
        };
        if !pass_readable(self.vin.as_str()) {
            return DecodeOutcome::Malformed(Malformed::Keys);
        }
        let (c, q) = {
            let args = SpVinDecodeCoreArgs {
                pass,
                vin: self.vin.as_str(),
                model_year,
                model_year_source: Some(self.descriptor.as_str()),
                include_private: self.include_private,
                include_not_publicly_available: Some(false),
            };
            sp_vin_decode_core(&args)
        };
        let n = VinDecoder { stage: DecodeStage::AwaitPass, ..self };
        DecodeOutcome::RunPass(n, c, q)
    }

    fn resolve(self, from: usize) -> (r: DecodeOutcome)
        requires
            from <= self.decodings@.len(),
        ensures
            resolves(self, item_views(self.decodings@), from as int, r),
        decreases self.decodings@.len() - from,
    {
        let mut d = self;
        let ghost s = item_views(d.decodings@);
        if from >= d.decodings.len() {
            if regex_is_valid("((9)|(13)|(10))") {
                let q = DecodeQuery::Elements {
                    include_all: d.include_all,
                    include_private: d.include_private,
                };
                let n = VinDecoder { stage: DecodeStage::AwaitElements, ..d };
                return DecodeOutcome::Query(n, q);
            } else {
                return DecodeOutcome::Failed(DecodeError::InvalidPattern);
            }
        }
        let waiting = opt_str_is(&d.decodings[from].value, "XXX")
            && d.decodings[from].element_id.is_some() && d.decodings[from].attribute_id.is_some();
        assert(waiting == awaits_value(s[from as int]));
        if waiting {
            let e = d.decodings[from].element_id.unwrap();
            let a = d.decodings[from].attribute_id.unwrap();
            match attribute_table(e) {
                Some(table) => {
                    let n = VinDecoder { stage: DecodeStage::AwaitAttribute, cursor: from, ..d };
                    DecodeOutcome::Query(n, DecodeQuery::AttributeName { table, attribute_id: a })
                },
                None => {
                    let old = d.decodings[from].clone();
                    let item = DecodingItem { value: Some(decimal_string(a)), ..old };
                    d.decodings.set(from, item);
                    assert(item_views(d.decodings@) =~= s.update(
                        from as int,
                        with_literal_value(s[from as int]),
                    ));
                    d.resolve(from + 1)
                },
            }
        } else {
            d.resolve(from + 1)
        }
    }

    /// The items of the pass: their values are resolved from the first item
    /// on (see `resolves`).
    pub fn on_pass_done(self, items: Vec<DecodingItem>) -> (r: DecodeOutcome)
        requires
            self.stage == DecodeStage::AwaitPass,
        ensures
            pass_done_step(self, items, r),
    {
        proof {
            crate::laws::law_resolution_leaves_nothing_waiting(item_views(items@), 0);
        }
        let d = VinDecoder { decodings: items, ..self };
        d.resolve(0)
    }

    /// The answer to `AttributeName`: the waiting item's value becomes the
    /// name found, if any, and resolving goes on from the next item.
    pub fn on_attribute_name(self, name: Option<String>) -> (r: DecodeOutcome)
        requires
            self.stage == DecodeStage::AwaitAttribute,
            self.cursor < self.decodings@.len(),
        ensures
            attribute_name_step(self, name, r),
    {
        let mut d = self;
        let i = d.cursor;
        let _n = d.decodings.len();
        let ghost s = item_views(d.decodings@);
        let ghost v = opt_chars(name);
        let old = d.decodings[i].clone();
        let item = DecodingItem { value: name, ..old };
        d.decodings.set(i, item);
        assert(item_views(d.decodings@) =~= s.update(
            i as int,
            ItemView { value: v, ..s[i as int] },
        ));
        proof {
            crate::laws::law_resolution_leaves_nothing_waiting(item_views(d.decodings@), i + 1);
        }
        d.resolve(i + 1)
    }

    /// The answer to `Elements`: one output row per element row, in order,
    /// from the first item of its element (see `item_for` and `output_of`);
    /// the value regex always compiles.
    pub fn on_elements(self, rows: Vec<ElementRow>) -> (r: DecodeOutcome)
        requires
            self.stage == DecodeStage::AwaitElements,
        ensures
            elements_step(self, rows, r),
    {
        let ghost s = item_views(self.decodings@);
        if !regex_is_valid("((9)|(13)|(10))") {
            return DecodeOutcome::Failed(DecodeError::InvalidPattern);
        }
        let mut out: Vec<DecodingOutput> = Vec::new();
        let mut k: usize = 0;
        while k < rows.len()
            invariant
                s == item_views(self.decodings@),
                k <= rows@.len(),
                out@.len() == k,
                forall|m: int|
                    0 <= m < k ==> (#[trigger] out@[m])@ == output_of(
                        rows@[m],
                        item_for(s, rows@[m].element_id),
                    ),
            decreases rows.len() - k,
        {
            let x = &rows[k];
            let found = first_of_element(&self.decodings, x.element_id);
            let d = match found {
                Some(i) => self.decodings[i].clone(),
                None => DecodingItem::default(),
            };
            proof {
                match found {
                    Some(i) => {
                        let j = choose|j: int| is_first_of_element(s, x.element_id, j);
                        lemma_first_of_element_unique(s, x.element_id, i as int, j);
                    },
                    None => {
                        if exists|j: int| is_first_of_element(s, x.element_id, j) {
                            let j = choose|j: int| is_first_of_element(s, x.element_id, j);
                            assert(s[j].element_id == x.element_id);
                        }
                    },
                }
                assert(d@ == item_for(s, x.element_id));
            }
            proof {
                reveal_strlit(" ");
                assert(!" "@.contains('$')) by {
                    assert(" "@[0] != '$');
                }
            }
            let value = match &d.value {
                Some(v) => {
                    let c = regex_replace_all("((9)|(13)|(10))", v.as_str(), " ");
                    c
                },
                None => None,
            };
            out.push(
                DecodingOutput {
                    group_name: copy_opt_string(&x.group_name),
                    variable: copy_opt_string(&x.variable),
                    value,
                    pattern_id: d.pattern_id,
                    vin_schema_id: d.vin_schema_id,
                    keys: d.keys,
                    element_id: d.element_id,
                    attribute_id: d.attribute_id,
                    created_on: d.created_on,
                    wmi_id: d.wmi_id,
                    code: copy_opt_string(&x.code),
                    data_type: copy_opt_string(&x.data_type),
                    decode: copy_opt_string(&x.decode),
                    source: d.source,
                },
            );
            k = k + 1;
        }
        DecodeOutcome::Done(out)
    }
}

/// The first item of element `e` is unique.
pub proof fn lemma_first_of_element_unique(s: Seq<ItemView>, e: Option<i32>, i: int, j: int)
    requires
        is_first_of_element(s, e, i),
        is_first_of_element(s, e, j),
    ensures
        i == j,
{
    if i < j {
        assert(s[i].element_id == e);
    } else if j < i {
        assert(s[j].element_id == e);
    }
}

/// The first item of element `e`, if any.
pub fn first_of_element(decodings: &Vec<DecodingItem>, e: Option<i32>) -> (r: Option<usize>)
    ensures
        r matches Some(i) ==> is_first_of_element(item_views(decodings@), e, i as int),
        r is None ==> forall|j: int|
            0 <= j < decodings@.len() ==> (#[trigger] item_views(decodings@)[j]).element_id != e,
{
    let ghost s = item_views(decodings@);
    let mut i: usize = 0;
    while i < decodings.len()
        invariant
            s == item_views(decodings@),
            i <= decodings@.len(),
            forall|j: int| 0 <= j < i ==> (#[trigger] s[j]).element_id != e,
        decreases decodings.len() - i,
    {
        if decodings[i].element_id == e {
            return Some(i);
        }
        i = i + 1;
    }
    None
}

} // verus!
