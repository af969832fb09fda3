//! The decoder's data: decoding records, decoder outputs, the arguments of the
//! two decoding entry points and the rows that the database returns.
use vstd::prelude::*;

verus! {

/// A point in time as stored in the database (a timestamp without time zone),
/// as seconds since 1970-01-01 00:00:00 and nanoseconds within that second.
/// Ordering by `(secs, nanos)` is chronological order.
#[derive(Clone, Copy, PartialEq, Eq, Structural, Debug)]
pub struct Timestamp {
    pub secs: i64,
    pub nanos: u32,
}

/// The view of an optional string: its characters.
pub open spec fn opt_chars(s: Option<String>) -> Option<Seq<char>> {
    match s {
        Some(x) => Some(x@),
        None => None,
    }
}

/// One decoded fact about a VIN: the value of a vehicle element, where it came
/// from and how strongly it is held. Every field may be absent.
#[derive(Debug)]
pub struct DecodingItem {
    pub decoding_id: Option<i32>,
    pub source: Option<String>,
    pub created_on: Option<Timestamp>,
    pub priority: Option<i32>,
    pub pattern_id: Option<i32>,
    pub keys: Option<String>,
    pub vin_schema_id: Option<i32>,
    pub wmi_id: Option<i32>,
    pub element_id: Option<i32>,
    pub attribute_id: Option<i32>,
    pub value: Option<String>,
}

/// The mathematical content of a `DecodingItem`.
pub struct ItemView {
    pub decoding_id: Option<i32>,
    pub source: Option<Seq<char>>,
    pub created_on: Option<Timestamp>,
    pub priority: Option<i32>,
    pub pattern_id: Option<i32>,
    pub keys: Option<Seq<char>>,
    pub vin_schema_id: Option<i32>,
    pub wmi_id: Option<i32>,
    pub element_id: Option<i32>,
    pub attribute_id: Option<i32>,
    pub value: Option<Seq<char>>,
}

impl View for DecodingItem {
    type V = ItemView;

    open spec fn view(&self) -> ItemView {
        ItemView {
            decoding_id: self.decoding_id,
            source: opt_chars(self.source),
            created_on: self.created_on,
            priority: self.priority,
            pattern_id: self.pattern_id,
            keys: opt_chars(self.keys),
            vin_schema_id: self.vin_schema_id,
            wmi_id: self.wmi_id,
            element_id: self.element_id,
            attribute_id: self.attribute_id,
            value: opt_chars(self.value),
        }
    }
}

/// The views of a sequence of decoding items.
pub open spec fn item_views(s: Seq<DecodingItem>) -> Seq<ItemView> {
    s.map_values(|d: DecodingItem| d@)
}

/// A decoding item with every field absent.
pub open spec fn empty_item_view() -> ItemView {
    ItemView {
        decoding_id: None,
        source: None,
        created_on: None,
        priority: None,
        pattern_id: None,
        keys: None,
        vin_schema_id: None,
        wmi_id: None,
        element_id: None,
        attribute_id: None,
        value: None,
    }
}

fn copy_string(s: &Option<String>) -> (r: Option<String>)
    ensures
        r == *s,
{
    match s {
        Some(x) => Some(x.clone()),
        None => None,
    }
}

impl Clone for DecodingItem {
    fn clone(&self) -> (r: Self)
        ensures
            r == *self,
    {
        DecodingItem {
            decoding_id: self.decoding_id,
            source: copy_string(&self.source),
            created_on: self.created_on,
            priority: self.priority,
            pattern_id: self.pattern_id,
            keys: copy_string(&self.keys),
            vin_schema_id: self.vin_schema_id,
            wmi_id: self.wmi_id,
            element_id: self.element_id,
            attribute_id: self.attribute_id,
            value: copy_string(&self.value),
        }
    }
}

impl Default for DecodingItem {
    fn default() -> (r: Self)
        ensures
            r@ == empty_item_view(),
    {
        DecodingItem {
            decoding_id: None,
            source: None,
            created_on: None,
            priority: None,
            pattern_id: None,
            keys: None,
            vin_schema_id: None,
            wmi_id: None,
            element_id: None,
            attribute_id: None,
            value: None,
        }
    }
}

/// One row of the decoder's answer: an element of the vehicle description
/// with the decoded value, if any, and where it came from.
#[derive(Debug)]
pub struct DecodingOutput {
    pub group_name: Option<String>,
    pub variable: Option<String>,
    pub value: Option<String>,
    pub pattern_id: Option<i32>,
    pub vin_schema_id: Option<i32>,
    pub keys: Option<String>,
    pub element_id: Option<i32>,
    pub attribute_id: Option<i32>,
    pub created_on: Option<Timestamp>,
    pub wmi_id: Option<i32>,
    pub code: Option<String>,
    pub data_type: Option<String>,
    pub decode: Option<String>,
    pub source: Option<String>,
}

/// The mathematical content of a `DecodingOutput`.
pub struct OutputView {
    pub group_name: Option<Seq<char>>,
    pub variable: Option<Seq<char>>,
    pub value: Option<Seq<char>>,
    pub pattern_id: Option<i32>,
    pub vin_schema_id: Option<i32>,
    pub keys: Option<Seq<char>>,
    pub element_id: Option<i32>,
    pub attribute_id: Option<i32>,
    pub created_on: Option<Timestamp>,
    pub wmi_id: Option<i32>,
    pub code: Option<Seq<char>>,
    pub data_type: Option<Seq<char>>,
    pub decode: Option<Seq<char>>,
    pub source: Option<Seq<char>>,
}

impl View for DecodingOutput {
    type V = OutputView;

    open spec fn view(&self) -> OutputView {
        OutputView {
            group_name: opt_chars(self.group_name),
            variable: opt_chars(self.variable),
            value: opt_chars(self.value),
            pattern_id: self.pattern_id,
            vin_schema_id: self.vin_schema_id,
            keys: opt_chars(self.keys),
            element_id: self.element_id,
            attribute_id: self.attribute_id,
            created_on: self.created_on,
            wmi_id: self.wmi_id,
            code: opt_chars(self.code),
            data_type: opt_chars(self.data_type),
            decode: opt_chars(self.decode),
            source: opt_chars(self.source),
        }
    }
}

/// The arguments of a VIN decoding request.
pub struct SpVinDecodeArgs<'a> {
    pub v: &'a str,
    pub include_private: Option<bool>,
    pub year: Option<u8>,
    pub include_all: Option<bool>,
    pub no_output: Option<bool>,
}

impl<'a> From<&'a str> for SpVinDecodeArgs<'a> {
    /// A request for `v` with every option left unset.
    fn from(v: &'a str) -> (r: Self) {
        SpVinDecodeArgs { v, include_private: None, year: None, include_all: None, no_output: None }
    }
}

impl<'a> vstd::std_specs::convert::FromSpecImpl<&'a str> for SpVinDecodeArgs<'a> {
    open spec fn obeys_from_spec() -> bool {
        true
    }

    open spec fn from_spec(v: &'a str) -> Self {
        SpVinDecodeArgs { v, include_private: None, year: None, include_all: None, no_output: None }
    }
}

/// The arguments of one decoding pass over a normalised VIN.
pub struct SpVinDecodeCoreArgs<'a> {
    pub pass: i32,
    pub vin: &'a str,
    pub model_year: Option<i32>,
    pub model_year_source: Option<&'a str>,
    pub include_private: Option<bool>,
    pub include_not_publicly_available: Option<bool>,
}

/// The manufacturer registered for a WMI.
pub struct ManufacturerRow {
    pub id: Option<i32>,
    pub name: Option<String>,
}

/// A make that a model belongs to.
pub struct ModelMakeRow {
    pub attribute_id: Option<i32>,
    pub value: Option<String>,
}

/// A make registered for a WMI.
pub struct WmiMakeRow {
    pub created_on: Option<Timestamp>,
    pub wmi_id: Option<i32>,
    pub attribute_id: Option<i32>,
    pub value: Option<String>,
}

/// A vehicle specification schema pattern that applies to the vehicle.
#[derive(Clone, Copy)]
pub struct SpecSchemaRow {
    pub id: Option<i32>,
    pub tobe_q_ced: Option<bool>,
}

/// A key element/attribute pair of a vehicle specification pattern.
pub struct SpecKeyRow {
    pub v_spec_schema_pattern_id: Option<i32>,
    pub element_id: Option<i32>,
    pub attribute_id: Option<i32>,
}

/// A non-key element/attribute pair of a vehicle specification pattern.
pub struct SpecValueRow {
    pub schema_id: Option<i32>,
    pub v_spec_schema_pattern_id: Option<i32>,
    pub element_id: Option<i32>,
    pub attribute_id: Option<i32>,
    pub id: Option<i32>,
    pub changed_on: Option<Timestamp>,
}

/// A default value of an element for a vehicle type.
pub struct DefaultValueRow {
    pub created_on: Option<Timestamp>,
    pub element_id: Option<i32>,
    pub default_value: Option<i32>,
    pub value: Option<String>,
    pub vehicle_type_id: Option<i32>,
}

/// An element of the vehicle description, as listed for the output.
pub struct ElementRow {
    pub group_name: Option<String>,
    pub variable: Option<String>,
    pub element_id: Option<i32>,
    pub code: Option<String>,
    pub data_type: Option<String>,
    pub decode: Option<String>,
}

} // verus!
