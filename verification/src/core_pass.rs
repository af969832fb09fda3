//! One decoding pass over a normalised VIN, as a state machine: each method
//! takes the pass's state and what the database answered to the last query,
//! and gives the next state with the next query to run, or the pass's result.
//! The caller runs the queries.
use vstd::prelude::*;

use crate::core_rules::{
    core_accepts, default_items, default_of, engine_candidate, entries_with, first_pass_attribute,
    formula_keys, formula_keys_of, is_engine_choice, is_first_found, is_pass_element, lemma_engine_choice_unique, is_retained, keep_listed, key_entries, keys_of,
    manufacturer_id_view, manufacturer_items, manufacturer_name_view, manufacturer_of,
    matching_entries, model_make_items, model_make_view, model_year_item, model_year_view,
    pass_attribute, pass_items, pass_pred, repeated_patterns, retain_best, scan_keep,
    schema_pattern_ids, schema_row_id, spec_value_items, spec_value_views, vin_keys, wmi_make_item,
    wmi_make_view,
};
use crate::text::{copy_opt_string, decimal_of, opt_decimal_string, owned, upper_text};
use crate::types::{
    item_views, opt_chars, DecodingItem, DefaultValueRow, ItemView, ManufacturerRow, ModelMakeRow,
    SpVinDecodeCoreArgs, SpecKeyRow, SpecSchemaRow, SpecValueRow, WmiMakeRow,
};
use crate::vin::{vin_wmi, wmi_of};

verus! {

/// Why a decoding stopped without a result.
#[derive(Debug, Clone, Copy, PartialEq, Eq, Structural)]
pub enum DecodeError {
    /// No manufacturer is registered, or publicly available, for the VIN's WMI.
    UnknownManufacturer,
    /// A regular expression that the decoder uses did not compile (the
    /// contracts of the regex calls rule this out for the decoder's patterns).
    InvalidPattern,
}

/// The database answer that a decoding pass waits for.
#[derive(Debug, Clone, Copy, PartialEq, Eq, Structural)]
pub enum CoreStage {
    AwaitWmiId,
    AwaitPatterns,
    AwaitEngine,
    AwaitVehicleType,
    AwaitManufacturer,
    AwaitFormula,
    AwaitModelMakes,
    AwaitWmiMakes,
    AwaitSpecSchemas,
    AwaitSpecKeys,
    AwaitSpecValues,
    AwaitDefaults,
}

/// A database query that a decoding pass asks for, with its parameters.
pub enum CoreQuery {
    /// The id of the WMI's record.
    WmiId { wmi: String, include_not_publicly_available: Option<bool> },
    /// The items of the VIN patterns of the WMI's schemas that the keys match.
    Patterns {
        pass: i32,
        wmi: String,
        keys: String,
        include_private: Option<bool>,
        include_not_publicly_available: Option<bool>,
        model_year: Option<i32>,
    },
    /// The items of the engine-model patterns of the engine model named by
    /// `engine_model`, carrying the engine item's pattern, keys and schema.
    EngineModel {
        pass: i32,
        pattern_id: Option<i32>,
        item_keys: Option<String>,
        vin_schema_id: Option<i32>,
        wmi_id: i32,
        engine_model: Option<String>,
    },
    /// The vehicle-type item of the WMI.
    VehicleType { pass: i32, wmi: String, include_not_publicly_available: Option<bool> },
    /// The manufacturer of the WMI.
    Manufacturer { wmi: String, include_not_publicly_available: Option<bool> },
    /// The items of the formula patterns that the formula keys match.
    FormulaPatterns {
        pass: i32,
        keys: String,
        model_year: Option<i32>,
        wmi: String,
        include_not_publicly_available: Option<bool>,
        formula_keys: String,
    },
    /// The makes of a model.
    ModelMakes { model_id: Option<i32> },
    /// The makes registered for the WMI.
    WmiMakes { wmi: String, include_not_publicly_available: Option<bool> },
    /// The vehicle-specification schema patterns that apply.
    SpecSchemas {
        wmi: String,
        vehicle_type_id: i32,
        model_id: Option<i32>,
        model_year: Option<i32>,
        include_not_publicly_available: Option<bool>,
    },
    /// The key rows of the given vehicle-specification patterns.
    SpecKeys { pattern_ids: Vec<i32> },
    /// All non-key rows of vehicle-specification patterns.
    SpecValues,
    /// All default values of elements.
    DefaultValues,
}

/// The state of one decoding pass.
pub struct CoreDecoder {
    /// The answer the pass waits for.
    pub stage: CoreStage,
    pub pass: i32,
    pub model_year: Option<i32>,
    pub model_year_source: Option<String>,
    pub include_private: Option<bool>,
    pub include_not_publicly_available: Option<bool>,
    /// The VIN's world manufacturer identifier.
    pub wmi: String,
    /// The VIN's pattern keys.
    pub keys: String,
    /// The id of the WMI's record, once known.
    pub wmi_id: i32,
    /// The items decoded so far.
    pub decodings: Vec<DecodingItem>,
    /// The item that decoded the model, once looked for.
    pub model_item: Option<DecodingItem>,
    /// The vehicle-specification schema patterns that apply, once known.
    pub spec_patterns: Vec<SpecSchemaRow>,
    /// The vehicle type whose default values are asked for.
    pub default_vehicle_type: Option<i32>,
}

/// What a decoding pass does next.
pub enum CoreOutcome {
    /// Run the query and hand its answer to the state.
    Next(CoreDecoder, CoreQuery),
    /// The pass is over: its items.
    Done(Vec<DecodingItem>),
    /// The pass stopped.
    Failed(DecodeError),
}

/// The position of a stage in the order in which a pass asks its queries.
/// The two make stages are alternatives and share no successor.
pub open spec fn core_stage_order(s: CoreStage) -> int {
    match s {
        CoreStage::AwaitWmiId => 0,
        CoreStage::AwaitPatterns => 1,
        CoreStage::AwaitEngine => 2,
        CoreStage::AwaitVehicleType => 3,
        CoreStage::AwaitManufacturer => 4,
        CoreStage::AwaitFormula => 5,
        CoreStage::AwaitModelMakes => 6,
        CoreStage::AwaitWmiMakes => 7,
        CoreStage::AwaitSpecSchemas => 8,
        CoreStage::AwaitSpecKeys => 9,
        CoreStage::AwaitSpecValues => 10,
        CoreStage::AwaitDefaults => 11,
    }
}

/// A step of the pass moves it forward: when it asks another query, that
/// query belongs to a later stage than the one answered.
pub open spec fn advances(d: CoreDecoder, out: CoreOutcome) -> bool {
    out matches CoreOutcome::Next(n, _) ==> core_stage_order(d.stage) < core_stage_order(n.stage)
}

/// The optional view of an optional item.
pub open spec fn opt_item_view(d: Option<DecodingItem>) -> Option<ItemView> {
    match d {
        Some(x) => Some(x@),
        None => None,
    }
}

/// Two states of a pass share its setup: pass, model year and its source, the
/// inclusion flags, WMI, keys and WMI record id.
pub open spec fn same_setup(a: CoreDecoder, b: CoreDecoder) -> bool {
    &&& a.pass == b.pass
    &&& a.model_year == b.model_year
    &&& opt_chars(a.model_year_source) == opt_chars(b.model_year_source)
    &&& a.include_private == b.include_private
    &&& a.include_not_publicly_available == b.include_not_publicly_available
    &&& a.wmi@ == b.wmi@
    &&& a.keys@ == b.keys@
    &&& a.wmi_id == b.wmi_id
}

/// The query for the pattern items of the pass.
pub open spec fn is_patterns_query(d: CoreDecoder, q: CoreQuery) -> bool {
    q matches CoreQuery::Patterns {
        pass,
        wmi,
        keys,
        include_private,
        include_not_publicly_available,
        model_year,
    } && pass == d.pass && wmi@ == d.wmi@ && keys@ == d.keys@ && include_private
        == d.include_private && include_not_publicly_available == d.include_not_publicly_available
        && model_year == d.model_year
}

/// The query for the engine-model items that follow the engine item `e`: its
/// attribute, in decimal, names the engine model.
pub open spec fn is_engine_query(d: CoreDecoder, e: ItemView, q: CoreQuery) -> bool {
    q matches CoreQuery::EngineModel {
        pass,
        pattern_id,
        item_keys,
        vin_schema_id,
        wmi_id,
        engine_model,
    } && pass == d.pass && pattern_id == e.pattern_id && opt_chars(item_keys) == e.keys && vin_schema_id
        == e.vin_schema_id && wmi_id == d.wmi_id && opt_chars(engine_model) == match e.attribute_id {
        Some(a) => Some(decimal_of(a as int)),
        None => None,
    }
}

/// The query for the vehicle-type item of the WMI.
pub open spec fn is_vehicle_type_query(d: CoreDecoder, q: CoreQuery) -> bool {
    q matches CoreQuery::VehicleType { pass, wmi, include_not_publicly_available } && pass == d.pass
        && wmi@ == d.wmi@ && include_not_publicly_available == d.include_not_publicly_available
}

/// The query for the manufacturer of the WMI.
pub open spec fn is_manufacturer_query(d: CoreDecoder, q: CoreQuery) -> bool {
    q matches CoreQuery::Manufacturer { wmi, include_not_publicly_available } && wmi@ == d.wmi@
        && include_not_publicly_available == d.include_not_publicly_available
}

/// The query for the formula-pattern items: the formula keys are the keys
/// with every match of `\d` replaced by '#'.
pub open spec fn is_formula_query(d: CoreDecoder, q: CoreQuery) -> bool {
    q matches CoreQuery::FormulaPatterns {
        pass,
        keys,
        model_year,
        wmi,
        include_not_publicly_available,
        formula_keys,
    } && pass == d.pass && keys@ == d.keys@ && model_year == d.model_year && wmi@ == d.wmi@
        && include_not_publicly_available == d.include_not_publicly_available && formula_keys@
        == formula_keys_of(d.keys@)
}

/// The query for the makes of the WMI.
pub open spec fn is_wmi_makes_query(d: CoreDecoder, q: CoreQuery) -> bool {
    q matches CoreQuery::WmiMakes { wmi, include_not_publicly_available } && wmi@ == d.wmi@
        && include_not_publicly_available == d.include_not_publicly_available
}

/// The query for the vehicle-specification schema patterns of vehicle type
/// `vt` and of the decoded model, if any.
pub open spec fn is_spec_schemas_query(d: CoreDecoder, vt: i32, q: CoreQuery) -> bool {
    q matches CoreQuery::SpecSchemas {
        wmi,
        vehicle_type_id,
        model_id,
        model_year,
        include_not_publicly_available,
    } && wmi@ == d.wmi@ && vehicle_type_id == vt && model_id == match d.model_item {
        Some(m) => m.attribute_id,
        None => None,
    } && model_year == d.model_year && include_not_publicly_available
        == d.include_not_publicly_available
}

/// `n` is `d` moved to `stage`, with the items `s` and everything else kept.
pub open spec fn moved(d: CoreDecoder, n: CoreDecoder, stage: CoreStage, s: Seq<ItemView>) -> bool {
    &&& same_setup(n, d)
    &&& n.stage == stage
    &&& item_views(n.decodings@) == s
    &&& opt_item_view(n.model_item) == opt_item_view(d.model_item)
    &&& n.spec_patterns@ == d.spec_patterns@
}

/// Once the vehicle-specification section is over (or skipped), with items
/// `s`: when the first item of the pass for element 39 (vehicle type) exists,
/// ask for the default values of its attribute; otherwise the pass is over
/// with `s`.
pub open spec fn routes_to_defaults(d: CoreDecoder, s: Seq<ItemView>, out: CoreOutcome) -> bool {
    match first_pass_attribute(s, d.pass, 39) {
        Some(vt) => out matches CoreOutcome::Next(n, q) && moved(d, n, CoreStage::AwaitDefaults, s)
            && n.default_vehicle_type == vt && q is DefaultValues,
        None => out matches CoreOutcome::Done(v) && item_views(v@) == s,
    }
}

/// Once the make is decoded, with items `s`: when the first item of the pass
/// for element 39 has a vehicle type, ask for the vehicle-specification
/// schema patterns; otherwise go on as `routes_to_defaults`.
pub open spec fn routes_after_makes(d: CoreDecoder, s: Seq<ItemView>, out: CoreOutcome) -> bool {
    match first_pass_attribute(s, d.pass, 39) {
        Some(Some(vt)) => out matches CoreOutcome::Next(n, q) && moved(
            d,
            n,
            CoreStage::AwaitSpecSchemas,
            s,
        ) && is_spec_schemas_query(d, vt, q),
        _ => routes_to_defaults(d, s, out),
    }
}

/// What `on_wmi_id` gives for the answer `row`.
pub open spec fn wmi_id_step(d: CoreDecoder, row: Option<Option<i32>>, r: CoreOutcome) -> bool {
    &&& advances(d, r)
    &&& match row {
        Some(Some(id)) => r matches CoreOutcome::Next(n, q) && n.wmi_id == id && n.stage
            == CoreStage::AwaitPatterns && item_views(n.decodings@) == item_views(
            d.decodings@,
        ) && is_patterns_query(n, q) && same_setup(
            n,
            CoreDecoder { wmi_id: id, ..d },
        ) && n.model_item is None && n.spec_patterns@ == d.spec_patterns@,
        _ => r matches CoreOutcome::Failed(e) && e == DecodeError::UnknownManufacturer,
    }
}

/// What `on_patterns` gives for the answer `rows`.
pub open spec fn patterns_step(d: CoreDecoder, rows: Vec<DecodingItem>, r: CoreOutcome) -> bool {
    &&& advances(d, r)
    &&& ({
        let s = item_views(d.decodings@) + item_views(rows@);
        if exists|i: int| is_engine_choice(s, d.pass, i) {
            r matches CoreOutcome::Next(n, q) && moved(d, n, CoreStage::AwaitEngine, s)
                && is_engine_query(
                d,
                s[choose|i: int| is_engine_choice(s, d.pass, i)],
                q,
            )
        } else {
            r matches CoreOutcome::Next(n, q) && moved(
                d,
                n,
                CoreStage::AwaitVehicleType,
                s,
            ) && is_vehicle_type_query(d, q)
        }
    })
}

/// What `on_engine` gives for the answer `rows`.
pub open spec fn engine_step(d: CoreDecoder, rows: Vec<DecodingItem>, r: CoreOutcome) -> bool {
    &&& advances(d, r)
    &&& r matches CoreOutcome::Next(n, q) && moved(
        d,
        n,
        CoreStage::AwaitVehicleType,
        item_views(d.decodings@) + item_views(rows@),
    ) && is_vehicle_type_query(d, q)
}

/// What `on_vehicle_type` gives for the answer `rows`.
pub open spec fn vehicle_types_step(d: CoreDecoder, rows: Vec<DecodingItem>, r: CoreOutcome) -> bool {
    &&& advances(d, r)
    &&& r matches CoreOutcome::Next(n, q) && moved(
        d,
        n,
        CoreStage::AwaitManufacturer,
        item_views(d.decodings@) + item_views(rows@),
    ) && is_manufacturer_query(d, q)
}

/// What `on_manufacturer` gives for the answer `row`.
pub open spec fn manufacturer_step(d: CoreDecoder, row: Option<ManufacturerRow>, r: CoreOutcome) -> bool {
    &&& advances(d, r)
    &&& ({
        let m = manufacturer_of(row);
        let base = item_views(d.decodings@).push(
            manufacturer_name_view(d.pass, d.wmi@, d.wmi_id, m),
        ).push(manufacturer_id_view(d.pass, d.wmi@, d.wmi_id, m));
        let s = match d.model_year {
            Some(y) => base.push(
                model_year_view(d.pass, y, opt_chars(d.model_year_source)),
            ),
            None => base,
        };
        r matches CoreOutcome::Next(n, q) && moved(d, n, CoreStage::AwaitFormula, s)
            && is_formula_query(d, q)
    })
}

/// What `on_formula` gives for the answer `rows`.
pub open spec fn formula_step(d: CoreDecoder, rows: Vec<DecodingItem>, r: CoreOutcome) -> bool {
    &&& advances(d, r)
    &&& r matches CoreOutcome::Next(n, q) && same_setup(n, d) && n.spec_patterns@
        == d.spec_patterns@ && is_retained(
        item_views(n.decodings@),
        item_views(d.decodings@) + item_views(rows@),
        d.pass,
    ) && match n.model_item {
        Some(m) => n.stage == CoreStage::AwaitModelMakes && is_first_found(
            item_views(n.decodings@),
            d.pass,
            28,
            m@,
        ) && (q matches CoreQuery::ModelMakes { model_id } && model_id == m.attribute_id),
        None => n.stage == CoreStage::AwaitWmiMakes && (forall|j: int|
            0 <= j < n.decodings@.len() ==> !is_pass_element(
                #[trigger] item_views(n.decodings@)[j],
                d.pass,
                28,
            )) && is_wmi_makes_query(d, q),
    }
}

/// What `on_model_makes` gives for the answer `rows`.
pub open spec fn model_makes_step(d: CoreDecoder, rows: Vec<ModelMakeRow>, r: CoreOutcome) -> bool {
    &&& advances(d, r)
    &&& routes_after_makes(
        d,
        item_views(d.decodings@) + Seq::new(
            rows@.len(),
            |i: int|
                model_make_view(
                    d.pass,
                    d.model_item->0@,
                    rows@[i].attribute_id,
                    opt_chars(rows@[i].value),
                ),
        ),
        r,
    )
}

/// What `on_wmi_makes` gives for the answer `rows`.
pub open spec fn wmi_makes_step(d: CoreDecoder, rows: Vec<WmiMakeRow>, r: CoreOutcome) -> bool {
    &&& advances(d, r)
    &&& routes_after_makes(
        d,
        if rows@.len() == 1 {
            item_views(d.decodings@).push(wmi_make_view(d.pass, d.wmi@, rows@[0]))
        } else {
            item_views(d.decodings@)
        },
        r,
    )
}

/// What `on_spec_schemas` gives for the answer `rows`.
pub open spec fn spec_schemas_step(d: CoreDecoder, rows: Vec<SpecSchemaRow>, r: CoreOutcome) -> bool {
    &&& advances(d, r)
    &&& r matches CoreOutcome::Next(n, q) && same_setup(n, d) && n.stage
        == CoreStage::AwaitSpecKeys && item_views(n.decodings@) == item_views(d.decodings@)
        && opt_item_view(n.model_item) == opt_item_view(d.model_item) && n.spec_patterns@
        == rows@ && (q matches CoreQuery::SpecKeys { pattern_ids } && pattern_ids@
        == rows@.filter_map(schema_row_id()))
}

/// What `on_spec_keys` gives for the answer `rows`.
pub open spec fn spec_keys_step(d: CoreDecoder, rows: Vec<SpecKeyRow>, r: CoreOutcome) -> bool {
    &&& advances(d, r)
    &&& r matches CoreOutcome::Next(n, q) && same_setup(n, d) && n.stage
        == CoreStage::AwaitSpecValues && item_views(n.decodings@) == item_views(
        d.decodings@,
    ) && opt_item_view(n.model_item) == opt_item_view(d.model_item) && q is SpecValues
        && exists|listed: Seq<Option<i32>>|
        {
            &&& forall|k1: int, k2: int|
                0 <= k1 < listed.len() && 0 <= k2 < listed.len() && k1 != k2
                    ==> listed[k1] != listed[k2]
            &&& forall|id: Option<i32>|
                #[trigger] listed.contains(id) <==> entries_with(
                    key_entries(
                        item_views(d.decodings@).filter(pass_pred(d.pass)),
                        rows@,
                    ),
                    id,
                ).len() >= 2
            &&& n.spec_patterns@ == scan_keep(d.spec_patterns@, listed).0
        }
}

/// What `on_spec_values` gives for the answer `rows`.
pub open spec fn spec_values_step(d: CoreDecoder, rows: Vec<SpecValueRow>, r: CoreOutcome) -> bool {
    &&& advances(d, r)
    &&& routes_to_defaults(
        d,
        item_views(d.decodings@) + spec_value_views(
            d.pass,
            rows@,
            d.spec_patterns@,
            item_views(d.decodings@),
        ),
        r,
    )
}

/// What `on_defaults` gives for the answer `rows`.
pub open spec fn default_values_step(d: CoreDecoder, rows: Vec<DefaultValueRow>, r: CoreOutcome) -> bool {
    &&& advances(d, r)
    &&& r matches CoreOutcome::Done(v) && item_views(v@) == item_views(d.decodings@)
        + rows@.filter_map(
        default_of(d.default_vehicle_type, item_views(d.decodings@), d.pass),
    )
}

fn copy_item(d: &Option<DecodingItem>) -> (r: Option<DecodingItem>)
    ensures
        r == *d,
{
    match d {
        Some(x) => Some(x.clone()),
        None => None,
    }
}

/// Starts a pass over `args.vin`: its WMI and keys are read, and the id of
/// the WMI's record is asked for.
pub fn sp_vin_decode_core(args: &SpVinDecodeCoreArgs) -> (r: (CoreDecoder, CoreQuery))
    requires
        core_accepts(args.vin@),
    ensures
        r.0.stage == CoreStage::AwaitWmiId,
        r.0.pass == args.pass,
        r.0.model_year == args.model_year,
        opt_chars(r.0.model_year_source) == match args.model_year_source {
            Some(x) => Some(x@),
            None => None,
        },
        r.0.include_private == args.include_private,
        r.0.include_not_publicly_available == args.include_not_publicly_available,
        r.0.wmi@ == wmi_of(args.vin@),
        r.0.keys@ == keys_of(args.vin@),
        r.0.decodings@.len() == 0,
        r.0.model_item is None,
        r.0.spec_patterns@.len() == 0,
        r.1 matches CoreQuery::WmiId { wmi, include_not_publicly_available } && wmi@ == wmi_of(
            args.vin@,
        ) && include_not_publicly_available == args.include_not_publicly_available,
{
    let wmi = vin_wmi(args.vin);
    let keys = vin_keys(args.vin);
    let source = match args.model_year_source {
        Some(x) => Some(owned(x)),
        None => None,
    };
    let q = CoreQuery::WmiId {
        wmi: wmi.clone(),
        include_not_publicly_available: args.include_not_publicly_available,
    };
    let d = CoreDecoder {
        stage: CoreStage::AwaitWmiId,
        pass: args.pass,
        model_year: args.model_year,
        model_year_source: source,
        include_private: args.include_private,
        include_not_publicly_available: args.include_not_publicly_available,
        wmi,
        keys,
        wmi_id: 0,
        decodings: Vec::new(),
        model_item: None,
        spec_patterns: Vec::new(),
        default_vehicle_type: None,
    };
    (d, q)
}


impl CoreDecoder {
    fn with_stage(self, stage: CoreStage) -> (r: CoreDecoder)
        ensures
            moved(self, r, stage, item_views(self.decodings@)),
            r.default_vehicle_type == self.default_vehicle_type,
    {
        CoreDecoder { stage, ..self }
    }

    /// The answer to `WmiId`: without a record id the pass fails with
    /// `UnknownManufacturer`; otherwise the pattern items are asked for.
    pub fn on_wmi_id(self, row: Option<Option<i32>>) -> (r: CoreOutcome)
        requires
            self.stage == CoreStage::AwaitWmiId,
        ensures
            wmi_id_step(self, row, r),
    {
        match row {
            Some(Some(id)) => {
                let q = CoreQuery::Patterns {
                    pass: self.pass,
                    wmi: self.wmi.clone(),
                    keys: self.keys.clone(),
                    include_private: self.include_private,
                    include_not_publicly_available: self.include_not_publicly_available,
                    model_year: self.model_year,
                };
                let n = CoreDecoder {
                    stage: CoreStage::AwaitPatterns,
                    wmi_id: id,
                    model_item: None,
                    ..self
                };
                CoreOutcome::Next(n, q)
            },
            _ => CoreOutcome::Failed(DecodeError::UnknownManufacturer),
        }
    }

    fn vehicle_type_step(self) -> (r: CoreOutcome)
        ensures
            r matches CoreOutcome::Next(n, q) && moved(
                self,
                n,
                CoreStage::AwaitVehicleType,
                item_views(self.decodings@),
            ) && is_vehicle_type_query(self, q),
    {
        let q = CoreQuery::VehicleType {
            pass: self.pass,
            wmi: self.wmi.clone(),
            include_not_publicly_available: self.include_not_publicly_available,
        };
        CoreOutcome::Next(self.with_stage(CoreStage::AwaitVehicleType), q)
    }

    /// The answer to `Patterns`: the items are added; when the pass has an
    /// engine-model item (see `is_engine_choice`), its engine-model items are
    /// asked for, otherwise the vehicle-type item.
    pub fn on_patterns(self, rows: Vec<DecodingItem>) -> (r: CoreOutcome)
        requires
            self.stage == CoreStage::AwaitPatterns,
        ensures
            patterns_step(self, rows, r),
    {
        let mut d = self;
        let ghost s = item_views(d.decodings@) + item_views(rows@);
        let mut rows = rows;
        let ghost before = d.decodings@;
        let ghost added = rows@;
        d.decodings.append(&mut rows);
        assert(item_views(d.decodings@) =~= s);
        match engine_candidate(&d.decodings, d.pass) {
            Some(i) => {
                proof {
                    let j = choose|j: int| is_engine_choice(s, d.pass, j);
                    lemma_engine_choice_unique(s, d.pass, i as int, j);
                }
                let item = &d.decodings[i];
                let q = CoreQuery::EngineModel {
                    pass: d.pass,
                    pattern_id: item.pattern_id,
                    item_keys: copy_opt_string(&item.keys),
                    vin_schema_id: item.vin_schema_id,
                    wmi_id: d.wmi_id,
                    engine_model: opt_decimal_string(item.attribute_id),
                };
                CoreOutcome::Next(d.with_stage(CoreStage::AwaitEngine), q)
            },
            None => {
                proof {
                    if exists|j: int| is_engine_choice(s, d.pass, j) {
                        let j = choose|j: int| is_engine_choice(s, d.pass, j);
                        assert(is_pass_element(s[j], d.pass, 18));
                    }
                }
                d.vehicle_type_step()
            },
        }
    }

    /// The answer to `EngineModel`: the items are added and the vehicle-type
    /// item is asked for.
    pub fn on_engine(self, rows: Vec<DecodingItem>) -> (r: CoreOutcome)
        requires
            self.stage == CoreStage::AwaitEngine,
        ensures
            engine_step(self, rows, r),
    {
        let mut d = self;
        let mut rows = rows;
        let ghost s = item_views(d.decodings@) + item_views(rows@);
        d.decodings.append(&mut rows);
        assert(item_views(d.decodings@) =~= s);
        d.vehicle_type_step()
    }

    /// The answer to `VehicleType`: the items are added and the manufacturer
    /// is asked for.
    pub fn on_vehicle_type(self, rows: Vec<DecodingItem>) -> (r: CoreOutcome)
        requires
            self.stage == CoreStage::AwaitVehicleType,
        ensures
            vehicle_types_step(self, rows, r),
    {
        let mut d = self;
        let mut rows = rows;
        let ghost s = item_views(d.decodings@) + item_views(rows@);
        d.decodings.append(&mut rows);
        assert(item_views(d.decodings@) =~= s);
        let q = CoreQuery::Manufacturer {
            wmi: d.wmi.clone(),
            include_not_publicly_available: d.include_not_publicly_available,
        };
        CoreOutcome::Next(d.with_stage(CoreStage::AwaitManufacturer), q)
    }

    /// The answer to `Manufacturer`: the manufacturer name and id items are
    /// added, then the model-year item when the pass has a model year, and the
    /// formula-pattern items are asked for (the digit regex always compiles).
    pub fn on_manufacturer(self, row: Option<ManufacturerRow>) -> (r: CoreOutcome)
        requires
            self.stage == CoreStage::AwaitManufacturer,
        ensures
            manufacturer_step(self, row, r),
    {
        let mut d = self;
        let ghost old_items = item_views(d.decodings@);
        let (name_item, id_item) = manufacturer_items(d.pass, d.wmi.as_str(), d.wmi_id, row);
        d.decodings.push(name_item);
        d.decodings.push(id_item);
        let ghost m = manufacturer_of(row);
        let ghost base = old_items.push(manufacturer_name_view(d.pass, d.wmi@, d.wmi_id, m)).push(
            manufacturer_id_view(d.pass, d.wmi@, d.wmi_id, m),
        );
        assert(item_views(d.decodings@) =~= base);
        if let Some(y) = d.model_year {
            let item = model_year_item(d.pass, y, &d.model_year_source);
            d.decodings.push(item);
            assert(item_views(d.decodings@) =~= base.push(
                model_year_view(d.pass, y, opt_chars(d.model_year_source)),
            ));
        }
        match formula_keys(d.keys.as_str()) {
            Some(f) => {
                let q = CoreQuery::FormulaPatterns {
                    pass: d.pass,
                    keys: d.keys.clone(),
                    model_year: d.model_year,
                    wmi: d.wmi.clone(),
                    include_not_publicly_available: d.include_not_publicly_available,
                    formula_keys: f,
                };
                CoreOutcome::Next(d.with_stage(CoreStage::AwaitFormula), q)
            },
            None => CoreOutcome::Failed(DecodeError::InvalidPattern),
        }
    }

    /// The answer to `FormulaPatterns`: the items are added, one item is kept
    /// per contested element (see `is_retained`), and the makes are asked
    /// for: those of the decoded model when the pass decoded one (element 28),
    /// else those of the WMI.
    pub fn on_formula(self, rows: Vec<DecodingItem>) -> (r: CoreOutcome)
        requires
            self.stage == CoreStage::AwaitFormula,
        ensures
            formula_step(self, rows, r),
    {
        let mut d = self;
        let mut rows = rows;
        let ghost s = item_views(d.decodings@) + item_views(rows@);
        d.decodings.append(&mut rows);
        assert(item_views(d.decodings@) =~= s);
        let mut all: Vec<DecodingItem> = Vec::new();
        std::mem::swap(&mut all, &mut d.decodings);
        let kept = retain_best(all, d.pass);
        d.decodings = kept;
        match crate::core_rules::find_pass_element(&d.decodings, d.pass, 28) {
            Some(i) => {
                let m = d.decodings[i].clone();
                let q = CoreQuery::ModelMakes { model_id: m.attribute_id };
                d.model_item = Some(m);
                d.stage = CoreStage::AwaitModelMakes;
                CoreOutcome::Next(d, q)
            },
            None => {
                let q = CoreQuery::WmiMakes {
                    wmi: d.wmi.clone(),
                    include_not_publicly_available: d.include_not_publicly_available,
                };
                d.model_item = None;
                d.stage = CoreStage::AwaitWmiMakes;
                CoreOutcome::Next(d, q)
            },
        }
    }

    fn defaults_step(self) -> (r: CoreOutcome)
        ensures
            routes_to_defaults(self, item_views(self.decodings@), r),
    {
        match pass_attribute(&self.decodings, self.pass, 39) {
            Some(vt) => {
                let mut n = self.with_stage(CoreStage::AwaitDefaults);
                n.default_vehicle_type = vt;
                CoreOutcome::Next(n, CoreQuery::DefaultValues)
            },
            None => CoreOutcome::Done(self.decodings),
        }
    }

    fn after_makes_step(self) -> (r: CoreOutcome)
        ensures
            routes_after_makes(self, item_views(self.decodings@), r),
    {
        match pass_attribute(&self.decodings, self.pass, 39) {
            Some(Some(vt)) => {
                let q = CoreQuery::SpecSchemas {
                    wmi: self.wmi.clone(),
                    vehicle_type_id: vt,
                    model_id: match &self.model_item {
                        Some(m) => m.attribute_id,
                        None => None,
                    },
                    model_year: self.model_year,
                    include_not_publicly_available: self.include_not_publicly_available,
                };
                CoreOutcome::Next(self.with_stage(CoreStage::AwaitSpecSchemas), q)
            },
            _ => self.defaults_step(),
        }
    }

    /// The answer to `ModelMakes`: one make item per row is added (see
    /// `model_make_view`), then as `routes_after_makes`.
    pub fn on_model_makes(self, rows: Vec<ModelMakeRow>) -> (r: CoreOutcome)
        requires
            self.stage == CoreStage::AwaitModelMakes,
            self.model_item is Some,
        ensures
            model_makes_step(self, rows, r),
    {
        let mut d = self;
        let ghost s = item_views(d.decodings@) + Seq::new(
            rows@.len(),
            |i: int|
                model_make_view(
                    d.pass,
                    d.model_item->0@,
                    rows@[i].attribute_id,
                    opt_chars(rows@[i].value),
                ),
        );
        let m = copy_item(&d.model_item);
        let model = m.unwrap();
        let mut items = model_make_items(d.pass, &model, &rows);
        d.decodings.append(&mut items);
        assert(item_views(d.decodings@) =~= s);
        d.after_makes_step()
    }

    /// The answer to `WmiMakes`: when exactly one make is registered, its
    /// item is added (see `wmi_make_view`), then as `routes_after_makes`.
    pub fn on_wmi_makes(self, rows: Vec<WmiMakeRow>) -> (r: CoreOutcome)
        requires
            self.stage == CoreStage::AwaitWmiMakes,
        ensures
            wmi_makes_step(self, rows, r),
    {
        let mut d = self;
        let ghost old_items = item_views(d.decodings@);
        let ghost first = if rows@.len() > 0 { rows@[0] } else { arbitrary() };
        if let Some(item) = wmi_make_item(d.pass, d.wmi.as_str(), rows) {
            d.decodings.push(item);
            assert(item_views(d.decodings@) =~= old_items.push(wmi_make_view(d.pass, d.wmi@, first)));
        }
        d.after_makes_step()
    }

    /// The answer to `SpecSchemas`: the schema patterns are kept and the key
    /// rows of those that have an id are asked for.
    pub fn on_spec_schemas(self, rows: Vec<SpecSchemaRow>) -> (r: CoreOutcome)
        requires
            self.stage == CoreStage::AwaitSpecSchemas,
        ensures
            spec_schemas_step(self, rows, r),
    {
        let ids = schema_pattern_ids(&rows);
        let mut d = self;
        d.spec_patterns = rows;
        d.stage = CoreStage::AwaitSpecKeys;
        CoreOutcome::Next(d, CoreQuery::SpecKeys { pattern_ids: ids })
    }

    /// The answer to `SpecKeys`: the schema patterns are narrowed to those
    /// whose id some list `listed` holds (see `scan_keep`), where `listed`
    /// holds, once each and in an order left open, the pattern ids with at
    /// least two key entries against the items of the pass (see
    /// `key_entries`); then the value rows are asked for.
    pub fn on_spec_keys(self, rows: Vec<SpecKeyRow>) -> (r: CoreOutcome)
        requires
            self.stage == CoreStage::AwaitSpecKeys,
        ensures
            spec_keys_step(self, rows, r),
    {
        let mut d = self;
        let cur = pass_items(&d.decodings, d.pass);
        let entries = matching_entries(&cur, &rows);
        let listed = repeated_patterns(entries);
        let kept = keep_listed(&d.spec_patterns, &listed);
        d.spec_patterns = kept;
        d.stage = CoreStage::AwaitSpecValues;
        assert(forall|id: Option<i32>|
            #[trigger] listed@.contains(id) <==> entries_with(
                key_entries(item_views(self.decodings@).filter(pass_pred(self.pass)), rows@),
                id,
            ).len() >= 2);
        CoreOutcome::Next(d, CoreQuery::SpecValues)
    }

    /// The answer to `SpecValues`: the vehicle-specification items are added
    /// (see `spec_value_views`), then as `routes_to_defaults`.
    pub fn on_spec_values(self, rows: Vec<SpecValueRow>) -> (r: CoreOutcome)
        requires
            self.stage == CoreStage::AwaitSpecValues,
        ensures
            spec_values_step(self, rows, r),
    {
        let mut d = self;
        let ghost s = item_views(d.decodings@) + spec_value_views(
            d.pass,
            rows@,
            d.spec_patterns@,
            item_views(d.decodings@),
        );
        let mut items = spec_value_items(d.pass, &rows, &d.spec_patterns, &d.decodings);
        d.decodings.append(&mut items);
        assert(item_views(d.decodings@) =~= s);
        d.defaults_step()
    }

    /// The answer to `DefaultValues`: the default items that apply are added
    /// (see `default_of`) and the pass is over.
    pub fn on_defaults(self, rows: Vec<DefaultValueRow>) -> (r: CoreOutcome)
        requires
            self.stage == CoreStage::AwaitDefaults,
        ensures
            default_values_step(self, rows, r),
    {
        let mut d = self;
        let ghost s = item_views(d.decodings@) + rows@.filter_map(
            default_of(d.default_vehicle_type, item_views(d.decodings@), d.pass),
        );
        let mut items = default_items(d.pass, d.default_vehicle_type, &d.decodings, &rows);
        d.decodings.append(&mut items);
        assert(item_views(d.decodings@) =~= s);
        CoreOutcome::Done(d.decodings)
    }
}

} // verus!
