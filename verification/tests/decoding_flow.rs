use vin_decode::types::{
    DefaultValueRow, ElementRow, ManufacturerRow, ModelMakeRow, SpecKeyRow, SpecSchemaRow,
    SpecValueRow, WmiMakeRow,
};
use vin_decode::{
    sp_vin_decode, sp_vin_decode_core, CoreDecoder, CoreOutcome, CoreQuery, CoreStage, DecodeError,
    DecodeOutcome, DecodeQuery, DecodeStage, DecodingItem, DecodingOutput, Malformed,
    SpVinDecodeArgs, SpVinDecodeCoreArgs, Timestamp, VinDecoder,
};

fn ts(secs: i64) -> Option<Timestamp> {
    Some(Timestamp { secs, nanos: 0 })
}

fn pattern_item(element: i32, attribute: i32, priority: i32, keys: &str, pattern_id: i32) -> DecodingItem {
    DecodingItem {
        decoding_id: Some(1),
        source: Some("Pattern".to_string()),
        created_on: ts(1_600_000_000),
        priority: Some(priority),
        pattern_id: Some(pattern_id),
        keys: Some(keys.to_string()),
        vin_schema_id: Some(5),
        wmi_id: Some(12),
        element_id: Some(element),
        attribute_id: Some(attribute),
        value: Some("XXX".to_string()),
    }
}

fn element(group: &str, variable: &str, id: i32) -> ElementRow {
    ElementRow {
        group_name: Some(group.to_string()),
        variable: Some(variable.to_string()),
        element_id: Some(id),
        code: Some(format!("E{}", id)),
        data_type: Some("string".to_string()),
        decode: Some("Pattern".to_string()),
    }
}

fn next(o: CoreOutcome) -> (CoreDecoder, CoreQuery) {
    match o {
        CoreOutcome::Next(d, q) => (d, q),
        CoreOutcome::Done(_) => panic!("the pass ended early"),
        CoreOutcome::Failed(e) => panic!("the pass failed: {:?}", e),
    }
}

fn done(o: CoreOutcome) -> Vec<DecodingItem> {
    match o {
        CoreOutcome::Done(v) => v,
        _ => panic!("the pass should be over"),
    }
}

fn core_at(stage: CoreStage, decodings: Vec<DecodingItem>) -> CoreDecoder {
    CoreDecoder {
        stage,
        pass: 1,
        model_year: Some(2019),
        model_year_source: Some("1N4BZ0CP*HC".to_string()),
        include_private: None,
        include_not_publicly_available: Some(false),
        wmi: "1N4".to_string(),
        keys: "BZ0CP|HC303730".to_string(),
        wmi_id: 12,
        decodings,
        model_item: None,
        spec_patterns: vec![],
        default_vehicle_type: None,
    }
}

fn start(vin: &str, max_model_year: i32, current_year: i32) -> VinDecoder {
    match sp_vin_decode(&SpVinDecodeArgs::from(vin), max_model_year, current_year) {
        DecodeOutcome::Query(d, DecodeQuery::DescriptorYear { .. }) => d,
        _ => panic!("the descriptor year should be asked for"),
    }
}

fn run_pass(o: DecodeOutcome) -> (VinDecoder, CoreDecoder, CoreQuery) {
    match o {
        DecodeOutcome::RunPass(d, c, q) => (d, c, q),
        DecodeOutcome::Malformed(m) => panic!("malformed: {:?}", m),
        _ => panic!("a pass should run"),
    }
}

fn lookup(table: &str, id: i32) -> Option<String> {
    match (table, id) {
        ("model", 1234) => Some("ALTIMA".to_string()),
        ("body_style", 3) => Some("Sedan/Saloon".to_string()),
        ("destination_market", 6) => Some("Canada 13".to_string()),
        _ => None,
    }
}

fn resolve_all(mut outcome: DecodeOutcome) -> (VinDecoder, DecodeQuery, Vec<(String, i32)>) {
    let mut asked = vec![];
    loop {
        match outcome {
            DecodeOutcome::Query(d, DecodeQuery::AttributeName { table, attribute_id }) => {
                asked.push((table.to_string(), attribute_id));
                outcome = d.on_attribute_name(lookup(table, attribute_id));
            }
            DecodeOutcome::Query(d, q) => return (d, q, asked),
            _ => panic!("resolution should end in a query"),
        }
    }
}

#[test]
fn full_decoding_of_a_vin() {
    let args = SpVinDecodeArgs::from(" 1n4bz0cp6hc303730 ");
    let (dec, q) = match sp_vin_decode(&args, 2026, 2025) {
        DecodeOutcome::Query(d, q) => (d, q),
        _ => panic!("the descriptor year should be asked for"),
    };
    assert_eq!(dec.stage, DecodeStage::AwaitDescriptorYear);
    assert_eq!(dec.vin, "1N4BZ0CP6HC303730");
    assert_eq!(dec.descriptor, "1N4BZ0CP*HC");
    match q {
        DecodeQuery::DescriptorYear { descriptor } => assert_eq!(descriptor, "1N4BZ0CP*HC"),
        _ => panic!("wrong query"),
    }

    let (dec, core, q) = run_pass(dec.on_descriptor_year(Some(Some(2019))));
    assert_eq!(dec.stage, DecodeStage::AwaitPass);
    assert_eq!(core.stage, CoreStage::AwaitWmiId);
    assert_eq!(core.pass, 1);
    assert_eq!(core.model_year, Some(2019));
    assert_eq!(core.model_year_source.as_deref(), Some("1N4BZ0CP*HC"));
    assert_eq!(core.include_not_publicly_available, Some(false));
    assert_eq!(core.wmi, "1N4");
    assert_eq!(core.keys, "BZ0CP|HC303730");
    match q {
        CoreQuery::WmiId { wmi, include_not_publicly_available } => {
            assert_eq!(wmi, "1N4");
            assert_eq!(include_not_publicly_available, Some(false));
        }
        _ => panic!("wrong query"),
    }

    let (core, q) = next(core.on_wmi_id(Some(Some(12))));
    assert_eq!(core.stage, CoreStage::AwaitPatterns);
    assert_eq!(core.wmi_id, 12);
    match q {
        CoreQuery::Patterns { pass, wmi, keys, include_private, include_not_publicly_available, model_year } => {
            assert_eq!(pass, 1);
            assert_eq!(wmi, "1N4");
            assert_eq!(keys, "BZ0CP|HC303730");
            assert_eq!(include_private, None);
            assert_eq!(include_not_publicly_available, Some(false));
            assert_eq!(model_year, Some(2019));
        }
        _ => panic!("wrong query"),
    }

    let rows = vec![
        pattern_item(28, 1234, 2015, "BZ0CP", 100),
        pattern_item(28, 1299, 2010, "BZ0C*", 101),
        pattern_item(18, 77, 2015, "BZ0", 102),
        pattern_item(18, 78, 2012, "BZ*", 103),
        pattern_item(5, 3, 2015, "BZ0CP", 104),
    ];
    let (core, q) = next(core.on_patterns(rows));
    assert_eq!(core.stage, CoreStage::AwaitEngine);
    assert_eq!(core.decodings.len(), 5);
    match q {
        CoreQuery::EngineModel { pass, pattern_id, item_keys, vin_schema_id, wmi_id, engine_model } => {
            assert_eq!(pass, 1);
            assert_eq!(pattern_id, Some(103));
            assert_eq!(item_keys.as_deref(), Some("BZ*"));
            assert_eq!(vin_schema_id, Some(5));
            assert_eq!(wmi_id, 12);
            assert_eq!(engine_model.as_deref(), Some("78"));
        }
        _ => panic!("wrong query"),
    }

    let engine_rows = vec![DecodingItem {
        decoding_id: Some(1),
        source: Some("EngineModelPattern".to_string()),
        created_on: None,
        priority: Some(50),
        pattern_id: Some(103),
        keys: Some("BZ*".to_string()),
        vin_schema_id: Some(5),
        wmi_id: Some(12),
        element_id: Some(13),
        attribute_id: Some(20),
        value: Some("XXX".to_string()),
    }];
    let (core, q) = next(core.on_engine(engine_rows));
    assert_eq!(core.stage, CoreStage::AwaitVehicleType);
    match q {
        CoreQuery::VehicleType { pass, wmi, include_not_publicly_available } => {
            assert_eq!(pass, 1);
            assert_eq!(wmi, "1N4");
            assert_eq!(include_not_publicly_available, Some(false));
        }
        _ => panic!("wrong query"),
    }

    let vt_rows = vec![DecodingItem {
        decoding_id: Some(1),
        source: Some("VehType".to_string()),
        created_on: ts(1_500_000_000),
        priority: Some(100),
        pattern_id: None,
        keys: Some("1N4".to_string()),
        vin_schema_id: None,
        wmi_id: Some(12),
        element_id: Some(39),
        attribute_id: Some(2),
        value: Some("PASSENGER CAR".to_string()),
    }];
    let (core, q) = next(core.on_vehicle_type(vt_rows));
    assert_eq!(core.stage, CoreStage::AwaitManufacturer);
    match q {
        CoreQuery::Manufacturer { wmi, include_not_publicly_available } => {
            assert_eq!(wmi, "1N4");
            assert_eq!(include_not_publicly_available, Some(false));
        }
        _ => panic!("wrong query"),
    }

    let mfr = ManufacturerRow { id: Some(997), name: Some("NISSAN NORTH AMERICA".to_string()) };
    let (core, q) = next(core.on_manufacturer(Some(mfr)));
    assert_eq!(core.stage, CoreStage::AwaitFormula);
    assert_eq!(core.decodings.len(), 10);
    let name = &core.decodings[7];
    let id = &core.decodings[8];
    let year = &core.decodings[9];
    assert_eq!(name.source.as_deref(), Some("Manuf. Name"));
    assert_eq!(name.element_id, Some(27));
    assert_eq!(name.value.as_deref(), Some("NISSAN NORTH AMERICA"));
    assert_eq!(name.keys.as_deref(), Some("1N4"));
    assert_eq!(id.source.as_deref(), Some("Manuf. Id"));
    assert_eq!(id.element_id, Some(157));
    assert_eq!(id.value.as_deref(), Some("997"));
    for (a, b) in [(name.attribute_id, id.attribute_id), (name.priority, id.priority)] {
        assert_eq!(a, b);
    }
    assert_eq!(name.decoding_id, id.decoding_id);
    assert_eq!(name.wmi_id, Some(12));
    assert_eq!(id.wmi_id, Some(12));
    assert_eq!(name.keys, id.keys);
    assert_eq!(year.source.as_deref(), Some("ModelYear"));
    assert_eq!(year.element_id, Some(29));
    assert_eq!(year.attribute_id, Some(2019));
    assert_eq!(year.value.as_deref(), Some("2019"));
    assert_eq!(year.keys.as_deref(), Some("1N4BZ0CP*HC"));
    match q {
        CoreQuery::FormulaPatterns { pass, keys, model_year, wmi, include_not_publicly_available, formula_keys } => {
            assert_eq!(pass, 1);
            assert_eq!(keys, "BZ0CP|HC303730");
            assert_eq!(model_year, Some(2019));
            assert_eq!(wmi, "1N4");
            assert_eq!(include_not_publicly_available, Some(false));
            assert_eq!(formula_keys, "BZ#CP|HC######");
        }
        _ => panic!("wrong query"),
    }

    let formula_rows = vec![DecodingItem {
        decoding_id: Some(1),
        source: Some("Formula Pattern".to_string()),
        created_on: ts(1_600_000_000),
        priority: Some(100),
        pattern_id: Some(105),
        keys: None,
        vin_schema_id: Some(5),
        wmi_id: None,
        element_id: Some(14),
        attribute_id: None,
        value: Some("303730".to_string()),
    }];
    let (core, q) = next(core.on_formula(formula_rows));
    assert_eq!(core.stage, CoreStage::AwaitModelMakes);
    assert_eq!(core.decodings.len(), 9);
    let model = core.model_item.as_ref().unwrap();
    assert_eq!(model.attribute_id, Some(1234));
    let engine: Vec<&DecodingItem> = core.decodings.iter().filter(|d| d.element_id == Some(18)).collect();
    assert_eq!(engine.len(), 1);
    assert_eq!(engine[0].attribute_id, Some(77));
    match q {
        CoreQuery::ModelMakes { model_id } => assert_eq!(model_id, Some(1234)),
        _ => panic!("wrong query"),
    }

    let makes = vec![ModelMakeRow { attribute_id: Some(474), value: Some("NISSAN".to_string()) }];
    let (core, q) = next(core.on_model_makes(makes));
    assert_eq!(core.stage, CoreStage::AwaitSpecSchemas);
    let make = core.decodings.last().unwrap();
    assert_eq!(make.element_id, Some(26));
    assert_eq!(make.source.as_deref(), Some("pattern - model"));
    assert_eq!(make.priority, Some(1000));
    assert_eq!(make.pattern_id, Some(100));
    assert_eq!(make.keys.as_deref(), Some("BZ0CP"));
    assert_eq!(make.wmi_id, None);
    match q {
        CoreQuery::SpecSchemas { wmi, vehicle_type_id, model_id, model_year, include_not_publicly_available } => {
            assert_eq!(wmi, "1N4");
            assert_eq!(vehicle_type_id, 2);
            assert_eq!(model_id, Some(1234));
            assert_eq!(model_year, Some(2019));
            assert_eq!(include_not_publicly_available, Some(false));
        }
        _ => panic!("wrong query"),
    }

    let schemas = vec![
        SpecSchemaRow { id: Some(50), tobe_q_ced: Some(true) },
        SpecSchemaRow { id: Some(51), tobe_q_ced: None },
        SpecSchemaRow { id: None, tobe_q_ced: Some(true) },
    ];
    let (core, q) = next(core.on_spec_schemas(schemas));
    assert_eq!(core.stage, CoreStage::AwaitSpecKeys);
    match q {
        CoreQuery::SpecKeys { pattern_ids } => assert_eq!(pattern_ids, vec![50, 51]),
        _ => panic!("wrong query"),
    }

    let keys = vec![
        SpecKeyRow { v_spec_schema_pattern_id: Some(50), element_id: Some(28), attribute_id: Some(1234) },
        SpecKeyRow { v_spec_schema_pattern_id: Some(50), element_id: Some(5), attribute_id: Some(3) },
        SpecKeyRow { v_spec_schema_pattern_id: Some(51), element_id: Some(28), attribute_id: Some(1234) },
        SpecKeyRow { v_spec_schema_pattern_id: Some(51), element_id: Some(28), attribute_id: Some(9999) },
    ];
    let (core, q) = next(core.on_spec_keys(keys));
    assert_eq!(core.stage, CoreStage::AwaitSpecValues);
    assert!(matches!(q, CoreQuery::SpecValues));
    assert_eq!(core.spec_patterns.len(), 1);
    assert_eq!(core.spec_patterns[0].id, Some(50));

    let values = vec![
        SpecValueRow {
            schema_id: Some(8),
            v_spec_schema_pattern_id: Some(50),
            element_id: Some(60),
            attribute_id: Some(4),
            id: Some(50),
            changed_on: ts(1_650_000_000),
        },
        SpecValueRow {
            schema_id: Some(8),
            v_spec_schema_pattern_id: Some(51),
            element_id: Some(61),
            attribute_id: Some(5),
            id: Some(51),
            changed_on: None,
        },
    ];
    let (core, q) = next(core.on_spec_values(values));
    assert_eq!(core.stage, CoreStage::AwaitDefaults);
    assert_eq!(core.default_vehicle_type, Some(2));
    assert!(matches!(q, CoreQuery::DefaultValues));
    let spec = core.decodings.last().unwrap();
    assert_eq!(spec.element_id, Some(60));
    assert_eq!(spec.source.as_deref(), Some("Vehicle Specs"));
    assert_eq!(spec.priority, Some(-100));
    assert_eq!(spec.keys.as_deref(), Some(""));
    assert_eq!(spec.vin_schema_id, Some(8));
    assert_eq!(spec.pattern_id, Some(50));
    assert_eq!(spec.created_on, ts(1_650_000_000));

    let defaults = vec![
        DefaultValueRow { created_on: None, element_id: Some(10), default_value: Some(6), value: Some("XXX".to_string()), vehicle_type_id: Some(2) },
        DefaultValueRow { created_on: None, element_id: Some(5), default_value: Some(9), value: Some("XXX".to_string()), vehicle_type_id: Some(2) },
        DefaultValueRow { created_on: None, element_id: Some(11), default_value: None, value: Some("XXX".to_string()), vehicle_type_id: Some(2) },
        DefaultValueRow { created_on: None, element_id: Some(12), default_value: Some(1), value: Some("XXX".to_string()), vehicle_type_id: Some(3) },
    ];
    let items = done(core.on_defaults(defaults));
    assert_eq!(items.len(), 12);
    let default = items.last().unwrap();
    assert_eq!(default.element_id, Some(10));
    assert_eq!(default.attribute_id, Some(6));
    assert_eq!(default.priority, Some(10));
    assert_eq!(default.source.as_deref(), Some("default"));

    let (dec, q, mut asked) = resolve_all(dec.on_pass_done(items));
    asked.sort();
    assert_eq!(
        asked,
        vec![
            ("body_style".to_string(), 3),
            ("destination_market".to_string(), 6),
            ("model".to_string(), 1234),
            ("wheel_base_type".to_string(), 4),
        ]
    );
    assert_eq!(dec.stage, DecodeStage::AwaitElements);
    assert!(dec.decodings.iter().all(|d| d.value.as_deref() != Some("XXX")));
    match q {
        DecodeQuery::Elements { include_all, include_private } => {
            assert_eq!(include_all, None);
            assert_eq!(include_private, None);
        }
        _ => panic!("wrong query"),
    }

    let rows = vec![
        element("General", "Make", 26),
        element("General", "Manufacturer Name", 27),
        element("General", "Model", 28),
        element("General", "Model Year", 29),
        element("Exterior / Body", "Body Class", 5),
        element("Engine", "Engine Model", 18),
        element("General", "Destination Market", 10),
        element("Exterior / Dimension", "Wheel Base Type", 60),
        element("Internal", "Manufacturer Id", 157),
        element("General", "Vehicle Type", 39),
        element("Internal", "Unknown", 999),
    ];
    let out: Vec<DecodingOutput> = match dec.on_elements(rows) {
        DecodeOutcome::Done(out) => out,
        _ => panic!("the decoding should be over"),
    };
    assert_eq!(out.len(), 11);
    let values: Vec<Option<&str>> = out.iter().map(|o| o.value.as_deref()).collect();
    assert_eq!(
        values,
        vec![
            Some("NISSAN"),
            Some("NISSAN NORTH AMERICA"),
            Some("ALTIMA"),
            Some("201 "),
            Some("Sedan/Saloon"),
            Some("77"),
            Some("Canada  "),
            None,
            Some("  7"),
            Some("PASSENGER CAR"),
            None,
        ]
    );
    assert_eq!(out[0].attribute_id, Some(474));
    assert_eq!(out[0].source.as_deref(), Some("pattern - model"));
    assert_eq!(out[0].group_name.as_deref(), Some("General"));
    assert_eq!(out[0].variable.as_deref(), Some("Make"));
    assert_eq!(out[0].code.as_deref(), Some("E26"));
    assert_eq!(out[0].data_type.as_deref(), Some("string"));
    assert_eq!(out[0].decode.as_deref(), Some("Pattern"));
    assert_eq!(out[3].attribute_id, Some(2019));
    assert_eq!(out[3].keys.as_deref(), Some("1N4BZ0CP*HC"));
    assert_eq!(out[9].created_on, ts(1_500_000_000));
    assert_eq!(out[9].wmi_id, Some(12));
    assert_eq!(out[10].element_id, None);
    assert_eq!(out[10].source, None);
    assert_eq!(out[10].variable.as_deref(), Some("Unknown"));
}

#[test]
fn unknown_manufacturer_stops_the_pass() {
    let c = core_at(CoreStage::AwaitWmiId, vec![]);
    assert!(matches!(c.on_wmi_id(None), CoreOutcome::Failed(DecodeError::UnknownManufacturer)));
    let c = core_at(CoreStage::AwaitWmiId, vec![]);
    assert!(matches!(c.on_wmi_id(Some(None)), CoreOutcome::Failed(DecodeError::UnknownManufacturer)));
}

#[test]
fn pass_starts_with_wmi_and_keys() {
    let args = SpVinDecodeCoreArgs {
        pass: 3,
        vin: "1G9ABCDEFGHIJKLMN",
        model_year: None,
        model_year_source: None,
        include_private: Some(true),
        include_not_publicly_available: Some(true),
    };
    let (c, q) = sp_vin_decode_core(&args);
    assert_eq!(c.stage, CoreStage::AwaitWmiId);
    assert_eq!(c.wmi, "1G9IJK");
    assert_eq!(c.keys, "ABCDE|GHIJKLMN");
    assert_eq!(c.pass, 3);
    assert_eq!(c.model_year_source, None);
    assert!(c.decodings.is_empty());
    match q {
        CoreQuery::WmiId { wmi, include_not_publicly_available } => {
            assert_eq!(wmi, "1G9IJK");
            assert_eq!(include_not_publicly_available, Some(true));
        }
        _ => panic!("wrong query"),
    }
}

#[test]
fn descriptor_year_outside_window_uses_the_code() {
    for row in [Some(Some(1975)), Some(Some(2027)), Some(None), None] {
        let dec = start("1N4BZ0CP6HC303730", 2026, 2025);
        let (_, core, _) = run_pass(dec.on_descriptor_year(row));
        assert_eq!(core.pass, 3);
        assert_eq!(core.model_year, Some(2017));
        assert_eq!(core.model_year_source.as_deref(), Some("1N4BZ0CP*HC"));
    }
    let dec = start("1N4BZ0CP6HC303730", 2026, 2025);
    let (_, core, _) = run_pass(dec.on_descriptor_year(Some(Some(1980))));
    assert_eq!(core.pass, 1);
    assert_eq!(core.model_year, Some(1980));
    let dec = start("1N4BZ0CP6HC303730", 2026, 2025);
    let (_, core, _) = run_pass(dec.on_descriptor_year(Some(Some(2026))));
    assert_eq!(core.pass, 1);
    assert_eq!(core.model_year, Some(2026));
}

#[test]
fn unreadable_code_gives_no_model_year() {
    let dec = start("1N4BZ0CP6ZC303730", 2026, 2025);
    let (_, core, _) = run_pass(dec.on_descriptor_year(None));
    assert_eq!(core.pass, 3);
    assert_eq!(core.model_year, None);
}

#[test]
fn request_flags_reach_the_queries() {
    let args = SpVinDecodeArgs {
        v: "1N4BZ0CP6HC303730",
        include_private: Some(true),
        year: None,
        include_all: Some(true),
        no_output: None,
    };
    let dec = match sp_vin_decode(&args, 2026, 2025) {
        DecodeOutcome::Query(d, _) => d,
        _ => panic!("the descriptor year should be asked for"),
    };
    assert_eq!(dec.include_private, Some(true));
    assert_eq!(dec.include_all, Some(true));
    let (dec, core, _) = run_pass(dec.on_descriptor_year(Some(Some(2019))));
    assert_eq!(core.include_private, Some(true));
    match dec.on_pass_done(vec![]) {
        DecodeOutcome::Query(_, DecodeQuery::Elements { include_all, include_private }) => {
            assert_eq!(include_all, Some(true));
            assert_eq!(include_private, Some(true));
        }
        _ => panic!("the elements should be asked for"),
    }
}

#[test]
fn malformed_descriptor() {
    let out = sp_vin_decode(&SpVinDecodeArgs::from("a\u{e9}"), 2026, 2025);
    assert!(matches!(out, DecodeOutcome::Malformed(Malformed::Descriptor)));
}

#[test]
fn malformed_model_year_code() {
    let dec = start("ABCDEFGHI\u{e9}", 2026, 2025);
    assert!(matches!(dec.on_descriptor_year(None), DecodeOutcome::Malformed(Malformed::ModelYear)));
}

#[test]
fn malformed_keys() {
    let dec = start("1N4BZ0CP6HC30", 2026, 2025);
    assert!(matches!(dec.on_descriptor_year(Some(Some(2019))), DecodeOutcome::Malformed(Malformed::Keys)));
    let dec = start("1N4BZ0CP6HC30", 2026, 2025);
    assert!(matches!(dec.on_descriptor_year(None), DecodeOutcome::Malformed(Malformed::Keys)));
}

#[test]
fn no_engine_item_goes_to_vehicle_type() {
    let c = core_at(CoreStage::AwaitPatterns, vec![]);
    let (c, q) = next(c.on_patterns(vec![pattern_item(28, 1234, 2015, "BZ0CP", 100)]));
    assert_eq!(c.stage, CoreStage::AwaitVehicleType);
    assert!(matches!(q, CoreQuery::VehicleType { .. }));
}

#[test]
fn engine_item_of_another_pass_is_not_followed() {
    let c = core_at(CoreStage::AwaitPatterns, vec![]);
    let mut other = pattern_item(18, 77, 2015, "BZ0", 102);
    other.decoding_id = Some(2);
    let (c, _) = next(c.on_patterns(vec![other]));
    assert_eq!(c.stage, CoreStage::AwaitVehicleType);
}

#[test]
fn engine_items_of_equal_rank_follow_the_first() {
    let c = core_at(CoreStage::AwaitPatterns, vec![]);
    let rows = vec![pattern_item(18, 70, 2015, "BZ0", 102), pattern_item(18, 71, 2015, "BZ1", 103)];
    match next(c.on_patterns(rows)).1 {
        CoreQuery::EngineModel { engine_model, pattern_id, .. } => {
            assert_eq!(engine_model.as_deref(), Some("70"));
            assert_eq!(pattern_id, Some(102));
        }
        _ => panic!("wrong query"),
    }
    let c = core_at(CoreStage::AwaitPatterns, vec![]);
    let mut no_priority = pattern_item(18, 72, 0, "BZ2", 104);
    no_priority.priority = None;
    let rows = vec![pattern_item(18, 70, 0, "BZ0", 102), no_priority];
    match next(c.on_patterns(rows)).1 {
        CoreQuery::EngineModel { engine_model, .. } => assert_eq!(engine_model.as_deref(), Some("72")),
        _ => panic!("wrong query"),
    }
}

#[test]
fn manufacturer_without_record() {
    let c = core_at(CoreStage::AwaitManufacturer, vec![]);
    let (c, _) = next(c.on_manufacturer(None));
    assert_eq!(c.decodings.len(), 3);
    assert_eq!(c.decodings[0].attribute_id, None);
    assert_eq!(c.decodings[0].value, None);
    assert_eq!(c.decodings[1].value, None);
    assert_eq!(c.decodings[1].element_id, Some(157));
}

#[test]
fn no_model_year_item_without_model_year() {
    let mut c = core_at(CoreStage::AwaitManufacturer, vec![]);
    c.model_year = None;
    let (c, _) = next(c.on_manufacturer(None));
    assert_eq!(c.decodings.len(), 2);
}

#[test]
fn one_item_kept_per_contested_element() {
    let mut other_pass = pattern_item(28, 5555, 2099, "BZ0CP", 110);
    other_pass.decoding_id = Some(2);
    let rows = vec![
        pattern_item(28, 1, 2010, "BZ0CP", 100),
        pattern_item(28, 2, 2015, "BZ0CP", 101),
        pattern_item(28, 3, 2012, "BZ0CP", 102),
        pattern_item(121, 10, 2010, "BZ0CP", 103),
        pattern_item(121, 11, 2015, "BZ0CP", 104),
        other_pass,
        pattern_item(5, 3, 2015, "BZ0CP", 105),
    ];
    let c = core_at(CoreStage::AwaitFormula, vec![]);
    let (c, q) = next(c.on_formula(rows));
    assert_eq!(c.decodings.len(), 5);
    assert_eq!(c.decodings[0].attribute_id, Some(10));
    assert_eq!(c.decodings[1].attribute_id, Some(11));
    assert_eq!(c.decodings[2].attribute_id, Some(5555));
    let mut rest: Vec<(Option<i32>, Option<i32>)> =
        c.decodings[3..].iter().map(|d| (d.element_id, d.attribute_id)).collect();
    rest.sort();
    assert_eq!(rest, vec![(Some(5), Some(3)), (Some(28), Some(2))]);
    match q {
        CoreQuery::ModelMakes { model_id } => assert_eq!(model_id, Some(2)),
        _ => panic!("wrong query"),
    }
}

#[test]
fn rank_ties_are_broken_by_time_then_key_length_then_order() {
    let mut later = pattern_item(28, 2, 2015, "BZ0CP", 101);
    later.created_on = ts(1_700_000_000);
    let c = core_at(CoreStage::AwaitFormula, vec![]);
    let (c, _) = next(c.on_formula(vec![later, pattern_item(28, 1, 2015, "BZ0CP", 100)]));
    assert_eq!(c.model_item.unwrap().attribute_id, Some(2));

    let c = core_at(CoreStage::AwaitFormula, vec![]);
    let rows = vec![pattern_item(28, 1, 2015, "BZ0**", 100), pattern_item(28, 2, 2015, "BZ0CP", 101)];
    let (c, _) = next(c.on_formula(rows));
    assert_eq!(c.model_item.unwrap().attribute_id, Some(1));

    let c = core_at(CoreStage::AwaitFormula, vec![]);
    let rows = vec![pattern_item(28, 1, 2015, "BZ0CP", 100), pattern_item(28, 2, 2015, "BZ0CP", 101)];
    let (c, _) = next(c.on_formula(rows));
    assert_eq!(c.model_item.unwrap().attribute_id, Some(2));

    let mut none = pattern_item(28, 1, 0, "BZ0CP", 100);
    none.priority = None;
    let c = core_at(CoreStage::AwaitFormula, vec![]);
    let (c, _) = next(c.on_formula(vec![none, pattern_item(28, 2, -5, "BZ0CP", 101)]));
    assert_eq!(c.model_item.unwrap().attribute_id, Some(2));

    let long_keys = "B".repeat(200);
    let c = core_at(CoreStage::AwaitFormula, vec![]);
    let rows = vec![pattern_item(28, 1, 2015, &long_keys, 100), pattern_item(28, 2, 2015, "BZ0CP", 101)];
    let (c, _) = next(c.on_formula(rows));
    assert_eq!(c.model_item.unwrap().attribute_id, Some(2));
}

#[test]
fn wmi_make_when_exactly_one_is_registered() {
    let c = core_at(CoreStage::AwaitFormula, vec![]);
    let (c, q) = next(c.on_formula(vec![pattern_item(5, 3, 2015, "BZ0CP", 105)]));
    assert_eq!(c.stage, CoreStage::AwaitWmiMakes);
    assert!(c.model_item.is_none());
    match q {
        CoreQuery::WmiMakes { wmi, include_not_publicly_available } => {
            assert_eq!(wmi, "1N4");
            assert_eq!(include_not_publicly_available, Some(false));
        }
        _ => panic!("wrong query"),
    }
    let row = WmiMakeRow { created_on: ts(1_400_000_000), wmi_id: Some(12), attribute_id: Some(474), value: Some("NISSAN".to_string()) };
    let items = done(c.on_wmi_makes(vec![row]));
    assert_eq!(items.len(), 2);
    let make = &items[1];
    assert_eq!(make.element_id, Some(26));
    assert_eq!(make.source.as_deref(), Some("Make"));
    assert_eq!(make.priority, Some(-100));
    assert_eq!(make.keys.as_deref(), Some("1N4"));
    assert_eq!(make.created_on, ts(1_400_000_000));
    assert_eq!(make.value.as_deref(), Some("NISSAN"));

    let c = core_at(CoreStage::AwaitWmiMakes, vec![]);
    let rows = vec![
        WmiMakeRow { created_on: None, wmi_id: Some(12), attribute_id: Some(474), value: Some("NISSAN".to_string()) },
        WmiMakeRow { created_on: None, wmi_id: Some(12), attribute_id: Some(475), value: Some("INFINITI".to_string()) },
    ];
    assert!(done(c.on_wmi_makes(rows)).is_empty());
    let c = core_at(CoreStage::AwaitWmiMakes, vec![]);
    assert!(done(c.on_wmi_makes(vec![])).is_empty());
}

fn vehicle_type_item(attribute: Option<i32>) -> DecodingItem {
    DecodingItem {
        decoding_id: Some(1),
        source: Some("VehType".to_string()),
        created_on: None,
        priority: Some(100),
        pattern_id: None,
        keys: Some("1N4".to_string()),
        vin_schema_id: None,
        wmi_id: Some(12),
        element_id: Some(39),
        attribute_id: attribute,
        value: Some("TRUCK".to_string()),
    }
}

#[test]
fn vehicle_type_without_attribute_skips_specs_but_not_defaults() {
    let c = core_at(CoreStage::AwaitWmiMakes, vec![vehicle_type_item(None)]);
    let (c, q) = next(c.on_wmi_makes(vec![]));
    assert_eq!(c.stage, CoreStage::AwaitDefaults);
    assert_eq!(c.default_vehicle_type, None);
    assert!(matches!(q, CoreQuery::DefaultValues));
    let rows = vec![
        DefaultValueRow { created_on: None, element_id: Some(10), default_value: Some(6), value: Some("XXX".to_string()), vehicle_type_id: None },
        DefaultValueRow { created_on: None, element_id: None, default_value: Some(1), value: Some("Not Applicable".to_string()), vehicle_type_id: None },
        DefaultValueRow { created_on: None, element_id: Some(39), default_value: Some(1), value: Some("XXX".to_string()), vehicle_type_id: None },
        DefaultValueRow { created_on: None, element_id: Some(12), default_value: Some(1), value: Some("XXX".to_string()), vehicle_type_id: Some(2) },
    ];
    let items = done(c.on_defaults(rows));
    assert_eq!(items.len(), 3);
    assert_eq!(items[1].element_id, Some(10));
    assert_eq!(items[2].element_id, None);
    assert_eq!(items[2].value.as_deref(), Some("Not Applicable"));
}

#[test]
fn spec_values_skip_relevant_elements() {
    let mut c = core_at(CoreStage::AwaitSpecValues, vec![vehicle_type_item(Some(2)), pattern_item(1, 9, 2015, "BZ0CP", 100)]);
    c.spec_patterns = vec![SpecSchemaRow { id: Some(50), tobe_q_ced: None }, SpecSchemaRow { id: Some(50), tobe_q_ced: Some(true) }];
    let rows = vec![
        SpecValueRow { schema_id: Some(8), v_spec_schema_pattern_id: Some(50), element_id: Some(1), attribute_id: Some(4), id: Some(50), changed_on: None },
        SpecValueRow { schema_id: Some(8), v_spec_schema_pattern_id: Some(50), element_id: Some(60), attribute_id: Some(4), id: Some(50), changed_on: None },
    ];
    let (c, _) = next(c.on_spec_values(rows));
    assert_eq!(c.decodings.len(), 4);
    assert_eq!(c.decodings[2].element_id, Some(60));
    assert_eq!(c.decodings[3].element_id, Some(60));
}

#[test]
fn spec_keys_keep_patterns_met_twice() {
    let items = vec![pattern_item(28, 1234, 2015, "BZ0CP", 100), pattern_item(5, 3, 2015, "BZ0CP", 101)];
    let rows = || {
        vec![
            SpecKeyRow { v_spec_schema_pattern_id: Some(61), element_id: Some(28), attribute_id: Some(1234) },
            SpecKeyRow { v_spec_schema_pattern_id: Some(61), element_id: Some(28), attribute_id: Some(1234) },
            SpecKeyRow { v_spec_schema_pattern_id: Some(60), element_id: Some(5), attribute_id: Some(3) },
        ]
    };
    let mut c = core_at(CoreStage::AwaitSpecKeys, items);
    c.spec_patterns = vec![
        SpecSchemaRow { id: Some(61), tobe_q_ced: None },
        SpecSchemaRow { id: Some(60), tobe_q_ced: None },
    ];
    let (c, _) = next(c.on_spec_keys(rows()));
    assert_eq!(c.spec_patterns.len(), 1);
    assert_eq!(c.spec_patterns[0].id, Some(61));
}

#[test]
fn spec_keys_lookup_moves_past_what_it_has_seen() {
    let items = vec![pattern_item(28, 1234, 2015, "BZ0CP", 100), pattern_item(5, 3, 2015, "BZ0CP", 101)];
    let mut c = core_at(CoreStage::AwaitSpecKeys, items);
    c.spec_patterns = vec![
        SpecSchemaRow { id: Some(60), tobe_q_ced: None },
        SpecSchemaRow { id: Some(61), tobe_q_ced: None },
    ];
    let rows = vec![
        SpecKeyRow { v_spec_schema_pattern_id: Some(61), element_id: Some(28), attribute_id: Some(1234) },
        SpecKeyRow { v_spec_schema_pattern_id: Some(61), element_id: Some(5), attribute_id: Some(3) },
    ];
    let (c, _) = next(c.on_spec_keys(rows));
    assert!(c.spec_patterns.is_empty());
}

#[test]
fn no_vehicle_type_ends_the_pass_after_makes() {
    let c = core_at(CoreStage::AwaitWmiMakes, vec![pattern_item(5, 3, 2015, "BZ0CP", 101)]);
    let items = done(c.on_wmi_makes(vec![]));
    assert_eq!(items.len(), 1);
}

#[test]
fn values_without_lookup_table_are_resolved_in_place() {
    let dec = start("1N4BZ0CP6HC303730", 2026, 2025);
    let (dec, _, _) = run_pass(dec.on_descriptor_year(Some(Some(2019))));
    let items = vec![pattern_item(29, 2019, 100, "", 1), pattern_item(18, 5, 100, "", 2), pattern_item(13, 10, 100, "", 3)];
    let dec = match dec.on_pass_done(items) {
        DecodeOutcome::Query(d, DecodeQuery::Elements { .. }) => d,
        _ => panic!("no attribute name should be asked for"),
    };
    let values: Vec<Option<&str>> = dec.decodings.iter().map(|d| d.value.as_deref()).collect();
    assert_eq!(values, vec![Some("2019"), Some("5"), Some("10")]);
    let out = match dec.on_elements(vec![element("General", "Model Year", 29), element("Engine", "Displacement", 13)]) {
        DecodeOutcome::Done(out) => out,
        _ => panic!("the decoding should be over"),
    };
    assert_eq!(out[0].value.as_deref(), Some("201 "));
    assert_eq!(out[1].value.as_deref(), Some(" "));
}

#[test]
fn first_item_of_an_element_is_reported() {
    let dec = start("1N4BZ0CP6HC303730", 2026, 2025);
    let (dec, _, _) = run_pass(dec.on_descriptor_year(Some(Some(2019))));
    let mut a = pattern_item(5, 3, 100, "", 1);
    a.value = Some("first".to_string());
    let mut b = pattern_item(5, 4, 100, "", 2);
    b.value = Some("second".to_string());
    let dec = match dec.on_pass_done(vec![a, b]) {
        DecodeOutcome::Query(d, _) => d,
        _ => panic!("the elements should be asked for"),
    };
    let out = match dec.on_elements(vec![element("Exterior / Body", "Body Class", 5)]) {
        DecodeOutcome::Done(out) => out,
        _ => panic!("the decoding should be over"),
    };
    assert_eq!(out.len(), 1);
    assert_eq!(out[0].value.as_deref(), Some("first"));
    assert_eq!(out[0].attribute_id, Some(3));
}

#[test]
fn attribute_name_not_found_leaves_no_value() {
    let dec = start("1N4BZ0CP6HC303730", 2026, 2025);
    let (dec, _, _) = run_pass(dec.on_descriptor_year(Some(Some(2019))));
    let dec = match dec.on_pass_done(vec![pattern_item(28, 42, 100, "", 1)]) {
        DecodeOutcome::Query(d, DecodeQuery::AttributeName { table, attribute_id }) => {
            assert_eq!(table, "model");
            assert_eq!(attribute_id, 42);
            assert_eq!(d.cursor, 0);
            d
        }
        _ => panic!("the model name should be asked for"),
    };
    match dec.on_attribute_name(None) {
        DecodeOutcome::Query(d, DecodeQuery::Elements { .. }) => assert_eq!(d.decodings[0].value, None),
        _ => panic!("the elements should be asked for"),
    }
}

#[test]
fn name_lookups_move_forward_through_the_items() {
    let dec = start("1N4BZ0CP6HC303730", 2026, 2025);
    let (dec, _, _) = run_pass(dec.on_descriptor_year(Some(Some(2019))));
    let items = vec![
        pattern_item(28, 1234, 100, "", 1),
        pattern_item(29, 2019, 100, "", 2),
        pattern_item(5, 3, 100, "", 3),
        pattern_item(10, 6, 100, "", 4),
    ];
    let mut outcome = dec.on_pass_done(items);
    let mut cursors = vec![];
    loop {
        match outcome {
            DecodeOutcome::Query(d, DecodeQuery::AttributeName { table, attribute_id }) => {
                assert_eq!(d.stage, DecodeStage::AwaitAttribute);
                assert_eq!(d.decodings.len(), 4);
                cursors.push(d.cursor);
                outcome = d.on_attribute_name(lookup(table, attribute_id));
            }
            DecodeOutcome::Query(d, DecodeQuery::Elements { .. }) => {
                assert_eq!(d.stage, DecodeStage::AwaitElements);
                break;
            }
            _ => panic!("resolution should end in a query"),
        }
    }
    assert_eq!(cursors, vec![0, 2, 3]);
}

#[test]
fn requests_with_the_same_normalised_vin_start_alike() {
    let a = SpVinDecodeArgs { v: " 1n4bz0cp6hc303730 ", include_private: Some(true), year: Some(3), include_all: None, no_output: Some(true) };
    let b = SpVinDecodeArgs { v: "1N4BZ0CP6HC303730", include_private: Some(true), year: None, include_all: None, no_output: None };
    let (da, qa) = match sp_vin_decode(&a, 2026, 2025) {
        DecodeOutcome::Query(d, DecodeQuery::DescriptorYear { descriptor }) => (d, descriptor),
        _ => panic!("the descriptor year should be asked for"),
    };
    let (db, qb) = match sp_vin_decode(&b, 2026, 2025) {
        DecodeOutcome::Query(d, DecodeQuery::DescriptorYear { descriptor }) => (d, descriptor),
        _ => panic!("the descriptor year should be asked for"),
    };
    assert_eq!(qa, qb);
    assert_eq!(da.vin, db.vin);
    assert_eq!(da.descriptor, db.descriptor);
    assert_eq!(da.include_private, db.include_private);
    assert_eq!(da.include_all, db.include_all);
    assert_eq!(da.stage, db.stage);
}

#[test]
fn value_codes_are_blanked_leftmost_first() {
    let dec = start("1N4BZ0CP6HC303730", 2026, 2025);
    let (dec, _, _) = run_pass(dec.on_descriptor_year(Some(Some(2019))));
    let mut a = pattern_item(5, 3, 100, "", 1);
    a.value = Some("913101310x19".to_string());
    let dec = match dec.on_pass_done(vec![a]) {
        DecodeOutcome::Query(d, _) => d,
        _ => panic!("the elements should be asked for"),
    };
    let out = match dec.on_elements(vec![element("Exterior / Body", "Body Class", 5)]) {
        DecodeOutcome::Done(out) => out,
        _ => panic!("the decoding should be over"),
    };
    assert_eq!(out[0].value.as_deref(), Some("     x1 "));
}
