//! Where the name of an element's attribute is stored: the lookup table of
//! each element whose attributes are names.
use vstd::prelude::*;

use crate::text::{decimal_of, decimal_string};

verus! {

/// The table that names the attributes of an element; `None` for an element
/// whose attribute is a plain value.
pub open spec fn attribute_table_of(element_id: i32) -> Option<Seq<char>> {
    match element_id {
        2 => Some("battery_type"@),
        3 => Some("bed_type"@),
        4 => Some("body_cab"@),
        5 => Some("body_style"@),
        10 => Some("destination_market"@),
        15 => Some("drive_type"@),
        23 => Some("entertainment_system"@),
        24 => Some("fuel_type"@),
        25 => Some("gross_vehicle_weight_rating"@),
        26 => Some("make"@),
        27 => Some("manufacturer"@),
        28 => Some("model"@),
        36 => Some("steering"@),
        37 => Some("transmission"@),
        39 => Some("vehicle_type"@),
        42 => Some("brake_system"@),
        55 => Some("air_bag_locations"@),
        56 => Some("air_bag_locations"@),
        60 => Some("wheel_base_type"@),
        62 => Some("valvetrain_design"@),
        64 => Some("engine_configuration"@),
        65 => Some("air_bag_loc_front"@),
        66 => Some("fuel_type"@),
        67 => Some("fuel_delivery_type"@),
        69 => Some("air_bag_loc_knee"@),
        72 => Some("evdrive_unit"@),
        75 => Some("country"@),
        78 => Some("pretensioner"@),
        79 => Some("seat_belts_all"@),
        81 => Some("adaptive_cruise_control"@),
        86 => Some("abs"@),
        87 => Some("auto_brake"@),
        88 => Some("blind_spot_monitoring"@),
        96 => Some("v_ncsabody_type"@),
        97 => Some("v_ncsamake"@),
        98 => Some("v_ncsamodel"@),
        99 => Some("ecs"@),
        100 => Some("traction_control"@),
        101 => Some("forward_collision_warning"@),
        102 => Some("lane_departure_warning"@),
        103 => Some("lane_keep_system"@),
        104 => Some("rear_visibility_camera"@),
        105 => Some("park_assist"@),
        107 => Some("air_bag_locations"@),
        116 => Some("trailer_type"@),
        117 => Some("trailer_body_type"@),
        122 => Some("cooling_type"@),
        126 => Some("electrification_level"@),
        127 => Some("charger_level"@),
        135 => Some("turbo"@),
        143 => Some("error_code"@),
        145 => Some("axle_configuration"@),
        148 => Some("bus_floor_config_type"@),
        149 => Some("bus_type"@),
        151 => Some("custom_motorcycle_type"@),
        152 => Some("motorcycle_suspension_type"@),
        153 => Some("motorcycle_chassis_type"@),
        168 => Some("tpms"@),
        170 => Some("dynamic_brake_support"@),
        171 => Some("pedestrian_automatic_emergency_braking"@),
        172 => Some("auto_reverse_system"@),
        173 => Some("automatic_pedestrain_alerting_sound"@),
        174 => Some("can__aacn"@),
        175 => Some("edr"@),
        176 => Some("keyless_ignition"@),
        177 => Some("daytime_running_light"@),
        178 => Some("lower_beam_headlamp_light_source"@),
        179 => Some("semiautomatic_headlamp_beam_switching"@),
        180 => Some("adaptive_driving_beam"@),
        183 => Some("rear_cross_traffic_alert"@),
        184 => Some("gross_vehicle_weight_rating"@),
        185 => Some("gross_vehicle_weight_rating"@),
        190 => Some("gross_vehicle_weight_rating"@),
        192 => Some("rear_automatic_emergency_braking"@),
        193 => Some("blind_spot_intervention"@),
        194 => Some("lane_centering_assistance"@),
        195 => Some("non_land_use"@),
        _ => None,
    }
}

/// The table that names the attributes of an element: see
/// `attribute_table_of`.
pub fn attribute_table(element_id: i32) -> (r: Option<&'static str>)
    ensures
        r is Some <==> attribute_table_of(element_id) is Some,
        r matches Some(t) ==> attribute_table_of(element_id) == Some(t@),
{
    match element_id {
        2 => Some("battery_type"),
        3 => Some("bed_type"),
        4 => Some("body_cab"),
        5 => Some("body_style"),
        10 => Some("destination_market"),
        15 => Some("drive_type"),
        23 => Some("entertainment_system"),
        24 => Some("fuel_type"),
        25 => Some("gross_vehicle_weight_rating"),
        26 => Some("make"),
        27 => Some("manufacturer"),
        28 => Some("model"),
        36 => Some("steering"),
        37 => Some("transmission"),
        39 => Some("vehicle_type"),
        42 => Some("brake_system"),
        55 => Some("air_bag_locations"),
        56 => Some("air_bag_locations"),
        60 => Some("wheel_base_type"),
        62 => Some("valvetrain_design"),
        64 => Some("engine_configuration"),
        65 => Some("air_bag_loc_front"),
        66 => Some("fuel_type"),
        67 => Some("fuel_delivery_type"),
        69 => Some("air_bag_loc_knee"),
        72 => Some("evdrive_unit"),
        75 => Some("country"),
        78 => Some("pretensioner"),
        79 => Some("seat_belts_all"),
        81 => Some("adaptive_cruise_control"),
        86 => Some("abs"),
        87 => Some("auto_brake"),
        88 => Some("blind_spot_monitoring"),
        96 => Some("v_ncsabody_type"),
        97 => Some("v_ncsamake"),
        98 => Some("v_ncsamodel"),
        99 => Some("ecs"),
        100 => Some("traction_control"),
        101 => Some("forward_collision_warning"),
        102 => Some("lane_departure_warning"),
        103 => Some("lane_keep_system"),
        104 => Some("rear_visibility_camera"),
        105 => Some("park_assist"),
        107 => Some("air_bag_locations"),
        116 => Some("trailer_type"),
        117 => Some("trailer_body_type"),
        122 => Some("cooling_type"),
        126 => Some("electrification_level"),
        127 => Some("charger_level"),
        135 => Some("turbo"),
        143 => Some("error_code"),
        145 => Some("axle_configuration"),
        148 => Some("bus_floor_config_type"),
        149 => Some("bus_type"),
        151 => Some("custom_motorcycle_type"),
        152 => Some("motorcycle_suspension_type"),
        153 => Some("motorcycle_chassis_type"),
        168 => Some("tpms"),
        170 => Some("dynamic_brake_support"),
        171 => Some("pedestrian_automatic_emergency_braking"),
        172 => Some("auto_reverse_system"),
        173 => Some("automatic_pedestrain_alerting_sound"),
        174 => Some("can__aacn"),
        175 => Some("edr"),
        176 => Some("keyless_ignition"),
        177 => Some("daytime_running_light"),
        178 => Some("lower_beam_headlamp_light_source"),
        179 => Some("semiautomatic_headlamp_beam_switching"),
        180 => Some("adaptive_driving_beam"),
        183 => Some("rear_cross_traffic_alert"),
        184 => Some("gross_vehicle_weight_rating"),
        185 => Some("gross_vehicle_weight_rating"),
        190 => Some("gross_vehicle_weight_rating"),
        192 => Some("rear_automatic_emergency_braking"),
        193 => Some("blind_spot_intervention"),
        194 => Some("lane_centering_assistance"),
        195 => Some("non_land_use"),
        _ => None,
    }
}

/// How the value of an element's attribute is found.
pub enum AttributeLookup {
    /// Read the `name` of row `attribute_id` of this table.
    Table { table: &'static str, attribute_id: i32 },
    /// The value is the attribute id itself, in decimal.
    Value(String),
}

/// How the value of attribute `attribute_id` of element `element_id` is
/// found: from the element's lookup table when it has one (see
/// `attribute_table_of`), else the attribute id in decimal.
pub fn element_attribute_value(element_id: i32, attribute_id: i32) -> (r: AttributeLookup)
    ensures
        match attribute_table_of(element_id) {
            Some(t) => r matches AttributeLookup::Table { table, attribute_id: a } && table@ == t
                && a == attribute_id,
            None => r matches AttributeLookup::Value(v) && v@ == decimal_of(attribute_id as int),
        },
{
    match attribute_table(element_id) {
        Some(table) => AttributeLookup::Table { table, attribute_id },
        None => AttributeLookup::Value(decimal_string(attribute_id)),
    }
}

} // verus!
