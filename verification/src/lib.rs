//! Decoding of vehicle identification numbers (VINs) against the vPIC
//! database of patterns: the rules that read a VIN, choose among the
//! database's candidate decodings and lay the result out, with the database
//! queries left to the caller.
pub mod clock;
pub mod core_pass;
pub mod core_rules;
pub mod decode;
pub mod element_attribute;
pub mod laws;
pub mod patterns;
pub mod ranking;
pub mod text;
pub mod types;
pub mod vin;

pub use core_pass::{sp_vin_decode_core, CoreDecoder, CoreOutcome, CoreQuery, CoreStage, DecodeError};
pub use decode::{sp_vin_decode, DecodeOutcome, DecodeQuery, DecodeStage, Malformed, VinDecoder};
pub use element_attribute::{element_attribute_value, AttributeLookup};
pub use types::{DecodingItem, DecodingOutput, SpVinDecodeArgs, SpVinDecodeCoreArgs, Timestamp};
pub use vin::{offset_from, vin_descriptor, vin_model_year, vin_model_year_checked, vin_wmi};
