//! Streaming decoder for location-history exports: one document whose
//! `locations` array holds the records, each handed to a sink as soon as it
//! has been decoded. The decoder reads any structured input; the adapter for
//! a JSON document held in bytes comes with it.

pub mod activity;
pub mod codec;
pub mod engine;
pub mod error;
pub mod input;
pub mod laws;
pub mod protocol;
pub mod record;
pub mod tokens;
pub mod values;
pub mod wifi;
pub mod wire;

pub use engine::{read_entries, read_json_entries, Sink};
pub use error::{DecodeError, FormatError};
pub use input::{Input, JsonBytes};
