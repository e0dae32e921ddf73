//! Type-directed decoding of an ordered list of string key/value pairs.
//!
//! A target type asks the engine for a shape (one primitive, a tuple, a
//! sequence, a map, ...). The engine checks the list against that shape and
//! hands over the raw material for it, or the failure that the request ends
//! in. Building the target value from that material is the caller's part.

pub mod deserializer;
pub mod error;
pub mod laws;
pub mod params;
pub mod text;

pub use deserializer::ParamsDeserializer;
pub use error::ParamsDeserializationError;
pub use params::Params;
