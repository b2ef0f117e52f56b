//! Describe the shape of a URL-style path once — literal segments
//! interleaved with typed placeholders — then parse a concrete path into a
//! name-to-value map, or assemble a path from a name-to-string map.
//!
//! The crate is organised bottom-up:
//! - [`split`] splits text at a separator and joins it back;
//! - [`numbers`] holds decimal parsing and rendering for the integer
//!   segment types;
//! - [`float_text`] recognizes the standard float text grammar;
//! - [`value`] holds the scalar value model;
//! - [`field_map`] holds the transient name-to-value map;
//! - [`schema`] holds segment descriptors, the builder, and the pattern DSL;
//! - [`matcher`] walks a path and a schema in lockstep;
//! - [`de`] and [`ser`] hold the two bridge state machines that adapt the
//!   field map onto a generic "visit fields of an unknown record" protocol;
//! - [`laws`] proves the round-trip and length-asymmetry relations between
//!   matching and assembling.

pub mod de;
pub mod errors;
pub mod field_map;
pub mod float_text;
pub mod laws;
pub mod matcher;
pub mod numbers;
pub mod schema;
pub mod ser;
pub mod split;
pub mod value;

pub use de::Deserializer;
pub use de::DeserializerState;
pub use errors::IntParseError;
pub use errors::StructPathError;
pub use field_map::FieldMap;
pub use matcher::parse_path_generic;
pub use schema::PathSchemaParseError;
pub use schema::Schema;
pub use schema::SegmentSchema;
pub use schema::SegmentType;
pub use schema::SegmentValueSchema;
pub use ser::generate_path_from_map;
pub use ser::Serializer;
pub use ser::SerializerState;
pub use value::SegmentValue;
