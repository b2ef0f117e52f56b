//! Error types for schema construction, path matching, and the two bridge
//! state machines.
//!
//! Every error carries enough structured detail (offending text, expected
//! versus actual) to render a precise diagnostic without re-deriving it.

use vstd::prelude::*;
use crate::de::DeserializerState;
use crate::de::DeserializerStateView;
use crate::ser::SerializerState;
use crate::ser::SerializerStateView;
use crate::value::SegmentValue;
use crate::value::SegmentValueView;

verus! {

/// Why a piece of text failed to parse as an integer, mirroring the
/// standard decimal integer grammar.
#[derive(Clone, Copy, Debug, PartialEq, Eq, Structural)]
pub enum IntParseError {
    /// The text was empty.
    Empty,
    /// A character was not a decimal digit (or a stray sign).
    InvalidDigit,
    /// The value was too large for the requested type.
    PosOverflow,
    /// The value was too small for the requested type.
    NegOverflow,
}

/// General error type for parsing or generating paths.
#[derive(Debug)]
#[allow(inconsistent_fields)]
pub enum StructPathError {
    /// A literal segment of the path did not equal the literal the schema
    /// demands.
    IncorrectSegment { got: String, expected: String },
    /// A value segment's text did not conform to the declared float type's
    /// grammar; carries the underlying parse failure's message.
    ParseFloatError(String),
    /// A value segment's text did not conform to the declared integer
    /// type's grammar.
    ParseIntError(IntParseError),
    /// An error reported by the record type's own field enumeration.
    SerdeInternalError(String),
    /// Structurally required branch that correct operation never reaches.
    Impossible,
    /// The declared field type disagrees with the value actually stored:
    /// the name of the requested type, and the stored value.
    ExpectedType(String, SegmentValue),
    /// The record uses a structural shape other than a flat record of
    /// scalar fields; carries the name of the rejected shape.
    NotSupported(String),
    /// Path generation found no rendered value for a field the schema
    /// requires.
    MissingField(String),
    /// The serialization bridge was driven out of order: the name of the
    /// expected state, and the state actually observed.
    InvalidSerializerState { expected: String, got: SerializerState },
    /// The deserialization bridge was driven out of order: the name of the
    /// expected state, and the state actually observed.
    InvalidDeserializerState { expected: String, got: DeserializerState },
}

/// The mathematical model of a [`StructPathError`].
pub enum StructPathErrorView {
    IncorrectSegment { got: Seq<char>, expected: Seq<char> },
    ParseFloatError(Seq<char>),
    ParseIntError(IntParseError),
    SerdeInternalError(Seq<char>),
    Impossible,
    ExpectedType(Seq<char>, SegmentValueView),
    NotSupported(Seq<char>),
    MissingField(Seq<char>),
    InvalidSerializerState { expected: Seq<char>, got: SerializerStateView },
    InvalidDeserializerState { expected: Seq<char>, got: DeserializerStateView },
}

impl View for StructPathError {
    type V = StructPathErrorView;

    open spec fn view(&self) -> StructPathErrorView {
        match self {
            StructPathError::IncorrectSegment { got, expected } => {
                StructPathErrorView::IncorrectSegment { got: got@, expected: expected@ }
            },
            StructPathError::ParseFloatError(m) => StructPathErrorView::ParseFloatError(m@),
            StructPathError::ParseIntError(e) => StructPathErrorView::ParseIntError(*e),
            StructPathError::SerdeInternalError(m) => StructPathErrorView::SerdeInternalError(m@),
            StructPathError::Impossible => StructPathErrorView::Impossible,
            StructPathError::ExpectedType(t, v) => StructPathErrorView::ExpectedType(t@, v@),
            StructPathError::NotSupported(s) => StructPathErrorView::NotSupported(s@),
            StructPathError::MissingField(f) => StructPathErrorView::MissingField(f@),
            StructPathError::InvalidSerializerState { expected, got } => {
                StructPathErrorView::InvalidSerializerState { expected: expected@, got: got@ }
            },
            StructPathError::InvalidDeserializerState { expected, got } => {
                StructPathErrorView::InvalidDeserializerState { expected: expected@, got: got@ }
            },
        }
    }
}

} // verus!
