//! The structural deserialization bridge: a state machine that drives a
//! generic "build this record by asking it to consume fields" protocol,
//! backed by the field map that path matching produced.

use vstd::prelude::*;
use crate::errors::StructPathError;
use crate::errors::StructPathErrorView;
use crate::field_map::FieldMap;
use crate::value::SegmentValue;
use crate::value::SegmentValueView;

verus! {

/// The deserialization bridge's sequencing state.
///
/// Legal transitions: `Start` (no map entered yet) to `InMap` (iterating
/// fields) to `MapKey` (about to hand back a field name) to `MapValue`
/// (about to hand back that field's value, already removed from the map)
/// back to `InMap`, and from `InMap` to `End` once the map is exhausted.
#[derive(Debug)]
pub enum DeserializerState {
    Start,
    InMap,
    MapKey(String),
    MapValue(SegmentValue),
    End,
}

/// The mathematical model of a [`DeserializerState`].
pub enum DeserializerStateView {
    Start,
    InMap,
    MapKey(Seq<char>),
    MapValue(SegmentValueView),
    End,
}

impl View for DeserializerState {
    type V = DeserializerStateView;

    open spec fn view(&self) -> DeserializerStateView {
        match self {
            DeserializerState::Start => DeserializerStateView::Start,
            DeserializerState::InMap => DeserializerStateView::InMap,
            DeserializerState::MapKey(k) => DeserializerStateView::MapKey(k@),
            DeserializerState::MapValue(v) => DeserializerStateView::MapValue(v@),
            DeserializerState::End => DeserializerStateView::End,
        }
    }
}

impl Clone for DeserializerState {
    fn clone(&self) -> (res: Self)
        ensures
            res == *self,
    {
        match self {
            DeserializerState::Start => DeserializerState::Start,
            DeserializerState::InMap => DeserializerState::InMap,
            DeserializerState::MapKey(k) => DeserializerState::MapKey(k.clone()),
            DeserializerState::MapValue(v) => DeserializerState::MapValue(v.clone()),
            DeserializerState::End => DeserializerState::End,
        }
    }
}

/// The error raised when the bridge is driven from the wrong state.
pub open spec fn invalid_de_state(expected: Seq<char>, got: DeserializerStateView) -> StructPathErrorView {
    StructPathErrorView::InvalidDeserializerState { expected: expected, got: got }
}

/// The deserialization bridge: drives a "build this record by consuming
/// fields one at a time" protocol, backed by the field map that path
/// matching produced. Each field is removed from the map as it is
/// consumed, so each is consumed exactly once.
pub struct Deserializer {
    values: FieldMap<SegmentValue>,
    state: DeserializerState,
}

impl Deserializer {
    /// The remaining, not yet consumed fields.
    pub closed spec fn spec_map(&self) -> Map<Seq<char>, SegmentValueView> {
        self.values@
    }

    /// The sequencing state.
    pub closed spec fn spec_state(&self) -> DeserializerStateView {
        self.state@
    }

    /// Start the bridge over a freshly parsed field map.
    pub fn new(values: FieldMap<SegmentValue>) -> (r: Self)
        ensures
            r.spec_state() is Start,
            r.spec_map() == values@,
    {
        Deserializer { values, state: DeserializerState::Start }
    }

    /// Enter the record: only legal from `Start`.
    pub fn begin_map(&mut self) -> (r: Result<(), StructPathError>)
        ensures
            final(self).spec_map() == old(self).spec_map(),
            old(self).spec_state() is Start ==> r is Ok && final(self).spec_state() is InMap,
            !(old(self).spec_state() is Start) ==> {
                &&& final(self).spec_state() == old(self).spec_state()
                &&& r matches Err(e) && e@ == invalid_de_state("Start"@, old(self).spec_state())
            },
    {
        match &self.state {
            DeserializerState::Start => {
                self.state = DeserializerState::InMap;
                Ok(())
            },
            _ => Err(
                StructPathError::InvalidDeserializerState {
                    expected: String::from_str("Start"),
                    got: self.state.clone(),
                },
            ),
        }
    }

    /// Ask for the next field: only legal from `InMap`. Stages one
    /// remaining field name, in unspecified, implementation-defined
    /// order, or reports exhaustion and moves to `End`.
    pub fn next_key(&mut self) -> (r: Result<bool, StructPathError>)
        ensures
            final(self).spec_map() == old(self).spec_map(),
            old(self).spec_state() is InMap ==> {
                &&& r is Ok
                &&& (r == Ok::<bool, StructPathError>(false) <==> old(self).spec_map()
                    == Map::<Seq<char>, SegmentValueView>::empty())
                &&& r == Ok::<bool, StructPathError>(false) ==> final(self).spec_state() is End
                &&& r == Ok::<bool, StructPathError>(true) ==> (final(self).spec_state() matches
                    DeserializerStateView::MapKey(k)
                    && old(self).spec_map().contains_key(k))
            },
            !(old(self).spec_state() is InMap) ==> {
                &&& final(self).spec_state() == old(self).spec_state()
                &&& r matches Err(e) && e@ == invalid_de_state("Map"@, old(self).spec_state())
            },
    {
        match &self.state {
            DeserializerState::InMap => {
                match self.values.first_key() {
                    Some(key) => {
                        self.state = DeserializerState::MapKey(key);
                        Ok(true)
                    },
                    None => {
                        self.state = DeserializerState::End;
                        Ok(false)
                    },
                }
            },
            _ => Err(
                StructPathError::InvalidDeserializerState {
                    expected: String::from_str("Map"),
                    got: self.state.clone(),
                },
            ),
        }
    }

    /// Read the staged field name: only legal from `MapKey`; the state is
    /// left unchanged.
    pub fn identifier(&self) -> (r: Result<String, StructPathError>)
        ensures
            self.spec_state() matches DeserializerStateView::MapKey(k) ==> r matches Ok(s) && s@
                == k,
            !(self.spec_state() is MapKey) ==> (r matches Err(e) && e@ == invalid_de_state(
                "MapKey"@,
                self.spec_state(),
            )),
    {
        match &self.state {
            DeserializerState::MapKey(key) => Ok(key.clone()),
            _ => Err(
                StructPathError::InvalidDeserializerState {
                    expected: String::from_str("MapKey"),
                    got: self.state.clone(),
                },
            ),
        }
    }

    /// Move from the staged name to its value: only legal from `MapKey`.
    /// The entry is removed from the map, so the field is consumed
    /// exactly once.
    pub fn next_value(&mut self) -> (r: Result<(), StructPathError>)
        ensures
            old(self).spec_state() matches DeserializerStateView::MapKey(k) ==> {
                &&& old(self).spec_map().contains_key(k) ==> {
                    &&& r is Ok
                    &&& final(self).spec_state() == DeserializerStateView::MapValue(
                        old(self).spec_map()[k],
                    )
                    &&& final(self).spec_map() == old(self).spec_map().remove(k)
                }
                &&& !old(self).spec_map().contains_key(k) ==> {
                    &&& r matches Err(e) && e@ is Impossible
                    &&& final(self).spec_state() == old(self).spec_state()
                    &&& final(self).spec_map() == old(self).spec_map()
                }
            },
            !(old(self).spec_state() is MapKey) ==> {
                &&& final(self).spec_state() == old(self).spec_state()
                &&& final(self).spec_map() == old(self).spec_map()
                &&& r matches Err(e) && e@ == invalid_de_state("MapValue"@, old(self).spec_state())
            },
    {
        let key = match &self.state {
            DeserializerState::MapKey(key) => key.clone(),
            _ => {
                return Err(
                    StructPathError::InvalidDeserializerState {
                        expected: String::from_str("MapValue"),
                        got: self.state.clone(),
                    },
                );
            },
        };
        match self.values.remove(&key) {
            Some(value) => {
                self.state = DeserializerState::MapValue(value);
                Ok(())
            },
            None => {
                proof {
                    assert(old(self).spec_map().remove(key@) =~= old(self).spec_map());
                }
                Err(StructPathError::Impossible)
            },
        }
    }

    /// Consume the staged value as an 8-bit signed integer: only legal
    /// from `MapValue` holding a matching tag; no coercion between
    /// numeric kinds.
    pub fn consume_i8(&mut self) -> (r: Result<i8, StructPathError>)
        ensures
            final(self).spec_map() == old(self).spec_map(),
            old(self).spec_state() matches DeserializerStateView::MapValue(w) ==> {
                &&& (w matches SegmentValueView::I8(v) ==> r == Ok::<i8, StructPathError>(v)
                    && final(self).spec_state() is InMap)
                &&& !(w is I8) ==> {
                    &&& final(self).spec_state() == old(self).spec_state()
                    &&& r matches Err(e) && e@ == StructPathErrorView::ExpectedType("i8"@, w)
                }
            },
            !(old(self).spec_state() is MapValue) ==> {
                &&& final(self).spec_state() == old(self).spec_state()
                &&& r matches Err(e) && e@ == invalid_de_state("MapValue"@, old(self).spec_state())
            },
    {
        match &self.state {
            DeserializerState::MapValue(SegmentValue::I8(v)) => {
                let value = *v;
                self.state = DeserializerState::InMap;
                Ok(value)
            },
            DeserializerState::MapValue(other) => Err(
                StructPathError::ExpectedType(String::from_str("i8"), other.clone()),
            ),
            _ => Err(
                StructPathError::InvalidDeserializerState {
                    expected: String::from_str("MapValue"),
                    got: self.state.clone(),
                },
            ),
        }
    }

    /// Consume the staged value as a 16-bit signed integer: only legal
    /// from `MapValue` holding a matching tag; no coercion between
    /// numeric kinds.
    pub fn consume_i16(&mut self) -> (r: Result<i16, StructPathError>)
        ensures
            final(self).spec_map() == old(self).spec_map(),
            old(self).spec_state() matches DeserializerStateView::MapValue(w) ==> {
                &&& (w matches SegmentValueView::I16(v) ==> r == Ok::<i16, StructPathError>(v)
                    && final(self).spec_state() is InMap)
                &&& !(w is I16) ==> {
                    &&& final(self).spec_state() == old(self).spec_state()
                    &&& r matches Err(e) && e@ == StructPathErrorView::ExpectedType("i16"@, w)
                }
            },
            !(old(self).spec_state() is MapValue) ==> {
                &&& final(self).spec_state() == old(self).spec_state()
                &&& r matches Err(e) && e@ == invalid_de_state("MapValue"@, old(self).spec_state())
            },
    {
        match &self.state {
            DeserializerState::MapValue(SegmentValue::I16(v)) => {
                let value = *v;
                self.state = DeserializerState::InMap;
                Ok(value)
            },
            DeserializerState::MapValue(other) => Err(
                StructPathError::ExpectedType(String::from_str("i16"), other.clone()),
            ),
            _ => Err(
                StructPathError::InvalidDeserializerState {
                    expected: String::from_str("MapValue"),
                    got: self.state.clone(),
                },
            ),
        }
    }

    /// Consume the staged value as a 32-bit signed integer: only legal
    /// from `MapValue` holding a matching tag; no coercion between
    /// numeric kinds.
    pub fn consume_i32(&mut self) -> (r: Result<i32, StructPathError>)
        ensures
            final(self).spec_map() == old(self).spec_map(),
            old(self).spec_state() matches DeserializerStateView::MapValue(w) ==> {
                &&& (w matches SegmentValueView::I32(v) ==> r == Ok::<i32, StructPathError>(v)
                    && final(self).spec_state() is InMap)
                &&& !(w is I32) ==> {
                    &&& final(self).spec_state() == old(self).spec_state()
                    &&& r matches Err(e) && e@ == StructPathErrorView::ExpectedType("i32"@, w)
                }
            },
            !(old(self).spec_state() is MapValue) ==> {
                &&& final(self).spec_state() == old(self).spec_state()
                &&& r matches Err(e) && e@ == invalid_de_state("MapValue"@, old(self).spec_state())
            },
    {
        match &self.state {
            DeserializerState::MapValue(SegmentValue::I32(v)) => {
                let value = *v;
                self.state = DeserializerState::InMap;
                Ok(value)
            },
            DeserializerState::MapValue(other) => Err(
                StructPathError::ExpectedType(String::from_str("i32"), other.clone()),
            ),
            _ => Err(
                StructPathError::InvalidDeserializerState {
                    expected: String::from_str("MapValue"),
                    got: self.state.clone(),
                },
            ),
        }
    }

    /// Consume the staged value as a 64-bit signed integer: only legal
    /// from `MapValue` holding a matching tag; no coercion between
    /// numeric kinds.
    pub fn consume_i64(&mut self) -> (r: Result<i64, StructPathError>)
        ensures
            final(self).spec_map() == old(self).spec_map(),
            old(self).spec_state() matches DeserializerStateView::MapValue(w) ==> {
                &&& (w matches SegmentValueView::I64(v) ==> r == Ok::<i64, StructPathError>(v)
                    && final(self).spec_state() is InMap)
                &&& !(w is I64) ==> {
                    &&& final(self).spec_state() == old(self).spec_state()
                    &&& r matches Err(e) && e@ == StructPathErrorView::ExpectedType("i64"@, w)
                }
            },
            !(old(self).spec_state() is MapValue) ==> {
                &&& final(self).spec_state() == old(self).spec_state()
                &&& r matches Err(e) && e@ == invalid_de_state("MapValue"@, old(self).spec_state())
            },
    {
        match &self.state {
            DeserializerState::MapValue(SegmentValue::I64(v)) => {
                let value = *v;
                self.state = DeserializerState::InMap;
                Ok(value)
            },
            DeserializerState::MapValue(other) => Err(
                StructPathError::ExpectedType(String::from_str("i64"), other.clone()),
            ),
            _ => Err(
                StructPathError::InvalidDeserializerState {
                    expected: String::from_str("MapValue"),
                    got: self.state.clone(),
                },
            ),
        }
    }

    /// Consume the staged value as a 128-bit signed integer: only legal
    /// from `MapValue` holding a matching tag; no coercion between
    /// numeric kinds.
    pub fn consume_i128(&mut self) -> (r: Result<i128, StructPathError>)
        ensures
            final(self).spec_map() == old(self).spec_map(),
            old(self).spec_state() matches DeserializerStateView::MapValue(w) ==> {
                &&& (w matches SegmentValueView::I128(v) ==> r == Ok::<i128, StructPathError>(v)
                    && final(self).spec_state() is InMap)
                &&& !(w is I128) ==> {
                    &&& final(self).spec_state() == old(self).spec_state()
                    &&& r matches Err(e) && e@ == StructPathErrorView::ExpectedType("i128"@, w)
                }
            },
            !(old(self).spec_state() is MapValue) ==> {
                &&& final(self).spec_state() == old(self).spec_state()
                &&& r matches Err(e) && e@ == invalid_de_state("MapValue"@, old(self).spec_state())
            },
    {
        match &self.state {
            DeserializerState::MapValue(SegmentValue::I128(v)) => {
                let value = *v;
                self.state = DeserializerState::InMap;
                Ok(value)
            },
            DeserializerState::MapValue(other) => Err(
                StructPathError::ExpectedType(String::from_str("i128"), other.clone()),
            ),
            _ => Err(
                StructPathError::InvalidDeserializerState {
                    expected: String::from_str("MapValue"),
                    got: self.state.clone(),
                },
            ),
        }
    }

    /// Consume the staged value as an 8-bit unsigned integer: only legal
    /// from `MapValue` holding a matching tag; no coercion between
    /// numeric kinds.
    pub fn consume_u8(&mut self) -> (r: Result<u8, StructPathError>)
        ensures
            final(self).spec_map() == old(self).spec_map(),
            old(self).spec_state() matches DeserializerStateView::MapValue(w) ==> {
                &&& (w matches SegmentValueView::U8(v) ==> r == Ok::<u8, StructPathError>(v)
                    && final(self).spec_state() is InMap)
                &&& !(w is U8) ==> {
                    &&& final(self).spec_state() == old(self).spec_state()
                    &&& r matches Err(e) && e@ == StructPathErrorView::ExpectedType("u8"@, w)
                }
            },
            !(old(self).spec_state() is MapValue) ==> {
                &&& final(self).spec_state() == old(self).spec_state()
                &&& r matches Err(e) && e@ == invalid_de_state("MapValue"@, old(self).spec_state())
            },
    {
        match &self.state {
            DeserializerState::MapValue(SegmentValue::U8(v)) => {
                let value = *v;
                self.state = DeserializerState::InMap;
                Ok(value)
            },
            DeserializerState::MapValue(other) => Err(
                StructPathError::ExpectedType(String::from_str("u8"), other.clone()),
            ),
            _ => Err(
                StructPathError::InvalidDeserializerState {
                    expected: String::from_str("MapValue"),
                    got: self.state.clone(),
                },
            ),
        }
    }

    /// Consume the staged value as a 16-bit unsigned integer: only legal
    /// from `MapValue` holding a matching tag; no coercion between
    /// numeric kinds.
    pub fn consume_u16(&mut self) -> (r: Result<u16, StructPathError>)
        ensures
            final(self).spec_map() == old(self).spec_map(),
            old(self).spec_state() matches DeserializerStateView::MapValue(w) ==> {
                &&& (w matches SegmentValueView::U16(v) ==> r == Ok::<u16, StructPathError>(v)
                    && final(self).spec_state() is InMap)
                &&& !(w is U16) ==> {
                    &&& final(self).spec_state() == old(self).spec_state()
                    &&& r matches Err(e) && e@ == StructPathErrorView::ExpectedType("u16"@, w)
                }
            },
            !(old(self).spec_state() is MapValue) ==> {
                &&& final(self).spec_state() == old(self).spec_state()
                &&& r matches Err(e) && e@ == invalid_de_state("MapValue"@, old(self).spec_state())
            },
    {
        match &self.state {
            DeserializerState::MapValue(SegmentValue::U16(v)) => {
                let value = *v;
                self.state = DeserializerState::InMap;
                Ok(value)
            },
            DeserializerState::MapValue(other) => Err(
                StructPathError::ExpectedType(String::from_str("u16"), other.clone()),
            ),
            _ => Err(
                StructPathError::InvalidDeserializerState {
                    expected: String::from_str("MapValue"),
                    got: self.state.clone(),
                },
            ),
        }
    }

    /// Consume the staged value as a 32-bit unsigned integer: only legal
    /// from `MapValue` holding a matching tag; no coercion between
    /// numeric kinds.
    pub fn consume_u32(&mut self) -> (r: Result<u32, StructPathError>)
        ensures
            final(self).spec_map() == old(self).spec_map(),
            old(self).spec_state() matches DeserializerStateView::MapValue(w) ==> {
                &&& (w matches SegmentValueView::U32(v) ==> r == Ok::<u32, StructPathError>(v)
                    && final(self).spec_state() is InMap)
                &&& !(w is U32) ==> {
                    &&& final(self).spec_state() == old(self).spec_state()
                    &&& r matches Err(e) && e@ == StructPathErrorView::ExpectedType("u32"@, w)
                }
            },
            !(old(self).spec_state() is MapValue) ==> {
                &&& final(self).spec_state() == old(self).spec_state()
                &&& r matches Err(e) && e@ == invalid_de_state("MapValue"@, old(self).spec_state())
            },
    {
        match &self.state {
            DeserializerState::MapValue(SegmentValue::U32(v)) => {
                let value = *v;
                self.state = DeserializerState::InMap;
                Ok(value)
            },
            DeserializerState::MapValue(other) => Err(
                StructPathError::ExpectedType(String::from_str("u32"), other.clone()),
            ),
            _ => Err(
                StructPathError::InvalidDeserializerState {
                    expected: String::from_str("MapValue"),
                    got: self.state.clone(),
                },
            ),
        }
    }

    /// Consume the staged value as a 64-bit unsigned integer: only legal
    /// from `MapValue` holding a matching tag; no coercion between
    /// numeric kinds.
    pub fn consume_u64(&mut self) -> (r: Result<u64, StructPathError>)
        ensures
            final(self).spec_map() == old(self).spec_map(),
            old(self).spec_state() matches DeserializerStateView::MapValue(w) ==> {
                &&& (w matches SegmentValueView::U64(v) ==> r == Ok::<u64, StructPathError>(v)
                    && final(self).spec_state() is InMap)
                &&& !(w is U64) ==> {
                    &&& final(self).spec_state() == old(self).spec_state()
                    &&& r matches Err(e) && e@ == StructPathErrorView::ExpectedType("u64"@, w)
                }
            },
            !(old(self).spec_state() is MapValue) ==> {
                &&& final(self).spec_state() == old(self).spec_state()
                &&& r matches Err(e) && e@ == invalid_de_state("MapValue"@, old(self).spec_state())
            },
    {
        match &self.state {
            DeserializerState::MapValue(SegmentValue::U64(v)) => {
                let value = *v;
                self.state = DeserializerState::InMap;
                Ok(value)
            },
            DeserializerState::MapValue(other) => Err(
                StructPathError::ExpectedType(String::from_str("u64"), other.clone()),
            ),
            _ => Err(
                StructPathError::InvalidDeserializerState {
                    expected: String::from_str("MapValue"),
                    got: self.state.clone(),
                },
            ),
        }
    }

    /// Consume the staged value as a 128-bit unsigned integer: only legal
    /// from `MapValue` holding a matching tag; no coercion between
    /// numeric kinds.
    pub fn consume_u128(&mut self) -> (r: Result<u128, StructPathError>)
        ensures
            final(self).spec_map() == old(self).spec_map(),
            old(self).spec_state() matches DeserializerStateView::MapValue(w) ==> {
                &&& (w matches SegmentValueView::U128(v) ==> r == Ok::<u128, StructPathError>(v)
                    && final(self).spec_state() is InMap)
                &&& !(w is U128) ==> {
                    &&& final(self).spec_state() == old(self).spec_state()
                    &&& r matches Err(e) && e@ == StructPathErrorView::ExpectedType("u128"@, w)
                }
            },
            !(old(self).spec_state() is MapValue) ==> {
                &&& final(self).spec_state() == old(self).spec_state()
                &&& r matches Err(e) && e@ == invalid_de_state("MapValue"@, old(self).spec_state())
            },
    {
        match &self.state {
            DeserializerState::MapValue(SegmentValue::U128(v)) => {
                let value = *v;
                self.state = DeserializerState::InMap;
                Ok(value)
            },
            DeserializerState::MapValue(other) => Err(
                StructPathError::ExpectedType(String::from_str("u128"), other.clone()),
            ),
            _ => Err(
                StructPathError::InvalidDeserializerState {
                    expected: String::from_str("MapValue"),
                    got: self.state.clone(),
                },
            ),
        }
    }

    /// Consume the staged value as the text of a 32-bit float segment: only legal from
    /// `MapValue` holding a matching tag. The raw text is handed back for
    /// the caller to interpret.
    pub fn consume_f32_text(&mut self) -> (r: Result<String, StructPathError>)
        ensures
            final(self).spec_map() == old(self).spec_map(),
            old(self).spec_state() matches DeserializerStateView::MapValue(w) ==> {
                &&& (w matches SegmentValueView::F32(v) ==> (r matches Ok(s) && s@ == v)
                    && final(self).spec_state() is InMap)
                &&& !(w is F32) ==> {
                    &&& final(self).spec_state() == old(self).spec_state()
                    &&& r matches Err(e) && e@ == StructPathErrorView::ExpectedType("f32"@, w)
                }
            },
            !(old(self).spec_state() is MapValue) ==> {
                &&& final(self).spec_state() == old(self).spec_state()
                &&& r matches Err(e) && e@ == invalid_de_state("MapValue"@, old(self).spec_state())
            },
    {
        match &self.state {
            DeserializerState::MapValue(SegmentValue::F32(v)) => {
                let value = v.clone();
                self.state = DeserializerState::InMap;
                Ok(value)
            },
            DeserializerState::MapValue(other) => Err(
                StructPathError::ExpectedType(String::from_str("f32"), other.clone()),
            ),
            _ => Err(
                StructPathError::InvalidDeserializerState {
                    expected: String::from_str("MapValue"),
                    got: self.state.clone(),
                },
            ),
        }
    }

    /// Consume the staged value as the text of a 64-bit float segment: only legal from
    /// `MapValue` holding a matching tag. The raw text is handed back for
    /// the caller to interpret.
    pub fn consume_f64_text(&mut self) -> (r: Result<String, StructPathError>)
        ensures
            final(self).spec_map() == old(self).spec_map(),
            old(self).spec_state() matches DeserializerStateView::MapValue(w) ==> {
                &&& (w matches SegmentValueView::F64(v) ==> (r matches Ok(s) && s@ == v)
                    && final(self).spec_state() is InMap)
                &&& !(w is F64) ==> {
                    &&& final(self).spec_state() == old(self).spec_state()
                    &&& r matches Err(e) && e@ == StructPathErrorView::ExpectedType("f64"@, w)
                }
            },
            !(old(self).spec_state() is MapValue) ==> {
                &&& final(self).spec_state() == old(self).spec_state()
                &&& r matches Err(e) && e@ == invalid_de_state("MapValue"@, old(self).spec_state())
            },
    {
        match &self.state {
            DeserializerState::MapValue(SegmentValue::F64(v)) => {
                let value = v.clone();
                self.state = DeserializerState::InMap;
                Ok(value)
            },
            DeserializerState::MapValue(other) => Err(
                StructPathError::ExpectedType(String::from_str("f64"), other.clone()),
            ),
            _ => Err(
                StructPathError::InvalidDeserializerState {
                    expected: String::from_str("MapValue"),
                    got: self.state.clone(),
                },
            ),
        }
    }

    /// Consume the staged value as text: only legal from
    /// `MapValue` holding a matching tag. The raw text is handed back for
    /// the caller to interpret.
    pub fn consume_string(&mut self) -> (r: Result<String, StructPathError>)
        ensures
            final(self).spec_map() == old(self).spec_map(),
            old(self).spec_state() matches DeserializerStateView::MapValue(w) ==> {
                &&& (w matches SegmentValueView::String(v) ==> (r matches Ok(s) && s@ == v)
                    && final(self).spec_state() is InMap)
                &&& !(w is String) ==> {
                    &&& final(self).spec_state() == old(self).spec_state()
                    &&& r matches Err(e) && e@ == StructPathErrorView::ExpectedType("String"@, w)
                }
            },
            !(old(self).spec_state() is MapValue) ==> {
                &&& final(self).spec_state() == old(self).spec_state()
                &&& r matches Err(e) && e@ == invalid_de_state("MapValue"@, old(self).spec_state())
            },
    {
        match &self.state {
            DeserializerState::MapValue(SegmentValue::String(v)) => {
                let value = v.clone();
                self.state = DeserializerState::InMap;
                Ok(value)
            },
            DeserializerState::MapValue(other) => Err(
                StructPathError::ExpectedType(String::from_str("String"), other.clone()),
            ),
            _ => Err(
                StructPathError::InvalidDeserializerState {
                    expected: String::from_str("MapValue"),
                    got: self.state.clone(),
                },
            ),
        }
    }
}

} // verus!
