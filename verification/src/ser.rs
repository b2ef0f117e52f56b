//! The structural serialization bridge: the mirror state machine that walks
//! an arbitrary source record's fields via the same generic protocol,
//! collects each field's rendered text into a name-to-string map, and
//! re-assembles the map into a path string in schema order.

use vstd::prelude::*;
use crate::errors::StructPathError;
use crate::errors::StructPathErrorView;
use crate::field_map::FieldMap;
use crate::numbers::dec_digits;
use crate::numbers::dec_int;
use crate::numbers::render_i128;
use crate::numbers::render_u128;
use crate::schema::Schema;
use crate::schema::SegmentSchema;
use crate::schema::SegmentSchemaView;

verus! {

/// The serialization bridge's sequencing state.
///
/// Legal transitions: `Start` (expecting a record) to `StructKey` (about to
/// receive the next field name) to `StructValue` (holding that name,
/// expecting its rendered value) back to `StructKey`, and `End` once the
/// record is closed.
#[derive(Debug)]
pub enum SerializerState {
    Start,
    StructKey,
    StructValue(String),
    End,
}

/// The mathematical model of a [`SerializerState`].
pub enum SerializerStateView {
    Start,
    StructKey,
    StructValue(Seq<char>),
    End,
}

impl View for SerializerState {
    type V = SerializerStateView;

    open spec fn view(&self) -> SerializerStateView {
        match self {
            SerializerState::Start => SerializerStateView::Start,
            SerializerState::StructKey => SerializerStateView::StructKey,
            SerializerState::StructValue(k) => SerializerStateView::StructValue(k@),
            SerializerState::End => SerializerStateView::End,
        }
    }
}

impl Clone for SerializerState {
    fn clone(&self) -> (res: Self)
        ensures
            res == *self,
    {
        match self {
            SerializerState::Start => SerializerState::Start,
            SerializerState::StructKey => SerializerState::StructKey,
            SerializerState::StructValue(k) => SerializerState::StructValue(k.clone()),
            SerializerState::End => SerializerState::End,
        }
    }
}

/// The error raised when the bridge is driven from the wrong state.
pub open spec fn invalid_ser_state(expected: Seq<char>, got: SerializerStateView) -> StructPathErrorView {
    StructPathErrorView::InvalidSerializerState { expected: expected, got: got }
}

/// The serialization bridge: receives a record's fields one at a time, in
/// the order the record's own field enumeration yields them, and collects
/// each field's canonical text into a name-to-string map.
pub struct Serializer {
    values: FieldMap<String>,
    state: SerializerState,
}

impl Serializer {
    /// The rendered fields collected so far.
    pub closed spec fn spec_map(&self) -> Map<Seq<char>, Seq<char>> {
        self.values@
    }

    /// The sequencing state.
    pub closed spec fn spec_state(&self) -> SerializerStateView {
        self.state@
    }

    /// Start the bridge with no fields collected.
    pub fn new() -> (r: Self)
        ensures
            r.spec_state() is Start,
            r.spec_map() == Map::<Seq<char>, Seq<char>>::empty(),
    {
        Serializer { values: FieldMap::new(), state: SerializerState::Start }
    }

    /// Enter the record: only legal from `Start`.
    pub fn begin_struct(&mut self) -> (r: Result<(), StructPathError>)
        ensures
            final(self).spec_map() == old(self).spec_map(),
            old(self).spec_state() is Start ==> r is Ok && final(self).spec_state() is StructKey,
            !(old(self).spec_state() is Start) ==> {
                &&& final(self).spec_state() == old(self).spec_state()
                &&& r matches Err(e) && e@ == invalid_ser_state("Start"@, old(self).spec_state())
            },
    {
        match &self.state {
            SerializerState::Start => {
                self.state = SerializerState::StructKey;
                Ok(())
            },
            _ => Err(
                StructPathError::InvalidSerializerState {
                    expected: String::from_str("Start"),
                    got: self.state.clone(),
                },
            ),
        }
    }

    /// Receive the next field's name: only legal from `StructKey`.
    pub fn begin_field(&mut self, key: &str) -> (r: Result<(), StructPathError>)
        ensures
            final(self).spec_map() == old(self).spec_map(),
            old(self).spec_state() is StructKey ==> r is Ok && final(self).spec_state()
                == SerializerStateView::StructValue(key@),
            !(old(self).spec_state() is StructKey) ==> {
                &&& final(self).spec_state() == old(self).spec_state()
                &&& r matches Err(e) && e@ == invalid_ser_state(
                    "StructKey"@,
                    old(self).spec_state(),
                )
            },
    {
        match &self.state {
            SerializerState::StructKey => {
                self.state = SerializerState::StructValue(key.to_owned());
                Ok(())
            },
            _ => Err(
                StructPathError::InvalidSerializerState {
                    expected: String::from_str("StructKey"),
                    got: self.state.clone(),
                },
            ),
        }
    }

    /// Receive the pending field's text verbatim: only legal from
    /// `StructValue`. Text fields are copied with no escaping, and a
    /// caller that renders its own value hands the result in here.
    pub fn put_str(&mut self, v: &str) -> (r: Result<(), StructPathError>)
        ensures
            old(self).spec_state() matches SerializerStateView::StructValue(k) ==> {
                &&& r is Ok
                &&& final(self).spec_state() is StructKey
                &&& final(self).spec_map() == old(self).spec_map().insert(k, v@)
            },
            !(old(self).spec_state() is StructValue) ==> {
                &&& final(self).spec_state() == old(self).spec_state()
                &&& final(self).spec_map() == old(self).spec_map()
                &&& r matches Err(e) && e@ == invalid_ser_state(
                    "StructValue"@,
                    old(self).spec_state(),
                )
            },
    {
        match &self.state {
            SerializerState::StructValue(key) => {
                let k = key.clone();
                self.values.insert(k, v.to_owned());
                self.state = SerializerState::StructKey;
                Ok(())
            },
            _ => Err(
                StructPathError::InvalidSerializerState {
                    expected: String::from_str("StructValue"),
                    got: self.state.clone(),
                },
            ),
        }
    }

    /// Receive the pending field's value as an 8-bit signed integer,
    /// rendered in canonical decimal form: only legal from `StructValue`.
    pub fn put_i8(&mut self, v: i8) -> (r: Result<(), StructPathError>)
        ensures
            old(self).spec_state() matches SerializerStateView::StructValue(k) ==> {
                &&& r is Ok
                &&& final(self).spec_state() is StructKey
                &&& final(self).spec_map() == old(self).spec_map().insert(k, dec_int(v as int))
            },
            !(old(self).spec_state() is StructValue) ==> {
                &&& final(self).spec_state() == old(self).spec_state()
                &&& final(self).spec_map() == old(self).spec_map()
                &&& r matches Err(e) && e@ == invalid_ser_state(
                    "StructValue"@,
                    old(self).spec_state(),
                )
            },
    {
        match &self.state {
            SerializerState::StructValue(key) => {
                let k = key.clone();
                let rendered = render_i128(v as i128);
                self.values.insert(k, rendered);
                self.state = SerializerState::StructKey;
                Ok(())
            },
            _ => Err(
                StructPathError::InvalidSerializerState {
                    expected: String::from_str("StructValue"),
                    got: self.state.clone(),
                },
            ),
        }
    }

    /// Receive the pending field's value as a 16-bit signed integer,
    /// rendered in canonical decimal form: only legal from `StructValue`.
    pub fn put_i16(&mut self, v: i16) -> (r: Result<(), StructPathError>)
        ensures
            old(self).spec_state() matches SerializerStateView::StructValue(k) ==> {
                &&& r is Ok
                &&& final(self).spec_state() is StructKey
                &&& final(self).spec_map() == old(self).spec_map().insert(k, dec_int(v as int))
            },
            !(old(self).spec_state() is StructValue) ==> {
                &&& final(self).spec_state() == old(self).spec_state()
                &&& final(self).spec_map() == old(self).spec_map()
                &&& r matches Err(e) && e@ == invalid_ser_state(
                    "StructValue"@,
                    old(self).spec_state(),
                )
            },
    {
        match &self.state {
            SerializerState::StructValue(key) => {
                let k = key.clone();
                let rendered = render_i128(v as i128);
                self.values.insert(k, rendered);
                self.state = SerializerState::StructKey;
                Ok(())
            },
            _ => Err(
                StructPathError::InvalidSerializerState {
                    expected: String::from_str("StructValue"),
                    got: self.state.clone(),
                },
            ),
        }
    }

    /// Receive the pending field's value as a 32-bit signed integer,
    /// rendered in canonical decimal form: only legal from `StructValue`.
    pub fn put_i32(&mut self, v: i32) -> (r: Result<(), StructPathError>)
        ensures
            old(self).spec_state() matches SerializerStateView::StructValue(k) ==> {
                &&& r is Ok
                &&& final(self).spec_state() is StructKey
                &&& final(self).spec_map() == old(self).spec_map().insert(k, dec_int(v as int))
            },
            !(old(self).spec_state() is StructValue) ==> {
                &&& final(self).spec_state() == old(self).spec_state()
                &&& final(self).spec_map() == old(self).spec_map()
                &&& r matches Err(e) && e@ == invalid_ser_state(
                    "StructValue"@,
                    old(self).spec_state(),
                )
            },
    {
        match &self.state {
            SerializerState::StructValue(key) => {
                let k = key.clone();
                let rendered = render_i128(v as i128);
                self.values.insert(k, rendered);
                self.state = SerializerState::StructKey;
                Ok(())
            },
            _ => Err(
                StructPathError::InvalidSerializerState {
                    expected: String::from_str("StructValue"),
                    got: self.state.clone(),
                },
            ),
        }
    }

    /// Receive the pending field's value as a 64-bit signed integer,
    /// rendered in canonical decimal form: only legal from `StructValue`.
    pub fn put_i64(&mut self, v: i64) -> (r: Result<(), StructPathError>)
        ensures
            old(self).spec_state() matches SerializerStateView::StructValue(k) ==> {
                &&& r is Ok
                &&& final(self).spec_state() is StructKey
                &&& final(self).spec_map() == old(self).spec_map().insert(k, dec_int(v as int))
            },
            !(old(self).spec_state() is StructValue) ==> {
                &&& final(self).spec_state() == old(self).spec_state()
                &&& final(self).spec_map() == old(self).spec_map()
                &&& r matches Err(e) && e@ == invalid_ser_state(
                    "StructValue"@,
                    old(self).spec_state(),
                )
            },
    {
        match &self.state {
            SerializerState::StructValue(key) => {
                let k = key.clone();
                let rendered = render_i128(v as i128);
                self.values.insert(k, rendered);
                self.state = SerializerState::StructKey;
                Ok(())
            },
            _ => Err(
                StructPathError::InvalidSerializerState {
                    expected: String::from_str("StructValue"),
                    got: self.state.clone(),
                },
            ),
        }
    }

    /// Receive the pending field's value as a 128-bit signed integer,
    /// rendered in canonical decimal form: only legal from `StructValue`.
    pub fn put_i128(&mut self, v: i128) -> (r: Result<(), StructPathError>)
        ensures
            old(self).spec_state() matches SerializerStateView::StructValue(k) ==> {
                &&& r is Ok
                &&& final(self).spec_state() is StructKey
                &&& final(self).spec_map() == old(self).spec_map().insert(k, dec_int(v as int))
            },
            !(old(self).spec_state() is StructValue) ==> {
                &&& final(self).spec_state() == old(self).spec_state()
                &&& final(self).spec_map() == old(self).spec_map()
                &&& r matches Err(e) && e@ == invalid_ser_state(
                    "StructValue"@,
                    old(self).spec_state(),
                )
            },
    {
        match &self.state {
            SerializerState::StructValue(key) => {
                let k = key.clone();
                let rendered = render_i128(v);
                self.values.insert(k, rendered);
                self.state = SerializerState::StructKey;
                Ok(())
            },
            _ => Err(
                StructPathError::InvalidSerializerState {
                    expected: String::from_str("StructValue"),
                    got: self.state.clone(),
                },
            ),
        }
    }

    /// Receive the pending field's value as an 8-bit unsigned integer,
    /// rendered in canonical decimal form: only legal from `StructValue`.
    pub fn put_u8(&mut self, v: u8) -> (r: Result<(), StructPathError>)
        ensures
            old(self).spec_state() matches SerializerStateView::StructValue(k) ==> {
                &&& r is Ok
                &&& final(self).spec_state() is StructKey
                &&& final(self).spec_map() == old(self).spec_map().insert(k, dec_digits(v as nat))
            },
            !(old(self).spec_state() is StructValue) ==> {
                &&& final(self).spec_state() == old(self).spec_state()
                &&& final(self).spec_map() == old(self).spec_map()
                &&& r matches Err(e) && e@ == invalid_ser_state(
                    "StructValue"@,
                    old(self).spec_state(),
                )
            },
    {
        match &self.state {
            SerializerState::StructValue(key) => {
                let k = key.clone();
                let rendered = render_u128(v as u128);
                self.values.insert(k, rendered);
                self.state = SerializerState::StructKey;
                Ok(())
            },
            _ => Err(
                StructPathError::InvalidSerializerState {
                    expected: String::from_str("StructValue"),
                    got: self.state.clone(),
                },
            ),
        }
    }

    /// Receive the pending field's value as a 16-bit unsigned integer,
    /// rendered in canonical decimal form: only legal from `StructValue`.
    pub fn put_u16(&mut self, v: u16) -> (r: Result<(), StructPathError>)
        ensures
            old(self).spec_state() matches SerializerStateView::StructValue(k) ==> {
                &&& r is Ok
                &&& final(self).spec_state() is StructKey
                &&& final(self).spec_map() == old(self).spec_map().insert(k, dec_digits(v as nat))
            },
            !(old(self).spec_state() is StructValue) ==> {
                &&& final(self).spec_state() == old(self).spec_state()
                &&& final(self).spec_map() == old(self).spec_map()
                &&& r matches Err(e) && e@ == invalid_ser_state(
                    "StructValue"@,
                    old(self).spec_state(),
                )
            },
    {
        match &self.state {
            SerializerState::StructValue(key) => {
                let k = key.clone();
                let rendered = render_u128(v as u128);
                self.values.insert(k, rendered);
                self.state = SerializerState::StructKey;
                Ok(())
            },
            _ => Err(
                StructPathError::InvalidSerializerState {
                    expected: String::from_str("StructValue"),
                    got: self.state.clone(),
                },
            ),
        }
    }

    /// Receive the pending field's value as a 32-bit unsigned integer,
    /// rendered in canonical decimal form: only legal from `StructValue`.
    pub fn put_u32(&mut self, v: u32) -> (r: Result<(), StructPathError>)
        ensures
            old(self).spec_state() matches SerializerStateView::StructValue(k) ==> {
                &&& r is Ok
                &&& final(self).spec_state() is StructKey
                &&& final(self).spec_map() == old(self).spec_map().insert(k, dec_digits(v as nat))
            },
            !(old(self).spec_state() is StructValue) ==> {
                &&& final(self).spec_state() == old(self).spec_state()
                &&& final(self).spec_map() == old(self).spec_map()
                &&& r matches Err(e) && e@ == invalid_ser_state(
                    "StructValue"@,
                    old(self).spec_state(),
                )
            },
    {
        match &self.state {
            SerializerState::StructValue(key) => {
                let k = key.clone();
                let rendered = render_u128(v as u128);
                self.values.insert(k, rendered);
                self.state = SerializerState::StructKey;
                Ok(())
            },
            _ => Err(
                StructPathError::InvalidSerializerState {
                    expected: String::from_str("StructValue"),
                    got: self.state.clone(),
                },
            ),
        }
    }

    /// Receive the pending field's value as a 64-bit unsigned integer,
    /// rendered in canonical decimal form: only legal from `StructValue`.
    pub fn put_u64(&mut self, v: u64) -> (r: Result<(), StructPathError>)
        ensures
            old(self).spec_state() matches SerializerStateView::StructValue(k) ==> {
                &&& r is Ok
                &&& final(self).spec_state() is StructKey
                &&& final(self).spec_map() == old(self).spec_map().insert(k, dec_digits(v as nat))
            },
            !(old(self).spec_state() is StructValue) ==> {
                &&& final(self).spec_state() == old(self).spec_state()
                &&& final(self).spec_map() == old(self).spec_map()
                &&& r matches Err(e) && e@ == invalid_ser_state(
                    "StructValue"@,
                    old(self).spec_state(),
                )
            },
    {
        match &self.state {
            SerializerState::StructValue(key) => {
                let k = key.clone();
                let rendered = render_u128(v as u128);
                self.values.insert(k, rendered);
                self.state = SerializerState::StructKey;
                Ok(())
            },
            _ => Err(
                StructPathError::InvalidSerializerState {
                    expected: String::from_str("StructValue"),
                    got: self.state.clone(),
                },
            ),
        }
    }

    /// Receive the pending field's value as a 128-bit unsigned integer,
    /// rendered in canonical decimal form: only legal from `StructValue`.
    pub fn put_u128(&mut self, v: u128) -> (r: Result<(), StructPathError>)
        ensures
            old(self).spec_state() matches SerializerStateView::StructValue(k) ==> {
                &&& r is Ok
                &&& final(self).spec_state() is StructKey
                &&& final(self).spec_map() == old(self).spec_map().insert(k, dec_digits(v as nat))
            },
            !(old(self).spec_state() is StructValue) ==> {
                &&& final(self).spec_state() == old(self).spec_state()
                &&& final(self).spec_map() == old(self).spec_map()
                &&& r matches Err(e) && e@ == invalid_ser_state(
                    "StructValue"@,
                    old(self).spec_state(),
                )
            },
    {
        match &self.state {
            SerializerState::StructValue(key) => {
                let k = key.clone();
                let rendered = render_u128(v);
                self.values.insert(k, rendered);
                self.state = SerializerState::StructKey;
                Ok(())
            },
            _ => Err(
                StructPathError::InvalidSerializerState {
                    expected: String::from_str("StructValue"),
                    got: self.state.clone(),
                },
            ),
        }
    }

    /// Close the record: no further fields are accepted afterward.
    pub fn end_struct(&mut self)
        ensures
            final(self).spec_map() == old(self).spec_map(),
            final(self).spec_state() is End,
    {
        self.state = SerializerState::End;
    }

    /// Hand out the collected name-to-string map.
    pub fn finish(self) -> (r: FieldMap<String>)
        ensures
            r@ == self.spec_map(),
    {
        self.values
    }
}

/// What assembling a path from a schema and a name-to-string map yields:
/// `/literal` for each literal descriptor and `/text` for each value
/// descriptor, in order, or the first missing field.
pub open spec fn spec_assemble(
    schema: Seq<SegmentSchemaView>,
    m: Map<Seq<char>, Seq<char>>,
) -> Result<Seq<char>, StructPathErrorView>
    decreases schema.len(),
{
    if schema.len() == 0 {
        Ok(Seq::empty())
    } else {
        match spec_assemble(schema.drop_last(), m) {
            Err(e) => Err(e),
            Ok(p) => match schema.last() {
                SegmentSchemaView::Literal(lit) => Ok(p + seq!['/'] + lit),
                SegmentSchemaView::Value(vs) => {
                    if m.contains_key(vs.name) {
                        Ok(p + seq!['/'] + m[vs.name])
                    } else {
                        Err(StructPathErrorView::MissingField(vs.name))
                    }
                },
            },
        }
    }
}

/// A missing field among the first `j` descriptors decides the whole
/// assembly.
proof fn lemma_assemble_err_prefix(schema: Seq<SegmentSchemaView>, m: Map<Seq<char>, Seq<char>>, j: int)
    requires
        0 <= j <= schema.len(),
        spec_assemble(schema.take(j), m) is Err,
    ensures
        spec_assemble(schema, m) == spec_assemble(schema.take(j), m),
    decreases schema.len(),
{
    if j == schema.len() {
        assert(schema.take(j) =~= schema);
    } else {
        assert(schema.drop_last().take(j) =~= schema.take(j));
        lemma_assemble_err_prefix(schema.drop_last(), m, j);
    }
}

/// Assemble a path from a schema and a name-to-string map: walk the
/// descriptors in order, appending `/literal` for literals and `/text`
/// for value descriptors, failing on the first value descriptor whose
/// name the map does not hold.
pub fn generate_path_from_map(schema: &Schema, values: &FieldMap<String>) -> (r: Result<
    String,
    StructPathError,
>)
    ensures
        (r is Ok) == (spec_assemble(schema@, values@) is Ok),
        r matches Ok(p) ==> p@ == spec_assemble(schema@, values@)->Ok_0,
        r matches Err(e) ==> e@ == spec_assemble(schema@, values@)->Err_0,
{
    let n = schema.segments.len();
    let mut out = String::new();
    let mut k: usize = 0;
    proof {
        reveal_strlit("/");
        assert(schema@.take(0) =~= Seq::<SegmentSchemaView>::empty());
    }
    loop
        invariant
            0 <= k <= n,
            n == schema.segments@.len(),
            schema@ == schema.segments@.map_values(|s: SegmentSchema| s@),
            schema@.len() == n,
            spec_assemble(schema@.take(k as int), values@) == Ok::<_, StructPathErrorView>(out@),
        decreases n - k,
    {
        if k == n {
            proof {
                assert(schema@.take(k as int) =~= schema@);
            }
            return Ok(out);
        }
        proof {
            reveal_strlit("/");
            assert("/"@ =~= seq!['/']);
            assert(schema@.take(k as int + 1).drop_last() =~= schema@.take(k as int));
            assert(schema@.take(k as int + 1).last() == schema@[k as int]);
            assert(schema@[k as int] == schema.segments@[k as int]@);
        }
        let ghost out0 = out@;
        match &schema.segments[k] {
            SegmentSchema::Literal(lit) => {
                out.append("/");
                out.append(lit.as_str());
                proof {
                    assert(out@ =~= out0 + seq!['/'] + lit@);
                }
            },
            SegmentSchema::Value(vs) => {
                match values.get(&vs.name) {
                    Some(v) => {
                        out.append("/");
                        out.append(v.as_str());
                        proof {
                            assert(out@ =~= out0 + seq!['/'] + values@[vs.name@]);
                        }
                    },
                    None => {
                        proof {
                            assert(spec_assemble(schema@.take(k as int + 1), values@)
                                == Err::<Seq<char>, _>(
                                StructPathErrorView::MissingField(vs.name@),
                            ));
                            lemma_assemble_err_prefix(schema@, values@, k as int + 1);
                        }
                        return Err(StructPathError::MissingField(vs.name.clone()));
                    },
                }
            },
        }
        k = k + 1;
    }
}

} // verus!
