//! End-to-end use through serde's field-enumeration protocol:
//! hand-written record impls drive the library's bridge state machines
//! exactly as a reflection-derived record would.

use serde::de::Visitor;
use std::fmt::Display;
use structpath::Schema;
use structpath::SegmentType;
use structpath::StructPathError;

/// Error type for the serde adapters in this test: the library's error,
/// or a float parse failure or message that only this layer produces.
#[derive(Debug)]
enum BridgeError {
    Lib(StructPathError),
    Float(String),
    Message(String),
}

fn not_supported(shape: String) -> BridgeError {
    BridgeError::Lib(StructPathError::NotSupported(shape))
}

impl Display for BridgeError {
    fn fmt(&self, f: &mut std::fmt::Formatter<'_>) -> std::fmt::Result {
        f.write_str(&format!("{self:?}"))
    }
}

impl std::error::Error for BridgeError {}

impl From<StructPathError> for BridgeError {
    fn from(e: StructPathError) -> Self {
        BridgeError::Lib(e)
    }
}

impl serde::de::Error for BridgeError {
    fn custom<T>(msg: T) -> Self
    where
        T: Display,
    {
        BridgeError::Message(msg.to_string())
    }
}

impl serde::ser::Error for BridgeError {
    fn custom<T>(msg: T) -> Self
    where
        T: Display,
    {
        BridgeError::Message(msg.to_string())
    }
}

/// Adapts the library's deserialization bridge onto serde's protocol.
struct Deserializer {
    inner: structpath::Deserializer,
}

impl<'de, 'a> serde::de::Deserializer<'de> for &'a mut Deserializer {
    type Error = BridgeError;

    fn deserialize_any<V>(self, _visitor: V) -> Result<V::Value, Self::Error>
    where
        V: Visitor<'de>,
    {
        Err(not_supported("deserialize_any".to_owned()))
    }

    fn deserialize_bool<V>(self, _visitor: V) -> Result<V::Value, Self::Error>
    where
        V: Visitor<'de>,
    {
        Err(not_supported("bool".to_owned()))
    }

    fn deserialize_i8<V>(self, visitor: V) -> Result<V::Value, Self::Error>
    where
        V: Visitor<'de>,
    {
        let value = self.inner.consume_i8()?;
        visitor.visit_i8(value)
    }

    fn deserialize_i16<V>(self, visitor: V) -> Result<V::Value, Self::Error>
    where
        V: Visitor<'de>,
    {
        let value = self.inner.consume_i16()?;
        visitor.visit_i16(value)
    }

    fn deserialize_i32<V>(self, visitor: V) -> Result<V::Value, Self::Error>
    where
        V: Visitor<'de>,
    {
        let value = self.inner.consume_i32()?;
        visitor.visit_i32(value)
    }

    fn deserialize_i64<V>(self, visitor: V) -> Result<V::Value, Self::Error>
    where
        V: Visitor<'de>,
    {
        let value = self.inner.consume_i64()?;
        visitor.visit_i64(value)
    }

    fn deserialize_i128<V>(self, visitor: V) -> Result<V::Value, Self::Error>
    where
        V: Visitor<'de>,
    {
        let value = self.inner.consume_i128()?;
        visitor.visit_i128(value)
    }

    fn deserialize_u8<V>(self, visitor: V) -> Result<V::Value, Self::Error>
    where
        V: Visitor<'de>,
    {
        let value = self.inner.consume_u8()?;
        visitor.visit_u8(value)
    }

    fn deserialize_u16<V>(self, visitor: V) -> Result<V::Value, Self::Error>
    where
        V: Visitor<'de>,
    {
        let value = self.inner.consume_u16()?;
        visitor.visit_u16(value)
    }

    fn deserialize_u32<V>(self, visitor: V) -> Result<V::Value, Self::Error>
    where
        V: Visitor<'de>,
    {
        let value = self.inner.consume_u32()?;
        visitor.visit_u32(value)
    }

    fn deserialize_u64<V>(self, visitor: V) -> Result<V::Value, Self::Error>
    where
        V: Visitor<'de>,
    {
        let value = self.inner.consume_u64()?;
        visitor.visit_u64(value)
    }

    fn deserialize_u128<V>(self, visitor: V) -> Result<V::Value, Self::Error>
    where
        V: Visitor<'de>,
    {
        let value = self.inner.consume_u128()?;
        visitor.visit_u128(value)
    }

    fn deserialize_f32<V>(self, visitor: V) -> Result<V::Value, Self::Error>
    where
        V: Visitor<'de>,
    {
        let text = self.inner.consume_f32_text()?;
        let value: f32 = text
            .parse()
            .map_err(|e: std::num::ParseFloatError| BridgeError::Float(e.to_string()))?;
        visitor.visit_f32(value)
    }

    fn deserialize_f64<V>(self, visitor: V) -> Result<V::Value, Self::Error>
    where
        V: Visitor<'de>,
    {
        let text = self.inner.consume_f64_text()?;
        let value: f64 = text
            .parse()
            .map_err(|e: std::num::ParseFloatError| BridgeError::Float(e.to_string()))?;
        visitor.visit_f64(value)
    }

    fn deserialize_char<V>(self, _visitor: V) -> Result<V::Value, Self::Error>
    where
        V: Visitor<'de>,
    {
        Err(not_supported("char".to_owned()))
    }

    fn deserialize_str<V>(self, visitor: V) -> Result<V::Value, Self::Error>
    where
        V: Visitor<'de>,
    {
        self.deserialize_string(visitor)
    }

    fn deserialize_string<V>(self, visitor: V) -> Result<V::Value, Self::Error>
    where
        V: Visitor<'de>,
    {
        let value = self.inner.consume_string()?;
        visitor.visit_string(value)
    }

    fn deserialize_bytes<V>(self, _visitor: V) -> Result<V::Value, Self::Error>
    where
        V: Visitor<'de>,
    {
        Err(not_supported("bytes".to_owned()))
    }

    fn deserialize_byte_buf<V>(self, _visitor: V) -> Result<V::Value, Self::Error>
    where
        V: Visitor<'de>,
    {
        Err(not_supported("bytes_buf".to_owned()))
    }

    fn deserialize_option<V>(self, _visitor: V) -> Result<V::Value, Self::Error>
    where
        V: Visitor<'de>,
    {
        Err(not_supported("Option".to_owned()))
    }

    fn deserialize_unit<V>(self, _visitor: V) -> Result<V::Value, Self::Error>
    where
        V: Visitor<'de>,
    {
        Err(not_supported("()".to_owned()))
    }

    fn deserialize_unit_struct<V>(
        self,
        _name: &'static str,
        _visitor: V,
    ) -> Result<V::Value, Self::Error>
    where
        V: Visitor<'de>,
    {
        Err(not_supported("unit struct".to_owned()))
    }

    fn deserialize_newtype_struct<V>(
        self,
        _name: &'static str,
        _visitor: V,
    ) -> Result<V::Value, Self::Error>
    where
        V: Visitor<'de>,
    {
        Err(not_supported("newtype struct".to_owned()))
    }

    fn deserialize_seq<V>(self, _visitor: V) -> Result<V::Value, Self::Error>
    where
        V: Visitor<'de>,
    {
        Err(not_supported("sequence".to_owned()))
    }

    fn deserialize_tuple<V>(self, _len: usize, _visitor: V) -> Result<V::Value, Self::Error>
    where
        V: Visitor<'de>,
    {
        Err(not_supported("tuple".to_owned()))
    }

    fn deserialize_tuple_struct<V>(
        self,
        _name: &'static str,
        _len: usize,
        _visitor: V,
    ) -> Result<V::Value, Self::Error>
    where
        V: Visitor<'de>,
    {
        Err(not_supported("tuple struct".to_owned()))
    }

    fn deserialize_map<V>(self, visitor: V) -> Result<V::Value, Self::Error>
    where
        V: Visitor<'de>,
    {
        self.inner.begin_map()?;
        visitor.visit_map(self)
    }

    fn deserialize_struct<V>(
        self,
        _name: &'static str,
        _fields: &'static [&'static str],
        visitor: V,
    ) -> Result<V::Value, Self::Error>
    where
        V: Visitor<'de>,
    {
        self.deserialize_map(visitor)
    }

    fn deserialize_enum<V>(
        self,
        _name: &'static str,
        _variants: &'static [&'static str],
        _visitor: V,
    ) -> Result<V::Value, Self::Error>
    where
        V: Visitor<'de>,
    {
        Err(not_supported("enum".to_owned()))
    }

    fn deserialize_identifier<V>(self, visitor: V) -> Result<V::Value, Self::Error>
    where
        V: Visitor<'de>,
    {
        let key = self.inner.identifier()?;
        visitor.visit_string(key)
    }

    fn deserialize_ignored_any<V>(self, _visitor: V) -> Result<V::Value, Self::Error>
    where
        V: Visitor<'de>,
    {
        Err(not_supported("deserialize_ignored_any".to_owned()))
    }
}

impl<'de, 'a> serde::de::MapAccess<'de> for &'a mut Deserializer {
    type Error = BridgeError;

    fn next_key_seed<K>(&mut self, seed: K) -> Result<Option<K::Value>, Self::Error>
    where
        K: serde::de::DeserializeSeed<'de>,
    {
        if self.inner.next_key()? {
            seed.deserialize(&mut **self).map(Some)
        } else {
            Ok(None)
        }
    }

    fn next_value_seed<V>(&mut self, seed: V) -> Result<V::Value, Self::Error>
    where
        V: serde::de::DeserializeSeed<'de>,
    {
        self.inner.next_value()?;
        seed.deserialize(&mut **self)
    }
}

/// Parse a concrete path into a record, using a schema.
fn parse_path<'a, S, T>(path: S, schema: &Schema) -> Result<T, BridgeError>
where
    S: Into<String>,
    T: serde::Deserialize<'a>,
{
    let values = structpath::parse_path_generic(&path.into(), schema)?;
    let mut deserializer = Deserializer { inner: structpath::Deserializer::new(values) };
    T::deserialize(&mut deserializer)
}

/// Adapts the library's serialization bridge onto serde's protocol.
struct Serializer {
    inner: structpath::Serializer,
}

impl<'a> serde::ser::Serializer for &'a mut Serializer {
    type Ok = ();
    type Error = BridgeError;

    type SerializeSeq = Self;
    type SerializeTuple = Self;
    type SerializeTupleStruct = Self;
    type SerializeTupleVariant = Self;
    type SerializeMap = Self;
    type SerializeStruct = Self;
    type SerializeStructVariant = Self;

    fn serialize_bool(self, _v: bool) -> Result<(), BridgeError> {
        Err(not_supported("bool".to_owned()))
    }

    fn serialize_i8(self, v: i8) -> Result<(), BridgeError> {
        Ok(self.inner.put_i8(v)?)
    }

    fn serialize_i16(self, v: i16) -> Result<(), BridgeError> {
        Ok(self.inner.put_i16(v)?)
    }

    fn serialize_i32(self, v: i32) -> Result<(), BridgeError> {
        Ok(self.inner.put_i32(v)?)
    }

    fn serialize_i64(self, v: i64) -> Result<(), BridgeError> {
        Ok(self.inner.put_i64(v)?)
    }

    fn serialize_i128(self, v: i128) -> Result<(), BridgeError> {
        Ok(self.inner.put_i128(v)?)
    }

    fn serialize_u8(self, v: u8) -> Result<(), BridgeError> {
        Ok(self.inner.put_u8(v)?)
    }

    fn serialize_u16(self, v: u16) -> Result<(), BridgeError> {
        Ok(self.inner.put_u16(v)?)
    }

    fn serialize_u32(self, v: u32) -> Result<(), BridgeError> {
        Ok(self.inner.put_u32(v)?)
    }

    fn serialize_u64(self, v: u64) -> Result<(), BridgeError> {
        Ok(self.inner.put_u64(v)?)
    }

    fn serialize_u128(self, v: u128) -> Result<(), BridgeError> {
        Ok(self.inner.put_u128(v)?)
    }

    fn serialize_f32(self, v: f32) -> Result<(), BridgeError> {
        Ok(self.inner.put_str(&v.to_string())?)
    }

    fn serialize_f64(self, v: f64) -> Result<(), BridgeError> {
        Ok(self.inner.put_str(&v.to_string())?)
    }

    fn serialize_char(self, _v: char) -> Result<(), BridgeError> {
        Err(not_supported("char".to_owned()))
    }

    fn serialize_str(self, v: &str) -> Result<(), BridgeError> {
        Ok(self.inner.put_str(v)?)
    }

    fn serialize_bytes(self, _v: &[u8]) -> Result<(), BridgeError> {
        Err(not_supported("bytes".to_owned()))
    }

    fn serialize_none(self) -> Result<(), BridgeError> {
        Err(not_supported("None".to_owned()))
    }

    fn serialize_some<T>(self, _value: &T) -> Result<(), BridgeError>
    where
        T: ?Sized + serde::Serialize,
    {
        Err(not_supported("Some".to_owned()))
    }

    fn serialize_unit(self) -> Result<(), BridgeError> {
        Err(not_supported("unit".to_owned()))
    }

    fn serialize_unit_struct(self, _name: &'static str) -> Result<(), BridgeError> {
        Err(not_supported("unit struct".to_owned()))
    }

    fn serialize_unit_variant(
        self,
        _name: &'static str,
        _variant_index: u32,
        _variant: &'static str,
    ) -> Result<(), BridgeError> {
        Err(not_supported("unit variant".to_owned()))
    }

    fn serialize_newtype_struct<T>(
        self,
        _name: &'static str,
        _value: &T,
    ) -> Result<(), BridgeError>
    where
        T: ?Sized + serde::Serialize,
    {
        Err(not_supported("newtype struct".to_owned()))
    }

    fn serialize_newtype_variant<T>(
        self,
        _name: &'static str,
        _variant_index: u32,
        _variant: &'static str,
        _value: &T,
    ) -> Result<(), BridgeError>
    where
        T: ?Sized + serde::Serialize,
    {
        Err(not_supported("newtype variant".to_owned()))
    }

    fn serialize_seq(self, _len: Option<usize>) -> Result<Self::SerializeSeq, BridgeError> {
        Err(not_supported("sequence".to_owned()))
    }

    fn serialize_tuple(self, _len: usize) -> Result<Self::SerializeTuple, BridgeError> {
        Err(not_supported("tuple".to_owned()))
    }

    fn serialize_tuple_struct(
        self,
        _name: &'static str,
        _len: usize,
    ) -> Result<Self::SerializeTupleStruct, BridgeError> {
        Err(not_supported("tuple struct".to_owned()))
    }

    fn serialize_tuple_variant(
        self,
        _name: &'static str,
        _variant_index: u32,
        _variant: &'static str,
        _len: usize,
    ) -> Result<Self::SerializeTupleVariant, BridgeError> {
        Err(not_supported("tuple variant".to_owned()))
    }

    fn serialize_map(self, _len: Option<usize>) -> Result<Self::SerializeMap, BridgeError> {
        Err(not_supported("map".to_owned()))
    }

    fn serialize_struct(
        self,
        _name: &'static str,
        _len: usize,
    ) -> Result<Self::SerializeStruct, BridgeError> {
        self.inner.begin_struct()?;
        Ok(self)
    }

    fn serialize_struct_variant(
        self,
        _name: &'static str,
        _variant_index: u32,
        _variant: &'static str,
        _len: usize,
    ) -> Result<Self::SerializeStructVariant, BridgeError> {
        Err(not_supported("struct variant".to_owned()))
    }
}

impl<'a> serde::ser::SerializeSeq for &'a mut Serializer {
    type Ok = ();
    type Error = BridgeError;

    fn serialize_element<T>(&mut self, _value: &T) -> Result<(), BridgeError>
    where
        T: ?Sized + serde::Serialize,
    {
        Err(not_supported("sequence".to_owned()))
    }

    fn end(self) -> Result<(), BridgeError> {
        Err(not_supported("sequence".to_owned()))
    }
}

impl<'a> serde::ser::SerializeTuple for &'a mut Serializer {
    type Ok = ();
    type Error = BridgeError;

    fn serialize_element<T>(&mut self, _value: &T) -> Result<(), BridgeError>
    where
        T: ?Sized + serde::Serialize,
    {
        Err(not_supported("tuple".to_owned()))
    }

    fn end(self) -> Result<(), BridgeError> {
        Err(not_supported("tuple".to_owned()))
    }
}

impl<'a> serde::ser::SerializeTupleStruct for &'a mut Serializer {
    type Ok = ();
    type Error = BridgeError;

    fn serialize_field<T>(&mut self, _value: &T) -> Result<(), BridgeError>
    where
        T: ?Sized + serde::Serialize,
    {
        Err(not_supported("tuple struct".to_owned()))
    }

    fn end(self) -> Result<(), BridgeError> {
        Err(not_supported("tuple struct".to_owned()))
    }
}

impl<'a> serde::ser::SerializeTupleVariant for &'a mut Serializer {
    type Ok = ();
    type Error = BridgeError;

    fn serialize_field<T>(&mut self, _value: &T) -> Result<(), BridgeError>
    where
        T: ?Sized + serde::Serialize,
    {
        Err(not_supported("tuple variant".to_owned()))
    }

    fn end(self) -> Result<(), BridgeError> {
        Err(not_supported("tuple variant".to_owned()))
    }
}

impl<'a> serde::ser::SerializeMap for &'a mut Serializer {
    type Ok = ();
    type Error = BridgeError;

    fn serialize_key<T>(&mut self, _key: &T) -> Result<(), BridgeError>
    where
        T: ?Sized + serde::Serialize,
    {
        Err(not_supported("map".to_owned()))
    }

    fn serialize_value<T>(&mut self, _value: &T) -> Result<(), BridgeError>
    where
        T: ?Sized + serde::Serialize,
    {
        Err(not_supported("map".to_owned()))
    }

    fn end(self) -> Result<(), BridgeError> {
        Err(not_supported("map".to_owned()))
    }
}

impl<'a> serde::ser::SerializeStruct for &'a mut Serializer {
    type Ok = ();
    type Error = BridgeError;

    fn serialize_field<T>(&mut self, key: &'static str, value: &T) -> Result<(), BridgeError>
    where
        T: ?Sized + serde::Serialize,
    {
        self.inner.begin_field(key)?;
        value.serialize(&mut **self)?;
        Ok(())
    }

    fn end(self) -> Result<(), BridgeError> {
        self.inner.end_struct();
        Ok(())
    }
}

impl<'a> serde::ser::SerializeStructVariant for &'a mut Serializer {
    type Ok = ();
    type Error = BridgeError;

    fn serialize_field<T>(&mut self, _key: &'static str, _value: &T) -> Result<(), BridgeError>
    where
        T: ?Sized + serde::Serialize,
    {
        Err(not_supported("struct variant".to_owned()))
    }

    fn end(self) -> Result<(), BridgeError> {
        Err(not_supported("struct variant".to_owned()))
    }
}

/// Generate a path string from a record's fields, using a schema.
fn generate_path<T>(parameters: &T, schema: &Schema) -> Result<String, BridgeError>
where
    T: serde::Serialize,
{
    let mut serializer = Serializer { inner: structpath::Serializer::new() };
    parameters.serialize(&mut serializer)?;
    let rendered = serializer.inner.finish();
    Ok(structpath::generate_path_from_map(schema, &rendered)?)
}

/// A field name, read through the identifier channel as a derived record
/// implementation would read it.
struct FieldName(String);

impl<'de> serde::Deserialize<'de> for FieldName {
    fn deserialize<D>(deserializer: D) -> Result<Self, D::Error>
    where
        D: serde::Deserializer<'de>,
    {
        struct FieldNameVisitor;

        impl<'de> Visitor<'de> for FieldNameVisitor {
            type Value = FieldName;

            fn expecting(&self, f: &mut std::fmt::Formatter<'_>) -> std::fmt::Result {
                f.write_str("a field name")
            }

            fn visit_str<E>(self, v: &str) -> Result<FieldName, E> {
                Ok(FieldName(v.to_owned()))
            }

            fn visit_string<E>(self, v: String) -> Result<FieldName, E> {
                Ok(FieldName(v))
            }
        }

        deserializer.deserialize_identifier(FieldNameVisitor)
    }
}

#[derive(Debug, PartialEq)]
struct Parameters {
    foo: u64,
    bar: String,
}

impl<'de> serde::Deserialize<'de> for Parameters {
    fn deserialize<D>(deserializer: D) -> Result<Self, D::Error>
    where
        D: serde::Deserializer<'de>,
    {
        struct ParametersVisitor;

        impl<'de> Visitor<'de> for ParametersVisitor {
            type Value = Parameters;

            fn expecting(&self, f: &mut std::fmt::Formatter<'_>) -> std::fmt::Result {
                f.write_str("a record with fields foo and bar")
            }

            fn visit_map<A>(self, mut map: A) -> Result<Parameters, A::Error>
            where
                A: serde::de::MapAccess<'de>,
            {
                let mut foo: Option<u64> = None;
                let mut bar: Option<String> = None;
                while let Some(FieldName(name)) = map.next_key()? {
                    match name.as_str() {
                        "foo" => foo = Some(map.next_value()?),
                        "bar" => bar = Some(map.next_value()?),
                        other => {
                            return Err(serde::de::Error::custom(format!(
                                "unexpected field {other}"
                            )))
                        },
                    }
                }
                Ok(Parameters {
                    foo: foo.ok_or_else(|| serde::de::Error::custom("missing field foo"))?,
                    bar: bar.ok_or_else(|| serde::de::Error::custom("missing field bar"))?,
                })
            }
        }

        deserializer.deserialize_struct("Parameters", &["foo", "bar"], ParametersVisitor)
    }
}

impl serde::Serialize for Parameters {
    fn serialize<S>(&self, serializer: S) -> Result<S::Ok, S::Error>
    where
        S: serde::Serializer,
    {
        let mut st = serde::Serializer::serialize_struct(serializer, "Parameters", 2)?;
        serde::ser::SerializeStruct::serialize_field(&mut st, "foo", &self.foo)?;
        serde::ser::SerializeStruct::serialize_field(&mut st, "bar", &self.bar)?;
        serde::ser::SerializeStruct::end(st)
    }
}

#[derive(Debug, PartialEq)]
struct SignedRecord {
    foo: i128,
}

impl<'de> serde::Deserialize<'de> for SignedRecord {
    fn deserialize<D>(deserializer: D) -> Result<Self, D::Error>
    where
        D: serde::Deserializer<'de>,
    {
        struct SignedVisitor;

        impl<'de> Visitor<'de> for SignedVisitor {
            type Value = SignedRecord;

            fn expecting(&self, f: &mut std::fmt::Formatter<'_>) -> std::fmt::Result {
                f.write_str("a record with field foo")
            }

            fn visit_map<A>(self, mut map: A) -> Result<SignedRecord, A::Error>
            where
                A: serde::de::MapAccess<'de>,
            {
                let mut foo: Option<i128> = None;
                while let Some(FieldName(name)) = map.next_key()? {
                    match name.as_str() {
                        "foo" => foo = Some(map.next_value()?),
                        other => {
                            return Err(serde::de::Error::custom(format!(
                                "unexpected field {other}"
                            )))
                        },
                    }
                }
                Ok(SignedRecord {
                    foo: foo.ok_or_else(|| serde::de::Error::custom("missing field foo"))?,
                })
            }
        }

        deserializer.deserialize_struct("SignedRecord", &["foo"], SignedVisitor)
    }
}

#[derive(Debug, PartialEq)]
struct FloatRecord {
    foo: f64,
}

impl<'de> serde::Deserialize<'de> for FloatRecord {
    fn deserialize<D>(deserializer: D) -> Result<Self, D::Error>
    where
        D: serde::Deserializer<'de>,
    {
        struct FloatVisitor;

        impl<'de> Visitor<'de> for FloatVisitor {
            type Value = FloatRecord;

            fn expecting(&self, f: &mut std::fmt::Formatter<'_>) -> std::fmt::Result {
                f.write_str("a record with field foo")
            }

            fn visit_map<A>(self, mut map: A) -> Result<FloatRecord, A::Error>
            where
                A: serde::de::MapAccess<'de>,
            {
                let mut foo: Option<f64> = None;
                while let Some(FieldName(name)) = map.next_key()? {
                    match name.as_str() {
                        "foo" => foo = Some(map.next_value()?),
                        other => {
                            return Err(serde::de::Error::custom(format!(
                                "unexpected field {other}"
                            )))
                        },
                    }
                }
                Ok(FloatRecord {
                    foo: foo.ok_or_else(|| serde::de::Error::custom("missing field foo"))?,
                })
            }
        }

        deserializer.deserialize_struct("FloatRecord", &["foo"], FloatVisitor)
    }
}

#[derive(Debug, PartialEq)]
struct OptionalRecord {
    foo: Option<u64>,
}

impl<'de> serde::Deserialize<'de> for OptionalRecord {
    fn deserialize<D>(deserializer: D) -> Result<Self, D::Error>
    where
        D: serde::Deserializer<'de>,
    {
        struct OptionalVisitor;

        impl<'de> Visitor<'de> for OptionalVisitor {
            type Value = OptionalRecord;

            fn expecting(&self, f: &mut std::fmt::Formatter<'_>) -> std::fmt::Result {
                f.write_str("a record with field foo")
            }

            fn visit_map<A>(self, mut map: A) -> Result<OptionalRecord, A::Error>
            where
                A: serde::de::MapAccess<'de>,
            {
                let mut foo: Option<Option<u64>> = None;
                while let Some(FieldName(name)) = map.next_key()? {
                    match name.as_str() {
                        "foo" => foo = Some(map.next_value()?),
                        other => {
                            return Err(serde::de::Error::custom(format!(
                                "unexpected field {other}"
                            )))
                        },
                    }
                }
                Ok(OptionalRecord { foo: foo.unwrap_or(None) })
            }
        }

        deserializer.deserialize_struct("OptionalRecord", &["foo"], OptionalVisitor)
    }
}

impl serde::Serialize for OptionalRecord {
    fn serialize<S>(&self, serializer: S) -> Result<S::Ok, S::Error>
    where
        S: serde::Serializer,
    {
        let mut st = serde::Serializer::serialize_struct(serializer, "OptionalRecord", 1)?;
        serde::ser::SerializeStruct::serialize_field(&mut st, "foo", &self.foo)?;
        serde::ser::SerializeStruct::end(st)
    }
}

fn foo_bar_schema() -> Schema {
    Schema::new()
        .literal("foo")
        .value("foo", SegmentType::U64)
        .literal("bar")
        .value("bar", SegmentType::String)
}

#[test]
fn test_parse_path_basic() {
    let value: Parameters = parse_path("/foo/1/bar/thing".to_owned(), &foo_bar_schema()).unwrap();
    assert_eq!(value, Parameters { foo: 1, bar: "thing".to_owned() });
}

#[test]
fn test_parse_path_i64() {
    let schema = Schema::new().literal("foo").value("foo", SegmentType::I128);
    let value: SignedRecord = parse_path("/foo/-1".to_owned(), &schema).unwrap();
    assert_eq!(value, SignedRecord { foo: -1 });
}

#[test]
fn test_parse_path_f64() {
    let schema = Schema::new().literal("foo").value("foo", SegmentType::F64);
    let value: FloatRecord = parse_path("/foo/1.2".to_owned(), &schema).unwrap();
    assert_eq!(value, FloatRecord { foo: 1.2 });
}

#[test]
fn test_parse_path_idiomatic() {
    let path_schema = Schema::path("/foo/<foo:u64>/bar/<bar>").unwrap();
    let parameters: Parameters = parse_path("/foo/1/bar/thing", &path_schema).unwrap();
    assert_eq!(parameters, Parameters { foo: 1, bar: "thing".to_owned() });
}

#[test]
fn test_generate_path() {
    let schema = Schema::path("/foo/<foo:u64>/bar/<bar>").unwrap();
    let path =
        generate_path(&Parameters { foo: 1, bar: "thing".to_owned() }, &schema).unwrap();
    assert_eq!(path, "/foo/1/bar/thing");
}

#[test]
fn test_roundtrip() {
    let test_path = "/foo/1/bar/thing";
    let path_schema = Schema::path("/foo/<foo:u64>/bar/<bar>").unwrap();
    let parameters: Parameters = parse_path(test_path, &path_schema).unwrap();
    assert_eq!(parameters, Parameters { foo: 1, bar: "thing".to_owned() });
    assert_eq!(generate_path(&parameters, &path_schema).unwrap(), test_path);
}

#[test]
fn test_float_parse_error_surfaces() {
    let schema = Schema::new().literal("foo").value("foo", SegmentType::F64);
    let err = parse_path::<_, FloatRecord>("/foo/abc".to_owned(), &schema).unwrap_err();
    assert!(matches!(
        err,
        BridgeError::Lib(StructPathError::ParseFloatError(ref m)) if m == "invalid float literal"
    ));
}

#[test]
fn test_unsupported_shape_on_deserialize() {
    let schema = Schema::new().literal("foo").value("foo", SegmentType::U64);
    let err = parse_path::<_, OptionalRecord>("/foo/1".to_owned(), &schema).unwrap_err();
    assert!(matches!(
        err,
        BridgeError::Lib(StructPathError::NotSupported(ref s)) if s == "Option"
    ));
}

#[test]
fn test_unsupported_shape_on_serialize() {
    let schema = Schema::new().literal("foo").value("foo", SegmentType::U64);
    let err = generate_path(&OptionalRecord { foo: Some(1) }, &schema).unwrap_err();
    assert!(matches!(
        err,
        BridgeError::Lib(StructPathError::NotSupported(ref s)) if s == "Some"
    ));
}
