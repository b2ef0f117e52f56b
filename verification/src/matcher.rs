//! The path matcher: walk a concrete path and a schema in lockstep,
//! validating literal segments and parsing value segments into the field
//! map.
//!
//! The path is split on `/` with the first piece dropped, and the pieces
//! are zipped positionally against the schema's descriptors, stopping at
//! the shorter of the two: a path with fewer segments than the schema
//! silently omits the trailing fields, and a path with more segments than
//! the schema silently ignores the extras. Matching stops at the first
//! mismatch or parse failure, and nothing is returned on error.

use vstd::prelude::*;
use crate::errors::StructPathError;
use crate::errors::StructPathErrorView;
use crate::field_map::FieldMap;
use crate::float_text::is_float_text;
use crate::float_text::is_valid_float_text;
use crate::numbers::parse_signed_text;
use crate::numbers::parse_unsigned_text;
use crate::numbers::spec_parse_signed;
use crate::numbers::spec_parse_unsigned;
use crate::schema::Schema;
use crate::schema::SegmentSchema;
use crate::schema::SegmentSchemaView;
use crate::schema::SegmentType;
use crate::split::seq_views;
use crate::split::split_at_char;
use crate::split::split_str;
use crate::value::SegmentValue;
use crate::value::SegmentValueView;

verus! {

/// The message a malformed float segment is reported with.
pub open spec fn float_parse_message(text: Seq<char>) -> Seq<char> {
    if text.len() == 0 {
        "cannot parse float from empty string"@
    } else {
        "invalid float literal"@
    }
}

/// What parsing one value segment's text as the declared type yields.
/// Float-typed segments are validated against the standard float grammar
/// and carry their raw text; text-typed segments accept the raw text
/// unmodified.
pub open spec fn spec_parse_value(ty: SegmentType, text: Seq<char>) -> Result<
    SegmentValueView,
    StructPathErrorView,
> {
    match ty {
        SegmentType::F32 => if is_float_text(text) {
            Ok(SegmentValueView::F32(text))
        } else {
            Err(StructPathErrorView::ParseFloatError(float_parse_message(text)))
        },
        SegmentType::F64 => if is_float_text(text) {
            Ok(SegmentValueView::F64(text))
        } else {
            Err(StructPathErrorView::ParseFloatError(float_parse_message(text)))
        },
        SegmentType::I8 => match spec_parse_signed(text, i8::MIN as i128, i8::MAX as i128) {
            Ok(v) => Ok(SegmentValueView::I8(v as i8)),
            Err(e) => Err(StructPathErrorView::ParseIntError(e)),
        },
        SegmentType::I16 => match spec_parse_signed(text, i16::MIN as i128, i16::MAX as i128) {
            Ok(v) => Ok(SegmentValueView::I16(v as i16)),
            Err(e) => Err(StructPathErrorView::ParseIntError(e)),
        },
        SegmentType::I32 => match spec_parse_signed(text, i32::MIN as i128, i32::MAX as i128) {
            Ok(v) => Ok(SegmentValueView::I32(v as i32)),
            Err(e) => Err(StructPathErrorView::ParseIntError(e)),
        },
        SegmentType::I64 => match spec_parse_signed(text, i64::MIN as i128, i64::MAX as i128) {
            Ok(v) => Ok(SegmentValueView::I64(v as i64)),
            Err(e) => Err(StructPathErrorView::ParseIntError(e)),
        },
        SegmentType::I128 => match spec_parse_signed(text, i128::MIN, i128::MAX) {
            Ok(v) => Ok(SegmentValueView::I128(v)),
            Err(e) => Err(StructPathErrorView::ParseIntError(e)),
        },
        SegmentType::U8 => match spec_parse_unsigned(text, u8::MAX as u128) {
            Ok(v) => Ok(SegmentValueView::U8(v as u8)),
            Err(e) => Err(StructPathErrorView::ParseIntError(e)),
        },
        SegmentType::U16 => match spec_parse_unsigned(text, u16::MAX as u128) {
            Ok(v) => Ok(SegmentValueView::U16(v as u16)),
            Err(e) => Err(StructPathErrorView::ParseIntError(e)),
        },
        SegmentType::U32 => match spec_parse_unsigned(text, u32::MAX as u128) {
            Ok(v) => Ok(SegmentValueView::U32(v as u32)),
            Err(e) => Err(StructPathErrorView::ParseIntError(e)),
        },
        SegmentType::U64 => match spec_parse_unsigned(text, u64::MAX as u128) {
            Ok(v) => Ok(SegmentValueView::U64(v as u64)),
            Err(e) => Err(StructPathErrorView::ParseIntError(e)),
        },
        SegmentType::U128 => match spec_parse_unsigned(text, u128::MAX) {
            Ok(v) => Ok(SegmentValueView::U128(v)),
            Err(e) => Err(StructPathErrorView::ParseIntError(e)),
        },
        SegmentType::String => Ok(SegmentValueView::String(text)),
    }
}

/// The field map after matching the first `k` segment pairs, or the first
/// error among them.
pub open spec fn spec_match_upto(
    segs: Seq<Seq<char>>,
    schema: Seq<SegmentSchemaView>,
    k: int,
) -> Result<Map<Seq<char>, SegmentValueView>, StructPathErrorView>
    decreases k,
{
    if k <= 0 {
        Ok(Map::empty())
    } else {
        match spec_match_upto(segs, schema, k - 1) {
            Err(e) => Err(e),
            Ok(m) => match schema[k - 1] {
                SegmentSchemaView::Literal(lit) => {
                    if segs[k - 1] == lit {
                        Ok(m)
                    } else {
                        Err(
                            StructPathErrorView::IncorrectSegment {
                                got: segs[k - 1],
                                expected: lit,
                            },
                        )
                    }
                },
                SegmentSchemaView::Value(vs) => {
                    match spec_parse_value(vs.segment_type, segs[k - 1]) {
                        Ok(v) => Ok(m.insert(vs.name, v)),
                        Err(e) => Err(e),
                    }
                },
            },
        }
    }
}

/// The smaller of two lengths.
pub open spec fn min_len(a: int, b: int) -> int {
    if a <= b {
        a
    } else {
        b
    }
}

/// What matching a path's segments against a schema yields.
pub open spec fn spec_match(segs: Seq<Seq<char>>, schema: Seq<SegmentSchemaView>) -> Result<
    Map<Seq<char>, SegmentValueView>,
    StructPathErrorView,
> {
    spec_match_upto(segs, schema, min_len(segs.len() as int, schema.len() as int))
}

/// The segments of a path: its `/`-separated pieces after the first.
pub open spec fn path_segments(path: Seq<char>) -> Seq<Seq<char>> {
    split_at_char(path, '/').skip(1)
}

/// An error among the first `j` pairs decides the whole match.
proof fn lemma_match_err_upto(
    segs: Seq<Seq<char>>,
    schema: Seq<SegmentSchemaView>,
    j: int,
    n: int,
)
    requires
        0 <= j <= n,
        spec_match_upto(segs, schema, j) is Err,
    ensures
        spec_match_upto(segs, schema, n) == spec_match_upto(segs, schema, j),
    decreases n,
{
    if n > j {
        lemma_match_err_upto(segs, schema, j, n - 1);
    }
}

/// A malformed float segment's error, carrying the standard message.
fn float_parse_error(text: &String) -> (r: StructPathError)
    ensures
        r@ == StructPathErrorView::ParseFloatError(float_parse_message(text@)),
{
    if text.as_str().unicode_len() == 0 {
        StructPathError::ParseFloatError(
            String::from_str("cannot parse float from empty string"),
        )
    } else {
        StructPathError::ParseFloatError(String::from_str("invalid float literal"))
    }
}

/// Parse one value segment's text as the declared type.
fn parse_value_segment(ty: SegmentType, text: &String) -> (r: Result<
    SegmentValue,
    StructPathError,
>)
    ensures
        (r is Ok) == (spec_parse_value(ty, text@) is Ok),
        r matches Ok(v) ==> v@ == spec_parse_value(ty, text@)->Ok_0,
        r matches Err(e) ==> e@ == spec_parse_value(ty, text@)->Err_0,
{
    match ty {
        SegmentType::F32 => {
            if is_valid_float_text(text.as_str()) {
                Ok(SegmentValue::F32(text.clone()))
            } else {
                Err(float_parse_error(text))
            }
        },
        SegmentType::F64 => {
            if is_valid_float_text(text.as_str()) {
                Ok(SegmentValue::F64(text.clone()))
            } else {
                Err(float_parse_error(text))
            }
        },
        SegmentType::I8 => match parse_signed_text(text.as_str(), i8::MIN as i128, i8::MAX as i128) {
            Ok(v) => Ok(SegmentValue::I8(v as i8)),
            Err(e) => Err(StructPathError::ParseIntError(e)),
        },
        SegmentType::I16 => match parse_signed_text(
            text.as_str(),
            i16::MIN as i128,
            i16::MAX as i128,
        ) {
            Ok(v) => Ok(SegmentValue::I16(v as i16)),
            Err(e) => Err(StructPathError::ParseIntError(e)),
        },
        SegmentType::I32 => match parse_signed_text(
            text.as_str(),
            i32::MIN as i128,
            i32::MAX as i128,
        ) {
            Ok(v) => Ok(SegmentValue::I32(v as i32)),
            Err(e) => Err(StructPathError::ParseIntError(e)),
        },
        SegmentType::I64 => match parse_signed_text(
            text.as_str(),
            i64::MIN as i128,
            i64::MAX as i128,
        ) {
            Ok(v) => Ok(SegmentValue::I64(v as i64)),
            Err(e) => Err(StructPathError::ParseIntError(e)),
        },
        SegmentType::I128 => match parse_signed_text(text.as_str(), i128::MIN, i128::MAX) {
            Ok(v) => Ok(SegmentValue::I128(v)),
            Err(e) => Err(StructPathError::ParseIntError(e)),
        },
        SegmentType::U8 => match parse_unsigned_text(text.as_str(), u8::MAX as u128) {
            Ok(v) => Ok(SegmentValue::U8(v as u8)),
            Err(e) => Err(StructPathError::ParseIntError(e)),
        },
        SegmentType::U16 => match parse_unsigned_text(text.as_str(), u16::MAX as u128) {
            Ok(v) => Ok(SegmentValue::U16(v as u16)),
            Err(e) => Err(StructPathError::ParseIntError(e)),
        },
        SegmentType::U32 => match parse_unsigned_text(text.as_str(), u32::MAX as u128) {
            Ok(v) => Ok(SegmentValue::U32(v as u32)),
            Err(e) => Err(StructPathError::ParseIntError(e)),
        },
        SegmentType::U64 => match parse_unsigned_text(text.as_str(), u64::MAX as u128) {
            Ok(v) => Ok(SegmentValue::U64(v as u64)),
            Err(e) => Err(StructPathError::ParseIntError(e)),
        },
        SegmentType::U128 => match parse_unsigned_text(text.as_str(), u128::MAX) {
            Ok(v) => Ok(SegmentValue::U128(v)),
            Err(e) => Err(StructPathError::ParseIntError(e)),
        },
        SegmentType::String => Ok(SegmentValue::String(text.clone())),
    }
}

/// Match a concrete path against a schema, producing the field map that
/// binds each value descriptor's name to its parsed value.
pub fn parse_path_generic(path: &str, schema: &Schema) -> (r: Result<
    FieldMap<SegmentValue>,
    StructPathError,
>)
    ensures
        (r is Ok) == (spec_match(path_segments(path@), schema@) is Ok),
        r matches Ok(m) ==> m@ == spec_match(path_segments(path@), schema@)->Ok_0,
        r matches Err(e) ==> e@ == spec_match(path_segments(path@), schema@)->Err_0,
{
    let pieces = split_str(path, '/');
    let ghost segs = path_segments(path@);
    let seg_count = pieces.len() - 1;
    let pair_count = if seg_count <= schema.segments.len() {
        seg_count
    } else {
        schema.segments.len()
    };
    let ghost n = min_len(segs.len() as int, schema@.len() as int);
    proof {
        assert(segs.len() == pieces@.len() - 1);
        assert(schema@.len() == schema.segments@.len());
        assert(pair_count as int == n);
    }
    let mut path_values: FieldMap<SegmentValue> = FieldMap::new();
    let mut k: usize = 0;
    loop
        invariant
            0 <= k <= pair_count,
            pair_count as int == n,
            n == min_len(segs.len() as int, schema@.len() as int),
            segs == path_segments(path@),
            seq_views(pieces@) == split_at_char(path@, '/'),
            pieces@.len() >= 1,
            pair_count < pieces@.len(),
            pair_count <= schema.segments@.len(),
            schema@ == schema.segments@.map_values(|s: SegmentSchema| s@),
            spec_match_upto(segs, schema@, k as int) == Ok::<_, StructPathErrorView>(
                path_values@,
            ),
        decreases pair_count - k,
    {
        if k == pair_count {
            return Ok(path_values);
        }
        proof {
            assert(segs[k as int] == pieces@[k as int + 1]@);
            assert(schema@[k as int] == schema.segments@[k as int]@);
        }
        let piece = &pieces[k + 1];
        match &schema.segments[k] {
            SegmentSchema::Literal(lit) => {
                if !piece.eq(lit) {
                    proof {
                        lemma_match_err_upto(segs, schema@, k as int + 1, n);
                    }
                    return Err(
                        StructPathError::IncorrectSegment {
                            got: piece.clone(),
                            expected: lit.clone(),
                        },
                    );
                }
            },
            SegmentSchema::Value(vs) => {
                match parse_value_segment(vs.segment_type, piece) {
                    Ok(value) => {
                        path_values.insert(vs.name.clone(), value);
                    },
                    Err(e) => {
                        proof {
                            lemma_match_err_upto(segs, schema@, k as int + 1, n);
                        }
                        return Err(e);
                    },
                }
            },
        }
        k = k + 1;
    }
}

} // verus!
