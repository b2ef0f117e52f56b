//! Relations between matching and assembling: canonical rendering parses
//! back to the value it came from, and a matched path re-assembles to
//! itself when its value segments are canonically rendered.

use vstd::prelude::*;
use crate::errors::StructPathErrorView;
use crate::float_text::is_float_text;
use crate::matcher::spec_match;
use crate::matcher::spec_match_upto;
use crate::matcher::spec_parse_value;
use crate::matcher::path_segments;
use crate::numbers::dec_digits;
use crate::numbers::dec_int;
use crate::numbers::lemma_parse_of_dec_signed;
use crate::numbers::lemma_parse_of_dec_unsigned;
use crate::schema::SegmentSchemaView;
use crate::schema::SegmentType;
use crate::ser::spec_assemble;
use crate::split::join_each_prefixed;
use crate::split::lemma_join_head;
use crate::split::lemma_join_prefixed;
use crate::split::lemma_join_split;
use crate::split::lemma_split_len;
use crate::split::lemma_split_pieces_free;
use crate::split::split_at_char;
use crate::value::SegmentValueView;

verus! {

/// The canonical text of a value: decimal for the integer kinds, and the
/// carried text itself for the float and text kinds.
pub open spec fn render_value(v: SegmentValueView) -> Seq<char> {
    match v {
        SegmentValueView::F32(t) => t,
        SegmentValueView::F64(t) => t,
        SegmentValueView::I8(x) => dec_int(x as int),
        SegmentValueView::I16(x) => dec_int(x as int),
        SegmentValueView::I32(x) => dec_int(x as int),
        SegmentValueView::I64(x) => dec_int(x as int),
        SegmentValueView::I128(x) => dec_int(x as int),
        SegmentValueView::U8(x) => dec_digits(x as nat),
        SegmentValueView::U16(x) => dec_digits(x as nat),
        SegmentValueView::U32(x) => dec_digits(x as nat),
        SegmentValueView::U64(x) => dec_digits(x as nat),
        SegmentValueView::U128(x) => dec_digits(x as nat),
        SegmentValueView::String(s) => s,
    }
}

/// Whether a value carries the tag a segment type demands.
pub open spec fn value_has_type(v: SegmentValueView, ty: SegmentType) -> bool {
    match ty {
        SegmentType::F32 => v is F32,
        SegmentType::F64 => v is F64,
        SegmentType::I8 => v is I8,
        SegmentType::I16 => v is I16,
        SegmentType::I32 => v is I32,
        SegmentType::I64 => v is I64,
        SegmentType::I128 => v is I128,
        SegmentType::U8 => v is U8,
        SegmentType::U16 => v is U16,
        SegmentType::U32 => v is U32,
        SegmentType::U64 => v is U64,
        SegmentType::U128 => v is U128,
        SegmentType::String => v is String,
    }
}

/// A field map with every value rendered to its canonical text.
pub open spec fn rendered_map(m: Map<Seq<char>, SegmentValueView>) -> Map<Seq<char>, Seq<char>> {
    Map::new(|k: Seq<char>| m.dom().contains(k), |k: Seq<char>| render_value(m[k]))
}

/// The name of a value descriptor.
pub open spec fn value_name(s: SegmentSchemaView) -> Seq<char>
    recommends
        s is Value,
{
    s->Value_0.name
}

/// The declared type of a value descriptor.
pub open spec fn value_type(s: SegmentSchemaView) -> SegmentType
    recommends
        s is Value,
{
    s->Value_0.segment_type
}

/// No two value descriptors of the schema share a name.
pub open spec fn value_names_unique(schema: Seq<SegmentSchemaView>) -> bool {
    forall|i: int, j: int|
        0 <= i < j < schema.len() && (#[trigger] schema[i]) is Value && (#[trigger] schema[j])
            is Value ==> value_name(schema[i]) != value_name(schema[j])
}

/// Whether a descriptor is a value descriptor bound to `nm`.
pub open spec fn is_value_named(s: SegmentSchemaView, nm: Seq<char>) -> bool {
    s is Value && value_name(s) == nm
}

/// Each value segment's text is the canonical rendering of the value it
/// parses to.
pub open spec fn segments_canonical(segs: Seq<Seq<char>>, schema: Seq<SegmentSchemaView>) -> bool {
    forall|k: int|
        0 <= k < schema.len() && k < segs.len() && (#[trigger] schema[k]) is Value ==> segs[k]
            == render_value(spec_parse_value(value_type(schema[k]), segs[k])->Ok_0)
}

/// Whether a value's carried text, for the float kinds, conforms to the
/// float grammar; values the matcher produces always do.
pub open spec fn value_well_formed(v: SegmentValueView) -> bool {
    match v {
        SegmentValueView::F32(t) => is_float_text(t),
        SegmentValueView::F64(t) => is_float_text(t),
        _ => true,
    }
}

/// Each value's canonical text parses back to the value, under its own
/// type: rendering loses nothing.
pub proof fn lemma_parse_of_render(ty: SegmentType, v: SegmentValueView)
    requires
        value_has_type(v, ty),
        value_well_formed(v),
    ensures
        spec_parse_value(ty, render_value(v)) == Ok::<SegmentValueView, StructPathErrorView>(v),
{
    match v {
        SegmentValueView::I8(x) => {
            lemma_parse_of_dec_signed(x as i128, i8::MIN as i128, i8::MAX as i128);
        },
        SegmentValueView::I16(x) => {
            lemma_parse_of_dec_signed(x as i128, i16::MIN as i128, i16::MAX as i128);
        },
        SegmentValueView::I32(x) => {
            lemma_parse_of_dec_signed(x as i128, i32::MIN as i128, i32::MAX as i128);
        },
        SegmentValueView::I64(x) => {
            lemma_parse_of_dec_signed(x as i128, i64::MIN as i128, i64::MAX as i128);
        },
        SegmentValueView::I128(x) => {
            lemma_parse_of_dec_signed(x, i128::MIN, i128::MAX);
        },
        SegmentValueView::U8(x) => {
            lemma_parse_of_dec_unsigned(x as u128, u8::MAX as u128);
        },
        SegmentValueView::U16(x) => {
            lemma_parse_of_dec_unsigned(x as u128, u16::MAX as u128);
        },
        SegmentValueView::U32(x) => {
            lemma_parse_of_dec_unsigned(x as u128, u32::MAX as u128);
        },
        SegmentValueView::U64(x) => {
            lemma_parse_of_dec_unsigned(x as u128, u64::MAX as u128);
        },
        SegmentValueView::U128(x) => {
            lemma_parse_of_dec_unsigned(x, u128::MAX);
        },
        _ => {},
    }
}

/// Matching the first `k` pairs reads only the first `k` segments and
/// descriptors.
proof fn lemma_upto_frame(
    segs1: Seq<Seq<char>>,
    schema1: Seq<SegmentSchemaView>,
    segs2: Seq<Seq<char>>,
    schema2: Seq<SegmentSchemaView>,
    k: int,
)
    requires
        0 <= k,
        forall|i: int| 0 <= i < k ==> segs1[i] == segs2[i],
        forall|i: int| 0 <= i < k ==> schema1[i] == schema2[i],
    ensures
        spec_match_upto(segs1, schema1, k) == spec_match_upto(segs2, schema2, k),
    decreases k,
{
    if k > 0 {
        lemma_upto_frame(segs1, schema1, segs2, schema2, k - 1);
    }
}

/// Assembling reads the map only at the schema's value names.
proof fn lemma_assemble_frame(
    schema: Seq<SegmentSchemaView>,
    m1: Map<Seq<char>, Seq<char>>,
    m2: Map<Seq<char>, Seq<char>>,
)
    requires
        forall|i: int|
            0 <= i < schema.len() && (#[trigger] schema[i]) is Value ==> (m1.contains_key(
                value_name(schema[i]),
            ) <==> m2.contains_key(value_name(schema[i]))) && (m1.contains_key(
                value_name(schema[i]),
            ) ==> m1[value_name(schema[i])] == m2[value_name(schema[i])]),
    ensures
        spec_assemble(schema, m1) == spec_assemble(schema, m2),
    decreases schema.len(),
{
    if schema.len() > 0 {
        assert forall|i: int|
            0 <= i < schema.drop_last().len() && (#[trigger] schema.drop_last()[i])
                is Value implies (m1.contains_key(value_name(schema.drop_last()[i]))
            <==> m2.contains_key(value_name(schema.drop_last()[i]))) && (m1.contains_key(
            value_name(schema.drop_last()[i]),
        ) ==> m1[value_name(schema.drop_last()[i])] == m2[value_name(schema.drop_last()[i])]) by {
            assert(schema.drop_last()[i] == schema[i]);
        }
        lemma_assemble_frame(schema.drop_last(), m1, m2);
    }
}

/// The names a successful match binds are exactly those of the value
/// descriptors among the first `k` pairs.
pub proof fn lemma_match_dom(
    segs: Seq<Seq<char>>,
    schema: Seq<SegmentSchemaView>,
    k: int,
    m: Map<Seq<char>, SegmentValueView>,
)
    requires
        0 <= k <= schema.len(),
        spec_match_upto(segs, schema, k) == Ok::<_, StructPathErrorView>(m),
    ensures
        forall|nm: Seq<char>|
            #[trigger] m.dom().contains(nm) <==> exists|i: int|
                0 <= i < k && is_value_named(#[trigger] schema[i], nm),
    decreases k,
{
    if k == 0 {
        assert(m =~= Map::<Seq<char>, SegmentValueView>::empty());
    } else {
        let prev = spec_match_upto(segs, schema, k - 1);
        let m0 = prev->Ok_0;
        lemma_match_dom(segs, schema, k - 1, m0);
        assert forall|nm: Seq<char>| #[trigger] m.dom().contains(nm) implies exists|i: int|
            0 <= i < k && is_value_named(#[trigger] schema[i], nm) by {
            if m0.dom().contains(nm) {
                let i = choose|i: int| 0 <= i < k - 1 && is_value_named(#[trigger] schema[i], nm);
                assert(is_value_named(schema[i], nm));
            } else {
                assert(is_value_named(schema[k - 1], nm));
            }
        }
        assert forall|nm: Seq<char>|
            (exists|i: int| 0 <= i < k && is_value_named(#[trigger] schema[i], nm)) implies m.dom()
            .contains(nm) by {
            let i = choose|i: int| 0 <= i < k && is_value_named(#[trigger] schema[i], nm);
            if i < k - 1 {
                assert(m0.dom().contains(nm));
            }
        }
    }
}

/// A path with more segments than the schema matches exactly as the
/// truncated path does: the extras are silently ignored.
pub proof fn lemma_extra_segments_ignored(segs: Seq<Seq<char>>, schema: Seq<SegmentSchemaView>)
    requires
        segs.len() >= schema.len(),
    ensures
        spec_match(segs, schema) == spec_match(segs.take(schema.len() as int), schema),
{
    let n = schema.len() as int;
    lemma_upto_frame(segs, schema, segs.take(n), schema, n);
}

/// A path with fewer segments than the schema still matches, and the
/// resulting map holds exactly the names of the value descriptors its
/// segments reached: the trailing fields are missing, with no error.
pub proof fn lemma_shorter_path_omits_trailing(
    segs: Seq<Seq<char>>,
    schema: Seq<SegmentSchemaView>,
    m: Map<Seq<char>, SegmentValueView>,
)
    requires
        segs.len() <= schema.len(),
        spec_match(segs, schema) == Ok::<_, StructPathErrorView>(m),
    ensures
        forall|nm: Seq<char>|
            #[trigger] m.dom().contains(nm) <==> exists|i: int|
                0 <= i < segs.len() && is_value_named(#[trigger] schema[i], nm),
{
    lemma_match_dom(segs, schema, segs.len() as int, m);
}

/// Round trip, segment form: when a path's segments match a schema whose
/// value names are unique, and each value segment's text is the canonical
/// rendering of the value it parses to, then assembling the canonically
/// rendered field map reproduces the segments, each after one `/`.
pub proof fn lemma_round_trip(
    segs: Seq<Seq<char>>,
    schema: Seq<SegmentSchemaView>,
    m: Map<Seq<char>, SegmentValueView>,
)
    requires
        segs.len() == schema.len(),
        value_names_unique(schema),
        spec_match(segs, schema) == Ok::<_, StructPathErrorView>(m),
        segments_canonical(segs, schema),
    ensures
        spec_assemble(schema, rendered_map(m)) == Ok::<_, StructPathErrorView>(
            join_each_prefixed(segs, '/'),
        ),
    decreases schema.len(),
{
    let n = schema.len() as int;
    if n == 0 {
        assert(spec_assemble(schema, rendered_map(m)) == Ok::<_, StructPathErrorView>(
            Seq::<char>::empty(),
        ));
    } else {
        let segs0 = segs.drop_last();
        let schema0 = schema.drop_last();
        let prev = spec_match_upto(segs, schema, n - 1);
        assert(prev is Ok);
        let m0 = prev->Ok_0;
        lemma_upto_frame(segs, schema, segs0, schema0, n - 1);
        assert(spec_match(segs0, schema0) == Ok::<_, StructPathErrorView>(m0));
        assert forall|k: int|
            0 <= k < schema0.len() && k < segs0.len() && (#[trigger] schema0[k])
                is Value implies segs0[k] == render_value(
            spec_parse_value(value_type(schema0[k]), segs0[k])->Ok_0,
        ) by {
            assert(schema0[k] == schema[k]);
            assert(segs0[k] == segs[k]);
        }
        lemma_round_trip(segs0, schema0, m0);
        match schema[n - 1] {
            SegmentSchemaView::Literal(lit) => {
                assert(m == m0);
                assert(segs[n - 1] == lit);
                assert(spec_assemble(schema, rendered_map(m)) == Ok::<_, StructPathErrorView>(
                    join_each_prefixed(segs0, '/') + seq!['/'] + lit,
                ));
                assert(join_each_prefixed(segs, '/') == join_each_prefixed(segs0, '/')
                    + seq!['/'] + segs[n - 1]);
            },
            SegmentSchemaView::Value(vs) => {
                let v = spec_parse_value(vs.segment_type, segs[n - 1])->Ok_0;
                assert(m == m0.insert(vs.name, v));
                assert forall|i: int|
                    0 <= i < schema0.len() && (#[trigger] schema0[i]) is Value implies (
                rendered_map(m).contains_key(value_name(schema0[i])) <==> rendered_map(
                    m0,
                ).contains_key(value_name(schema0[i]))) && (rendered_map(m).contains_key(
                    value_name(schema0[i]),
                ) ==> rendered_map(m)[value_name(schema0[i])] == rendered_map(m0)[value_name(
                    schema0[i],
                )]) by {
                    assert(schema0[i] == schema[i]);
                    assert(value_name(schema[i]) != vs.name);
                }
                lemma_assemble_frame(schema0, rendered_map(m), rendered_map(m0));
                assert(rendered_map(m).contains_key(vs.name));
                assert(rendered_map(m)[vs.name] == render_value(v));
                assert(segs[n - 1] == render_value(v));
                assert(spec_assemble(schema, rendered_map(m)) == Ok::<_, StructPathErrorView>(
                    join_each_prefixed(segs0, '/') + seq!['/'] + segs[n - 1],
                ));
                assert(join_each_prefixed(segs, '/') == join_each_prefixed(segs0, '/')
                    + seq!['/'] + segs[n - 1]);
            },
        }
    }
}

/// Round trip, path form: a path that begins with `/` and matches a
/// schema of the same length with unique value names, each value segment
/// canonically rendered, re-assembles to exactly the original path.
pub proof fn lemma_round_trip_path(
    path: Seq<char>,
    schema: Seq<SegmentSchemaView>,
    m: Map<Seq<char>, SegmentValueView>,
)
    requires
        path.len() >= 1,
        path[0] == '/',
        path_segments(path).len() == schema.len(),
        value_names_unique(schema),
        spec_match(path_segments(path), schema) == Ok::<_, StructPathErrorView>(m),
        segments_canonical(path_segments(path), schema),
    ensures
        spec_assemble(schema, rendered_map(m)) == Ok::<_, StructPathErrorView>(path),
{
    let parts = split_at_char(path, '/');
    lemma_split_len(path, '/');
    lemma_join_split(path, '/');
    lemma_split_pieces_free(path, '/');
    lemma_join_head(parts, '/');
    if parts[0].len() > 0 {
        assert(parts[0][0] != '/');
        assert(false);
    }
    assert(parts[0] =~= Seq::<char>::empty());
    lemma_join_prefixed(parts, '/');
    lemma_round_trip(path_segments(path), schema, m);
}

} // verus!
