//! The schema model: an ordered sequence of segment descriptors, each a
//! literal or a named typed value, built either through the builder calls
//! or from the compact pattern DSL.
//!
//! DSL grammar: the pattern is split on `/` and the first piece dropped.
//! Each remaining piece is a bare literal unless its first character is
//! `<`; inside the brackets stands `name` or `name:typeTag`, where a
//! missing tag defaults to the text type. More than one `:` is a syntax
//! error naming the piece; an unknown tag is an unrecognized-type error
//! naming the tag.

use vstd::prelude::*;
use crate::split::seq_views;
use crate::split::split_at_char;
use crate::split::split_str;

verus! {

/// The type a value segment is parsed and rendered as.
#[derive(Clone, Copy, Debug, PartialEq, Eq, Structural)]
pub enum SegmentType {
    F32,
    F64,
    I8,
    I16,
    I32,
    I64,
    I128,
    U8,
    U16,
    U32,
    U64,
    U128,
    String,
}

/// The schema of one value segment: a field name and the declared type.
#[derive(Debug, PartialEq)]
pub struct SegmentValueSchema {
    pub name: String,
    pub segment_type: SegmentType,
}

/// The mathematical model of a [`SegmentValueSchema`].
pub struct SegmentValueSchemaView {
    pub name: Seq<char>,
    pub segment_type: SegmentType,
}

impl View for SegmentValueSchema {
    type V = SegmentValueSchemaView;

    open spec fn view(&self) -> SegmentValueSchemaView {
        SegmentValueSchemaView { name: self.name@, segment_type: self.segment_type }
    }
}

/// The schema of one path segment: an exact literal, or a value to parse.
#[derive(Debug, PartialEq)]
pub enum SegmentSchema {
    Literal(String),
    Value(SegmentValueSchema),
}

/// The mathematical model of a [`SegmentSchema`].
pub enum SegmentSchemaView {
    Literal(Seq<char>),
    Value(SegmentValueSchemaView),
}

impl View for SegmentSchema {
    type V = SegmentSchemaView;

    open spec fn view(&self) -> SegmentSchemaView {
        match self {
            SegmentSchema::Literal(s) => SegmentSchemaView::Literal(s@),
            SegmentSchema::Value(v) => SegmentSchemaView::Value(v@),
        }
    }
}

/// An ordered path template: one descriptor per `/`-delimited segment.
///
/// A schema is built once and then only read, so it is safe to share
/// across concurrent parse and generate calls.
#[derive(Debug, PartialEq)]
pub struct Schema {
    pub segments: Vec<SegmentSchema>,
}

impl View for Schema {
    type V = Seq<SegmentSchemaView>;

    open spec fn view(&self) -> Seq<SegmentSchemaView> {
        self.segments@.map_values(|s: SegmentSchema| s@)
    }
}

/// Error type for building a schema from a pattern.
#[derive(Debug)]
pub enum PathSchemaParseError {
    /// The pattern piece is malformed; carries the piece and an
    /// explanation.
    SyntaxError { segment: String, message: String },
    /// The type tag after `:` is not one of the recognized tokens.
    UnrecognizedType(String),
}

/// The mathematical model of a [`PathSchemaParseError`].
pub enum PathSchemaParseErrorView {
    SyntaxError { segment: Seq<char>, message: Seq<char> },
    UnrecognizedType(Seq<char>),
}

impl View for PathSchemaParseError {
    type V = PathSchemaParseErrorView;

    open spec fn view(&self) -> PathSchemaParseErrorView {
        match self {
            PathSchemaParseError::SyntaxError { segment, message } => {
                PathSchemaParseErrorView::SyntaxError { segment: segment@, message: message@ }
            },
            PathSchemaParseError::UnrecognizedType(t) => {
                PathSchemaParseErrorView::UnrecognizedType(t@)
            },
        }
    }
}

/// The segment type a DSL tag denotes, if any.
pub open spec fn tag_of(s: Seq<char>) -> Option<SegmentType> {
    if s == "f32"@ {
        Some(SegmentType::F32)
    } else if s == "f64"@ {
        Some(SegmentType::F64)
    } else if s == "u8"@ {
        Some(SegmentType::U8)
    } else if s == "u16"@ {
        Some(SegmentType::U16)
    } else if s == "u32"@ {
        Some(SegmentType::U32)
    } else if s == "u64"@ {
        Some(SegmentType::U64)
    } else if s == "u128"@ {
        Some(SegmentType::U128)
    } else if s == "i8"@ {
        Some(SegmentType::I8)
    } else if s == "i16"@ {
        Some(SegmentType::I16)
    } else if s == "i32"@ {
        Some(SegmentType::I32)
    } else if s == "i64"@ {
        Some(SegmentType::I64)
    } else if s == "i128"@ {
        Some(SegmentType::I128)
    } else if s == "String"@ {
        Some(SegmentType::String)
    } else {
        None
    }
}

/// The characters before the first `>`, or all of them when there is
/// none.
pub open spec fn up_to_gt(s: Seq<char>) -> Seq<char>
    decreases s.len(),
{
    if s.len() == 0 {
        s
    } else if s[0] == '>' {
        Seq::empty()
    } else {
        seq![s[0]] + up_to_gt(s.skip(1))
    }
}

/// When the first `>` of `s` stands at position `p` (or `s` has none and
/// `p` is its length), the prefix before it is exactly `s.take(p)`.
proof fn lemma_up_to_gt(s: Seq<char>, p: int)
    requires
        0 <= p <= s.len(),
        forall|j: int| 0 <= j < p ==> s[j] != '>',
        p == s.len() || s[p] == '>',
    ensures
        up_to_gt(s) == s.take(p),
    decreases s.len(),
{
    if p == 0 {
        if s.len() == 0 {
            assert(up_to_gt(s) =~= s.take(0));
        } else {
            assert(up_to_gt(s) =~= s.take(0));
        }
    } else {
        lemma_up_to_gt(s.skip(1), p - 1);
        assert(seq![s[0]] + s.skip(1).take(p - 1) =~= s.take(p));
    }
}

/// What one DSL piece denotes: a literal, a value descriptor, or the
/// first error.
pub open spec fn spec_parse_token(tok: Seq<char>) -> Result<
    SegmentSchemaView,
    PathSchemaParseErrorView,
> {
    if tok.len() == 0 || tok[0] != '<' {
        Ok(SegmentSchemaView::Literal(tok))
    } else {
        let inner = up_to_gt(tok.skip(1));
        let chunks = split_at_char(inner, ':');
        if chunks.len() > 2 {
            Err(
                PathSchemaParseErrorView::SyntaxError {
                    segment: tok,
                    message: "Expected at most one ':' in path segment"@,
                },
            )
        } else if chunks.len() == 2 {
            match tag_of(chunks[1]) {
                Some(t) => Ok(
                    SegmentSchemaView::Value(
                        SegmentValueSchemaView { name: chunks[0], segment_type: t },
                    ),
                ),
                None => Err(PathSchemaParseErrorView::UnrecognizedType(chunks[1])),
            }
        } else {
            Ok(
                SegmentSchemaView::Value(
                    SegmentValueSchemaView { name: chunks[0], segment_type: SegmentType::String },
                ),
            )
        }
    }
}

/// What a list of DSL pieces denotes, left to right, stopping at the
/// first error.
pub open spec fn spec_parse_tokens(toks: Seq<Seq<char>>) -> Result<
    Seq<SegmentSchemaView>,
    PathSchemaParseErrorView,
>
    decreases toks.len(),
{
    if toks.len() == 0 {
        Ok(Seq::empty())
    } else {
        match spec_parse_tokens(toks.drop_last()) {
            Ok(segs) => match spec_parse_token(toks.last()) {
                Ok(seg) => Ok(segs.push(seg)),
                Err(e) => Err(e),
            },
            Err(e) => Err(e),
        }
    }
}

/// What a whole pattern denotes: its pieces after the first, parsed in
/// order.
pub open spec fn spec_parse_pattern(p: Seq<char>) -> Result<
    Seq<SegmentSchemaView>,
    PathSchemaParseErrorView,
> {
    spec_parse_tokens(split_at_char(p, '/').skip(1))
}

/// An error among the first `j` pieces decides the whole list.
proof fn lemma_tokens_err_prefix(toks: Seq<Seq<char>>, j: int)
    requires
        0 <= j <= toks.len(),
        spec_parse_tokens(toks.take(j)) is Err,
    ensures
        spec_parse_tokens(toks) == spec_parse_tokens(toks.take(j)),
    decreases toks.len(),
{
    if j == toks.len() {
        assert(toks.take(j) =~= toks);
    } else {
        assert(toks.drop_last().take(j) =~= toks.take(j));
        lemma_tokens_err_prefix(toks.drop_last(), j);
    }
}

/// Relies on `str` equality comparing exactly the character sequences.
#[verifier::external_body]
fn str_eq(a: &str, b: &str) -> (r: bool)
    ensures
        r == (a@ == b@),
{
    a == b
}

/// The segment type a DSL tag denotes, if any.
fn tag_from_text(t: &String) -> (r: Option<SegmentType>)
    ensures
        r == tag_of(t@),
{
    let s = t.as_str();
    if str_eq(s, "f32") {
        Some(SegmentType::F32)
    } else if str_eq(s, "f64") {
        Some(SegmentType::F64)
    } else if str_eq(s, "u8") {
        Some(SegmentType::U8)
    } else if str_eq(s, "u16") {
        Some(SegmentType::U16)
    } else if str_eq(s, "u32") {
        Some(SegmentType::U32)
    } else if str_eq(s, "u64") {
        Some(SegmentType::U64)
    } else if str_eq(s, "u128") {
        Some(SegmentType::U128)
    } else if str_eq(s, "i8") {
        Some(SegmentType::I8)
    } else if str_eq(s, "i16") {
        Some(SegmentType::I16)
    } else if str_eq(s, "i32") {
        Some(SegmentType::I32)
    } else if str_eq(s, "i64") {
        Some(SegmentType::I64)
    } else if str_eq(s, "i128") {
        Some(SegmentType::I128)
    } else if str_eq(s, "String") {
        Some(SegmentType::String)
    } else {
        None
    }
}

/// The position of the first `target` at or after `start`, or the length
/// when there is none.
fn find_char_from(s: &str, start: usize, target: char) -> (r: usize)
    requires
        start <= s@.len(),
    ensures
        start <= r <= s@.len(),
        forall|k: int| start <= k < r ==> s@[k] != target,
        r == s@.len() || s@[r as int] == target,
{
    let n = s.unicode_len();
    let mut j: usize = start;
    loop
        invariant
            start <= j <= n,
            n == s@.len(),
            forall|k: int| start <= k < j ==> s@[k] != target,
        decreases n - j,
    {
        if j == n {
            return j;
        }
        if s.get_char(j) == target {
            return j;
        }
        j = j + 1;
    }
}

/// Parse one DSL piece.
fn parse_token(tok: &String) -> (r: Result<SegmentSchema, PathSchemaParseError>)
    ensures
        (r is Ok) == (spec_parse_token(tok@) is Ok),
        r matches Ok(seg) ==> seg@ == spec_parse_token(tok@)->Ok_0,
        r matches Err(e) ==> e@ == spec_parse_token(tok@)->Err_0,
{
    let n = tok.unicode_len();
    if n == 0 {
        return Ok(SegmentSchema::Literal(tok.clone()));
    }
    if tok.as_str().get_char(0) != '<' {
        return Ok(SegmentSchema::Literal(tok.clone()));
    }
    let j = find_char_from(tok.as_str(), 1, '>');
    proof {
        lemma_up_to_gt(tok@.skip(1), j - 1);
        assert(tok@.skip(1).take(j - 1) =~= tok@.subrange(1, j as int));
    }
    let inner = tok.as_str().substring_char(1, j);
    let mut chunks = split_str(inner, ':');
    proof {
        assert(seq_views(chunks@)[0] == chunks@[0]@);
        if chunks@.len() >= 2 {
            assert(seq_views(chunks@)[1] == chunks@[1]@);
        }
    }
    if chunks.len() > 2 {
        return Err(
            PathSchemaParseError::SyntaxError {
                segment: tok.clone(),
                message: String::from_str("Expected at most one ':' in path segment"),
            },
        );
    }
    if chunks.len() == 2 {
        match tag_from_text(&chunks[1]) {
            Some(t) => {
                let name = chunks.remove(0);
                Ok(SegmentSchema::Value(SegmentValueSchema { name, segment_type: t }))
            },
            None => {
                let tag_text = chunks.remove(1);
                Err(PathSchemaParseError::UnrecognizedType(tag_text))
            },
        }
    } else {
        let name = chunks.remove(0);
        Ok(SegmentSchema::Value(SegmentValueSchema { name, segment_type: SegmentType::String }))
    }
}

impl Schema {
    /// Create a blank schema, typically for builder chaining.
    pub fn new() -> (r: Self)
        ensures
            r@ == Seq::<SegmentSchemaView>::empty(),
    {
        let r = Schema { segments: Vec::new() };
        proof {
            assert(r@ =~~= Seq::<SegmentSchemaView>::empty());
        }
        r
    }

    /// Create a schema from a pattern, as the module description lays
    /// out.
    pub fn path(pattern: &str) -> (r: Result<Self, PathSchemaParseError>)
        ensures
            (r is Ok) == (spec_parse_pattern(pattern@) is Ok),
            r matches Ok(schema) ==> schema@ == spec_parse_pattern(pattern@)->Ok_0,
            r matches Err(e) ==> e@ == spec_parse_pattern(pattern@)->Err_0,
    {
        let tokens = split_str(pattern, '/');
        let ghost toks = seq_views(tokens@).skip(1);
        let mut segments: Vec<SegmentSchema> = Vec::new();
        let mut i: usize = 1;
        proof {
            assert(toks.take(0) =~= Seq::<Seq<char>>::empty());
            assert(segments@.map_values(|s: SegmentSchema| s@) =~~= Seq::<
                SegmentSchemaView,
            >::empty());
        }
        loop
            invariant
                1 <= i <= tokens@.len(),
                toks == seq_views(tokens@).skip(1),
                seq_views(tokens@) == split_at_char(pattern@, '/'),
                spec_parse_tokens(toks.take(i - 1)) == Ok::<_, PathSchemaParseErrorView>(
                    segments@.map_values(|s: SegmentSchema| s@),
                ),
            decreases tokens@.len() - i,
        {
            if i == tokens.len() {
                proof {
                    assert(toks.take(i - 1) =~~= toks);
                }
                let r = Schema { segments };
                return Ok(r);
            }
            let ghost segs0 = segments@;
            match parse_token(&tokens[i]) {
                Ok(seg) => {
                    segments.push(seg);
                    proof {
                        assert(toks.take(i as int).drop_last() =~~= toks.take(i - 1));
                        assert(toks.take(i as int).last() == toks[i - 1]);
                        assert(toks[i - 1] == tokens@[i as int]@);
                        assert(segments@.map_values(|s: SegmentSchema| s@) =~~= segs0.map_values(
                            |s: SegmentSchema| s@,
                        ).push(seg@));
                    }
                    i = i + 1;
                },
                Err(e) => {
                    proof {
                        assert(toks.take(i as int).drop_last() =~~= toks.take(i - 1));
                        assert(toks.take(i as int).last() == toks[i - 1]);
                        assert(toks[i - 1] == tokens@[i as int]@);
                        assert(spec_parse_tokens(toks.take(i as int)) is Err);
                        lemma_tokens_err_prefix(toks, i as int);
                    }
                    return Err(e);
                },
            }
        }
    }

    /// Append a literal descriptor, returning the schema for chaining.
    pub fn literal(self, segment_literal: &str) -> (r: Self)
        ensures
            r@ == self@.push(SegmentSchemaView::Literal(segment_literal@)),
    {
        let ghost v0 = self@;
        let mut r = self;
        r.segments.push(SegmentSchema::Literal(segment_literal.to_owned()));
        proof {
            assert(r@ =~~= v0.push(SegmentSchemaView::Literal(segment_literal@)));
        }
        r
    }

    /// Append a value descriptor, returning the schema for chaining.
    pub fn value(self, name: &str, segment_type: SegmentType) -> (r: Self)
        ensures
            r@ == self@.push(
                SegmentSchemaView::Value(SegmentValueSchemaView { name: name@, segment_type }),
            ),
    {
        let ghost v0 = self@;
        let mut r = self;
        r.segments.push(
            SegmentSchema::Value(SegmentValueSchema { name: name.to_owned(), segment_type }),
        );
        proof {
            assert(r@ =~~= v0.push(
                SegmentSchemaView::Value(SegmentValueSchemaView { name: name@, segment_type }),
            ));
        }
        r
    }
}

} // verus!
