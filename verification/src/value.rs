//! The scalar value model: a value tagged with one of the supported segment
//! types, holding the concrete parsed datum.
//!
//! Floating-point values are carried as their raw segment text: this crate
//! moves them between the path and the record unchanged, and interpreting
//! the text as a float datum is left to unverified callers.

use vstd::prelude::*;

verus! {

/// A parsed segment value, tagged with its type.
///
/// The `F32` and `F64` variants hold the value's text, to be interpreted
/// by the standard float grammar downstream.
#[derive(Debug, PartialEq)]
pub enum SegmentValue {
    F32(String),
    F64(String),
    I8(i8),
    I16(i16),
    I32(i32),
    I64(i64),
    I128(i128),
    U8(u8),
    U16(u16),
    U32(u32),
    U64(u64),
    U128(u128),
    String(String),
}

/// The mathematical model of a [`SegmentValue`]: the same tagged union with
/// text abstracted to a sequence of characters.
pub enum SegmentValueView {
    F32(Seq<char>),
    F64(Seq<char>),
    I8(i8),
    I16(i16),
    I32(i32),
    I64(i64),
    I128(i128),
    U8(u8),
    U16(u16),
    U32(u32),
    U64(u64),
    U128(u128),
    String(Seq<char>),
}

impl View for SegmentValue {
    type V = SegmentValueView;

    open spec fn view(&self) -> SegmentValueView {
        match self {
            SegmentValue::F32(s) => SegmentValueView::F32(s@),
            SegmentValue::F64(s) => SegmentValueView::F64(s@),
            SegmentValue::I8(v) => SegmentValueView::I8(*v),
            SegmentValue::I16(v) => SegmentValueView::I16(*v),
            SegmentValue::I32(v) => SegmentValueView::I32(*v),
            SegmentValue::I64(v) => SegmentValueView::I64(*v),
            SegmentValue::I128(v) => SegmentValueView::I128(*v),
            SegmentValue::U8(v) => SegmentValueView::U8(*v),
            SegmentValue::U16(v) => SegmentValueView::U16(*v),
            SegmentValue::U32(v) => SegmentValueView::U32(*v),
            SegmentValue::U64(v) => SegmentValueView::U64(*v),
            SegmentValue::U128(v) => SegmentValueView::U128(*v),
            SegmentValue::String(s) => SegmentValueView::String(s@),
        }
    }
}

impl Clone for SegmentValue {
    fn clone(&self) -> (res: Self)
        ensures
            res == *self,
    {
        match self {
            SegmentValue::F32(s) => SegmentValue::F32(s.clone()),
            SegmentValue::F64(s) => SegmentValue::F64(s.clone()),
            SegmentValue::I8(v) => SegmentValue::I8(*v),
            SegmentValue::I16(v) => SegmentValue::I16(*v),
            SegmentValue::I32(v) => SegmentValue::I32(*v),
            SegmentValue::I64(v) => SegmentValue::I64(*v),
            SegmentValue::I128(v) => SegmentValue::I128(*v),
            SegmentValue::U8(v) => SegmentValue::U8(*v),
            SegmentValue::U16(v) => SegmentValue::U16(*v),
            SegmentValue::U32(v) => SegmentValue::U32(*v),
            SegmentValue::U64(v) => SegmentValue::U64(*v),
            SegmentValue::U128(v) => SegmentValue::U128(*v),
            SegmentValue::String(s) => SegmentValue::String(s.clone()),
        }
    }
}

} // verus!
