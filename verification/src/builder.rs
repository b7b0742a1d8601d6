//! The column builders of `arrow`, and what is taken on trust of them.
//!
//! Every function here only makes the call it is named after. Its contract
//! is stated over what the builder holds, row by row, and is not proved.
//! Floating-point columns hold the IEEE-754 bit patterns of their values in
//! a builder of unsigned 32-bit integers.

use vstd::prelude::*;

use arrow::array::{Array, ArrayBuilder};

use crate::cell::CellView;
use crate::measure::{
    lists_bytes, lists_have_null, lists_items, texts_bytes, MAX_RESERVE, OFFSET_MAX,
};

verus! {

/// `arrow`'s builder of boolean columns.
#[verifier::external_type_specification]
#[verifier::external_body]
pub struct ExBooleanBuilder(arrow::array::BooleanBuilder);

/// `arrow`'s `ArrayData`: what underlies an array of any type.
#[verifier::external_type_specification]
#[verifier::external_body]
pub struct ExArrayData(arrow::array::ArrayData);

/// `arrow`'s `Int32Builder`.
#[verifier::external_body]
pub struct IntBuilder {
    inner: arrow::array::Int32Builder,
}

/// `arrow`'s `UInt32Builder`, holding bit patterns of 32-bit floats.
#[verifier::external_body]
pub struct FloatBuilder {
    inner: arrow::array::UInt32Builder,
}

/// `arrow`'s `StringBuilder`.
#[verifier::external_body]
pub struct TextBuilder {
    inner: arrow::array::StringBuilder,
}

/// `arrow`'s `ListBuilder` over a `BooleanBuilder`.
#[verifier::external_body]
pub struct ListBoolBuilder {
    inner: arrow::array::ListBuilder<arrow::array::BooleanBuilder>,
}

/// `arrow`'s `ListBuilder` over an `Int32Builder`.
#[verifier::external_body]
pub struct ListIntBuilder {
    inner: arrow::array::ListBuilder<arrow::array::Int32Builder>,
}

/// `arrow`'s `ListBuilder` over a `UInt32Builder`, holding bit patterns of
/// 32-bit floats.
#[verifier::external_body]
pub struct ListFloatBuilder {
    inner: arrow::array::ListBuilder<arrow::array::UInt32Builder>,
}

/// `arrow`'s `ListBuilder` over a `StringBuilder`.
#[verifier::external_body]
pub struct ListTextBuilder {
    inner: arrow::array::ListBuilder<arrow::array::StringBuilder>,
}

/// A finished column: one of `arrow`'s arrays behind an `ArrayRef`.
#[verifier::external_body]
pub struct ColumnArray {
    inner: std::sync::Arc<dyn arrow::array::Array>,
}

/// The rows appended to a `BooleanBuilder` so far, in order; `None` is a null.
pub uninterp spec fn bool_rows(b: arrow::array::BooleanBuilder) -> Seq<Option<bool>>;

/// The rows appended to an `Int32Builder` so far, in order; `None` is a null.
pub uninterp spec fn int_rows(b: IntBuilder) -> Seq<Option<i32>>;

/// The rows appended to a `UInt32Builder` so far, in order; `None` is a null.
pub uninterp spec fn float_rows(b: FloatBuilder) -> Seq<Option<u32>>;

/// The rows appended to a `StringBuilder` so far, in order; `None` is a null.
pub uninterp spec fn text_rows(b: TextBuilder) -> Seq<Option<Seq<char>>>;

/// The rows appended to a `ListBuilder` of booleans so far, in order; `None`
/// is a null, among the rows and among the items of a row.
pub uninterp spec fn list_bool_rows(b: ListBoolBuilder) -> Seq<Option<Seq<Option<bool>>>>;

/// The rows appended to a `ListBuilder` of integers so far, in order.
pub uninterp spec fn list_int_rows(b: ListIntBuilder) -> Seq<Option<Seq<Option<i32>>>>;

/// The rows appended to a `ListBuilder` of bit patterns so far, in order.
pub uninterp spec fn list_float_rows(b: ListFloatBuilder) -> Seq<Option<Seq<Option<u32>>>>;

/// The rows appended to a `ListBuilder` of texts so far, in order.
pub uninterp spec fn list_text_rows(b: ListTextBuilder) -> Seq<Option<Seq<Option<Seq<char>>>>>;

/// The rows of a finished column, in order.
pub uninterp spec fn array_cells(a: ColumnArray) -> Seq<CellView>;

/// The rows that the data of an array holds, in order.
pub uninterp spec fn data_cells(data: arrow::array::ArrayData) -> Seq<CellView>;

/// The cells that rows of a scalar column stand for: a value, or null.
pub open spec fn bool_cells(rows: Seq<Option<bool>>) -> Seq<CellView> {
    Seq::new(
        rows.len(),
        |i: int|
            match rows[i] {
                Some(v) => CellView::Bool(v),
                None => CellView::Null,
            },
    )
}

pub open spec fn int_cells(rows: Seq<Option<i32>>) -> Seq<CellView> {
    Seq::new(
        rows.len(),
        |i: int|
            match rows[i] {
                Some(v) => CellView::Int(v),
                None => CellView::Null,
            },
    )
}

pub open spec fn float_cells(rows: Seq<Option<u32>>) -> Seq<CellView> {
    Seq::new(
        rows.len(),
        |i: int|
            match rows[i] {
                Some(v) => CellView::Float(v),
                None => CellView::Null,
            },
    )
}

pub open spec fn text_cells(rows: Seq<Option<Seq<char>>>) -> Seq<CellView> {
    Seq::new(
        rows.len(),
        |i: int|
            match rows[i] {
                Some(v) => CellView::String(v),
                None => CellView::Null,
            },
    )
}

/// The cells that rows of a list column stand for: a list, or null.
pub open spec fn list_bool_cells(rows: Seq<Option<Seq<Option<bool>>>>) -> Seq<CellView> {
    Seq::new(
        rows.len(),
        |i: int|
            match rows[i] {
                Some(v) => CellView::ListBool(v),
                None => CellView::Null,
            },
    )
}

pub open spec fn list_int_cells(rows: Seq<Option<Seq<Option<i32>>>>) -> Seq<CellView> {
    Seq::new(
        rows.len(),
        |i: int|
            match rows[i] {
                Some(v) => CellView::ListInt(v),
                None => CellView::Null,
            },
    )
}

pub open spec fn list_float_cells(rows: Seq<Option<Seq<Option<u32>>>>) -> Seq<CellView> {
    Seq::new(
        rows.len(),
        |i: int|
            match rows[i] {
                Some(v) => CellView::ListFloat(v),
                None => CellView::Null,
            },
    )
}

pub open spec fn list_text_cells(rows: Seq<Option<Seq<Option<Seq<char>>>>>) -> Seq<CellView> {
    Seq::new(
        rows.len(),
        |i: int|
            match rows[i] {
                Some(v) => CellView::ListString(v),
                None => CellView::Null,
            },
    )
}

/// The view of an optional list.
pub open spec fn list_view<T>(list: Option<Vec<Option<T>>>) -> Option<Seq<Option<T>>> {
    match list {
        Some(v) => Some(v@),
        None => None,
    }
}

/// `BooleanBuilder::with_capacity`: a builder with no rows.
#[verifier::external_body]
pub(crate) fn bool_with_capacity(capacity: usize) -> (b: arrow::array::BooleanBuilder)
    requires
        capacity <= MAX_RESERVE,
    ensures
        bool_rows(b) == Seq::<Option<bool>>::empty(),
{
    arrow::array::BooleanBuilder::with_capacity(capacity)
}

/// `BooleanBuilder::append_option`: one more row, a value or null.
#[verifier::external_body]
pub(crate) fn bool_append(b: &mut arrow::array::BooleanBuilder, value: Option<bool>)
    ensures
        bool_rows(*final(b)) == bool_rows(*old(b)).push(value),
{
    b.append_option(value)
}

/// `ArrayBuilder::len` of a `BooleanBuilder`: the number of rows.
#[verifier::external_body]
pub(crate) fn bool_len(b: &arrow::array::BooleanBuilder) -> (n: usize)
    ensures
        n == bool_rows(*b).len(),
{
    b.len()
}

/// `BooleanBuilder::finish`: an array of the rows appended.
#[verifier::external_body]
pub(crate) fn bool_finish(b: arrow::array::BooleanBuilder) -> (a: ColumnArray)
    ensures
        array_cells(a) == bool_cells(bool_rows(b)),
{
    let mut b = b;
    ColumnArray { inner: std::sync::Arc::new(b.finish()) }
}

/// `Int32Builder::with_capacity`: a builder with no rows.
#[verifier::external_body]
pub(crate) fn int_with_capacity(capacity: usize) -> (b: IntBuilder)
    requires
        capacity <= MAX_RESERVE,
    ensures
        int_rows(b) == Seq::<Option<i32>>::empty(),
{
    IntBuilder { inner: arrow::array::Int32Builder::with_capacity(capacity) }
}

/// `Int32Builder::append_option`: one more row, a value or null.
#[verifier::external_body]
pub(crate) fn int_append(b: &mut IntBuilder, value: Option<i32>)
    ensures
        int_rows(*final(b)) == int_rows(*old(b)).push(value),
{
    b.inner.append_option(value)
}

/// `ArrayBuilder::len` of a `Int32Builder`: the number of rows.
#[verifier::external_body]
pub(crate) fn int_len(b: &IntBuilder) -> (n: usize)
    ensures
        n == int_rows(*b).len(),
{
    b.inner.len()
}

/// `Int32Builder::finish`: an array of the rows appended.
#[verifier::external_body]
pub(crate) fn int_finish(b: IntBuilder) -> (a: ColumnArray)
    ensures
        array_cells(a) == int_cells(int_rows(b)),
{
    let mut b = b;
    ColumnArray { inner: std::sync::Arc::new(b.inner.finish()) }
}

/// `UInt32Builder::with_capacity`: a builder with no rows.
#[verifier::external_body]
pub(crate) fn float_with_capacity(capacity: usize) -> (b: FloatBuilder)
    requires
        capacity <= MAX_RESERVE,
    ensures
        float_rows(b) == Seq::<Option<u32>>::empty(),
{
    FloatBuilder { inner: arrow::array::UInt32Builder::with_capacity(capacity) }
}

/// `UInt32Builder::append_option`: one more row, a value or null.
#[verifier::external_body]
pub(crate) fn float_append(b: &mut FloatBuilder, value: Option<u32>)
    ensures
        float_rows(*final(b)) == float_rows(*old(b)).push(value),
{
    b.inner.append_option(value)
}

/// `ArrayBuilder::len` of a `UInt32Builder`: the number of rows.
#[verifier::external_body]
pub(crate) fn float_len(b: &FloatBuilder) -> (n: usize)
    ensures
        n == float_rows(*b).len(),
{
    b.inner.len()
}

/// `UInt32Builder::finish`: an array of the rows appended.
#[verifier::external_body]
pub(crate) fn float_finish(b: FloatBuilder) -> (a: ColumnArray)
    ensures
        array_cells(a) == float_cells(float_rows(b)),
{
    let mut b = b;
    ColumnArray { inner: std::sync::Arc::new(b.inner.finish()) }
}

/// `StringBuilder::with_capacity`: a builder with no rows, and room for
/// `capacity` of them and `bytes` bytes of text.
#[verifier::external_body]
pub(crate) fn text_with_capacity(capacity: usize, bytes: usize) -> (b: TextBuilder)
    requires
        capacity <= MAX_RESERVE,
        bytes <= 10 * MAX_RESERVE,
    ensures
        text_rows(b) == Seq::<Option<Seq<char>>>::empty(),
{
    TextBuilder { inner: arrow::array::StringBuilder::with_capacity(capacity, bytes) }
}

/// `StringBuilder::append_option`: one more row, a text or null. The call
/// panics where the bytes of all texts pass the largest 32-bit offset.
#[verifier::external_body]
pub(crate) fn text_append(b: &mut TextBuilder, value: Option<String>)
    requires
        texts_bytes(text_rows(*old(b)).push(value.deep_view())) <= OFFSET_MAX,
    ensures
        text_rows(*final(b)) == text_rows(*old(b)).push(value.deep_view()),
{
    b.inner.append_option(value)
}

/// `ArrayBuilder::len` of a `StringBuilder`: the number of rows.
#[verifier::external_body]
pub(crate) fn text_len(b: &TextBuilder) -> (n: usize)
    ensures
        n == text_rows(*b).len(),
{
    b.inner.len()
}

/// `StringBuilder::finish`: an array of the rows appended.
#[verifier::external_body]
pub(crate) fn text_finish(b: TextBuilder) -> (a: ColumnArray)
    ensures
        array_cells(a) == text_cells(text_rows(b)),
{
    let mut b = b;
    ColumnArray { inner: std::sync::Arc::new(b.inner.finish()) }
}

/// `ListBuilder::with_capacity` over a new `BooleanBuilder`: a builder with no rows.
#[verifier::external_body]
pub(crate) fn list_bool_with_capacity(capacity: usize) -> (b: ListBoolBuilder)
    requires
        capacity <= MAX_RESERVE,
    ensures
        list_bool_rows(b) == Seq::<Option<Seq<Option<bool>>>>::empty(),
{
    ListBoolBuilder {
        inner: arrow::array::ListBuilder::with_capacity(arrow::array::BooleanBuilder::new(), capacity),
    }
}

/// `ListBuilder::append_option`: one more row, a list or null. The call
/// panics where the items of all lists pass the largest 32-bit offset.
#[verifier::external_body]
pub(crate) fn list_bool_append(b: &mut ListBoolBuilder, value: Option<Vec<Option<bool>>>)
    requires
        lists_items(list_bool_rows(*old(b)).push(list_view(value))) <= OFFSET_MAX,
    ensures
        list_bool_rows(*final(b)) == list_bool_rows(*old(b)).push(list_view(value)),
{
    b.inner.append_option(value)
}

/// `ArrayBuilder::len` of a `ListBuilder`: the number of rows.
#[verifier::external_body]
pub(crate) fn list_bool_len(b: &ListBoolBuilder) -> (n: usize)
    ensures
        n == list_bool_rows(*b).len(),
{
    b.inner.len()
}

/// `ListBuilder::with_field` and `ListBuilder::finish`: an array of the rows
/// appended, whose items have this name and may be null or not. The call
/// panics where an item is null and may not be.
#[verifier::external_body]
pub(crate) fn list_bool_finish(b: ListBoolBuilder, name: &str, nullable: bool) -> (a: ColumnArray)
    requires
        nullable || !lists_have_null(list_bool_rows(b)),
    ensures
        array_cells(a) == list_bool_cells(list_bool_rows(b)),
{
    let item = arrow::datatypes::Field::new(name, arrow::datatypes::DataType::Boolean, nullable);
    let mut b = b.inner.with_field(item);
    ColumnArray { inner: std::sync::Arc::new(b.finish()) }
}

/// `ListBuilder::with_capacity` over a new `Int32Builder`: a builder with no rows.
#[verifier::external_body]
pub(crate) fn list_int_with_capacity(capacity: usize) -> (b: ListIntBuilder)
    requires
        capacity <= MAX_RESERVE,
    ensures
        list_int_rows(b) == Seq::<Option<Seq<Option<i32>>>>::empty(),
{
    ListIntBuilder {
        inner: arrow::array::ListBuilder::with_capacity(arrow::array::Int32Builder::new(), capacity),
    }
}

/// `ListBuilder::append_option`: one more row, a list or null. The call
/// panics where the items of all lists pass the largest 32-bit offset.
#[verifier::external_body]
pub(crate) fn list_int_append(b: &mut ListIntBuilder, value: Option<Vec<Option<i32>>>)
    requires
        lists_items(list_int_rows(*old(b)).push(list_view(value))) <= OFFSET_MAX,
    ensures
        list_int_rows(*final(b)) == list_int_rows(*old(b)).push(list_view(value)),
{
    b.inner.append_option(value)
}

/// `ArrayBuilder::len` of a `ListBuilder`: the number of rows.
#[verifier::external_body]
pub(crate) fn list_int_len(b: &ListIntBuilder) -> (n: usize)
    ensures
        n == list_int_rows(*b).len(),
{
    b.inner.len()
}

/// `ListBuilder::with_field` and `ListBuilder::finish`: an array of the rows
/// appended, whose items have this name and may be null or not. The call
/// panics where an item is null and may not be.
#[verifier::external_body]
pub(crate) fn list_int_finish(b: ListIntBuilder, name: &str, nullable: bool) -> (a: ColumnArray)
    requires
        nullable || !lists_have_null(list_int_rows(b)),
    ensures
        array_cells(a) == list_int_cells(list_int_rows(b)),
{
    let item = arrow::datatypes::Field::new(name, arrow::datatypes::DataType::Int32, nullable);
    let mut b = b.inner.with_field(item);
    ColumnArray { inner: std::sync::Arc::new(b.finish()) }
}

/// `ListBuilder::with_capacity` over a new `UInt32Builder`: a builder with no rows.
#[verifier::external_body]
pub(crate) fn list_float_with_capacity(capacity: usize) -> (b: ListFloatBuilder)
    requires
        capacity <= MAX_RESERVE,
    ensures
        list_float_rows(b) == Seq::<Option<Seq<Option<u32>>>>::empty(),
{
    ListFloatBuilder {
        inner: arrow::array::ListBuilder::with_capacity(arrow::array::UInt32Builder::new(), capacity),
    }
}

/// `ListBuilder::append_option`: one more row, a list or null. The call
/// panics where the items of all lists pass the largest 32-bit offset.
#[verifier::external_body]
pub(crate) fn list_float_append(b: &mut ListFloatBuilder, value: Option<Vec<Option<u32>>>)
    requires
        lists_items(list_float_rows(*old(b)).push(list_view(value))) <= OFFSET_MAX,
    ensures
        list_float_rows(*final(b)) == list_float_rows(*old(b)).push(list_view(value)),
{
    b.inner.append_option(value)
}

/// `ArrayBuilder::len` of a `ListBuilder`: the number of rows.
#[verifier::external_body]
pub(crate) fn list_float_len(b: &ListFloatBuilder) -> (n: usize)
    ensures
        n == list_float_rows(*b).len(),
{
    b.inner.len()
}

/// `ListBuilder::with_field` and `ListBuilder::finish`: an array of the rows
/// appended, whose items have this name and may be null or not. The call
/// panics where an item is null and may not be.
#[verifier::external_body]
pub(crate) fn list_float_finish(b: ListFloatBuilder, name: &str, nullable: bool) -> (a: ColumnArray)
    requires
        nullable || !lists_have_null(list_float_rows(b)),
    ensures
        array_cells(a) == list_float_cells(list_float_rows(b)),
{
    let item = arrow::datatypes::Field::new(name, arrow::datatypes::DataType::UInt32, nullable);
    let mut b = b.inner.with_field(item);
    ColumnArray { inner: std::sync::Arc::new(b.finish()) }
}

/// `ListBuilder::with_capacity` over a new `StringBuilder`: a builder with
/// no rows.
#[verifier::external_body]
pub(crate) fn list_text_with_capacity(capacity: usize) -> (b: ListTextBuilder)
    requires
        capacity <= MAX_RESERVE,
    ensures
        list_text_rows(b) == Seq::<Option<Seq<Option<Seq<char>>>>>::empty(),
{
    ListTextBuilder {
        inner: arrow::array::ListBuilder::with_capacity(arrow::array::StringBuilder::new(), capacity),
    }
}

/// `ListBuilder::append_option`: one more row, a list of texts or null. The
/// call panics where the items of all lists, or the bytes of all their
/// texts, pass the largest 32-bit offset.
#[verifier::external_body]
pub(crate) fn list_text_append(b: &mut ListTextBuilder, value: Option<Vec<Option<String>>>)
    requires
        lists_items(list_text_rows(*old(b)).push(value.deep_view())) <= OFFSET_MAX,
        lists_bytes(list_text_rows(*old(b)).push(value.deep_view())) <= OFFSET_MAX,
    ensures
        list_text_rows(*final(b)) == list_text_rows(*old(b)).push(value.deep_view()),
{
    b.inner.append_option(value)
}

/// `ArrayBuilder::len` of a `ListBuilder`: the number of rows.
#[verifier::external_body]
pub(crate) fn list_text_len(b: &ListTextBuilder) -> (n: usize)
    ensures
        n == list_text_rows(*b).len(),
{
    b.inner.len()
}

/// `ListBuilder::with_field` and `ListBuilder::finish`: an array of the rows
/// appended, whose items have this name and may be null or not. The call
/// panics where an item is null and may not be.
#[verifier::external_body]
pub(crate) fn list_text_finish(b: ListTextBuilder, name: &str, nullable: bool) -> (a: ColumnArray)
    requires
        nullable || !lists_have_null(list_text_rows(b)),
    ensures
        array_cells(a) == list_text_cells(list_text_rows(b)),
{
    let item = arrow::datatypes::Field::new(name, arrow::datatypes::DataType::Utf8, nullable);
    let mut b = b.inner.with_field(item);
    ColumnArray { inner: std::sync::Arc::new(b.finish()) }
}

/// `Array::len`: the number of rows.
#[verifier::external_body]
pub(crate) fn array_len(a: &ColumnArray) -> (n: usize)
    ensures
        n == array_cells(*a).len(),
{
    a.inner.len()
}

/// `Array::to_data`: the data that underlies the array. It holds the rows of
/// the array, in their order. Of how its buffers lay them out nothing is
/// stated.
#[verifier::external_body]
pub(crate) fn array_data(a: ColumnArray) -> (data: arrow::array::ArrayData)
    ensures
        data_cells(data) == array_cells(a),
{
    a.inner.to_data()
}

} // verus!
