//! One typed, growing column of a batch.

use vstd::prelude::*;
use vstd::string::StringExecFns;

use arrow::array::BooleanBuilder;

use crate::builder::{
    array_cells, array_data, array_len, bool_append, bool_cells, bool_finish, bool_len, bool_rows,
    bool_with_capacity, data_cells,
    float_append, float_cells, float_finish, float_len, float_rows, float_with_capacity,
    int_append, int_cells, int_finish, int_len, int_rows, int_with_capacity, list_bool_append,
    list_bool_cells, list_bool_finish, list_bool_len, list_bool_rows, list_bool_with_capacity,
    list_float_append, list_float_cells, list_float_finish, list_float_len, list_float_rows,
    list_float_with_capacity, list_int_append, list_int_cells, list_int_finish, list_int_len,
    list_int_rows, list_int_with_capacity, list_text_append, list_text_cells, list_text_finish,
    list_text_len, list_text_rows, list_text_with_capacity, text_append, text_cells,
    text_finish, text_len, text_rows, text_with_capacity, ColumnArray, FloatBuilder,
    IntBuilder, ListBoolBuilder, ListFloatBuilder, ListIntBuilder, ListTextBuilder,
    TextBuilder,
};
use crate::cell::{cell_fits, Cell, CellView, ValueKind};
use crate::error::Error;
use crate::measure::{
    bytes_of, has_null, lemma_lists_bytes_push, lemma_lists_have_null_push,
    lemma_lists_items_push, lemma_texts_bytes_push, list_has_null, lists_bytes,
    lists_have_null, lists_items, text_bytes, texts_bytes, MAX_RESERVE, OFFSET_MAX,
};

verus! {

/// What a list column keeps beside its rows: the name and nullability of its
/// items, and how much it holds.
#[derive(Debug)]
pub struct ListState {
    pub name: String,
    pub nullable: bool,
    pub items: usize,
    pub bytes: usize,
    pub has_null: bool,
}

/// A column under construction, by the type of its values.
pub enum ColumnData {
    /// Boolean column
    Bool(BooleanBuilder),
    /// Int32 column
    Int(IntBuilder),
    /// Float32 column, as bit patterns
    Float(FloatBuilder),
    /// String column, and the bytes of its texts
    String(TextBuilder, usize),
    /// List of boolean column
    ListBool(ListBoolBuilder, ListState),
    /// List of int32 column
    ListInt(ListIntBuilder, ListState),
    /// List of float32 column, as bit patterns
    ListFloat(ListFloatBuilder, ListState),
    /// List of string column
    ListString(ListTextBuilder, ListState),
}

/// Items that a cell adds to a list column.
pub open spec fn cell_items(cell: CellView) -> nat {
    match cell {
        CellView::ListBool(list) => list.len(),
        CellView::ListInt(list) => list.len(),
        CellView::ListFloat(list) => list.len(),
        CellView::ListString(list) => list.len(),
        _ => 0,
    }
}

/// Bytes of text that a cell adds to a column.
pub open spec fn cell_bytes(cell: CellView) -> nat {
    match cell {
        CellView::String(text) => text_bytes(text),
        CellView::ListString(list) => texts_bytes(list),
        _ => 0,
    }
}

/// Whether a cell is a list that holds a null.
pub open spec fn cell_has_null(cell: CellView) -> bool {
    match cell {
        CellView::ListBool(list) => list_has_null(list),
        CellView::ListInt(list) => list_has_null(list),
        CellView::ListFloat(list) => list_has_null(list),
        CellView::ListString(list) => list_has_null(list),
        _ => false,
    }
}

impl View for ColumnData {
    type V = Seq<CellView>;

    /// The cells of the column, in row order.
    open spec fn view(&self) -> Seq<CellView> {
        match self {
            ColumnData::Bool(b) => bool_cells(bool_rows(*b)),
            ColumnData::Int(b) => int_cells(int_rows(*b)),
            ColumnData::Float(b) => float_cells(float_rows(*b)),
            ColumnData::String(b, _) => text_cells(text_rows(*b)),
            ColumnData::ListBool(b, _) => list_bool_cells(list_bool_rows(*b)),
            ColumnData::ListInt(b, _) => list_int_cells(list_int_rows(*b)),
            ColumnData::ListFloat(b, _) => list_float_cells(list_float_rows(*b)),
            ColumnData::ListString(b, _) => list_text_cells(list_text_rows(*b)),
        }
    }
}

impl ColumnData {
    /// The type of the column's values.
    pub open spec fn value_kind(&self) -> ValueKind {
        match self {
            ColumnData::Bool(_) => ValueKind::Bool,
            ColumnData::Int(_) => ValueKind::Int32,
            ColumnData::Float(_) => ValueKind::Float32,
            ColumnData::String(_, _) => ValueKind::String,
            ColumnData::ListBool(_, _) => ValueKind::Bool,
            ColumnData::ListInt(_, _) => ValueKind::Int32,
            ColumnData::ListFloat(_, _) => ValueKind::Float32,
            ColumnData::ListString(_, _) => ValueKind::String,
        }
    }

    /// Whether the column holds lists.
    pub open spec fn holds_lists(&self) -> bool {
        match self {
            ColumnData::ListBool(_, _) => true,
            ColumnData::ListInt(_, _) => true,
            ColumnData::ListFloat(_, _) => true,
            ColumnData::ListString(_, _) => true,
            _ => false,
        }
    }

    /// Items in the lists of the column.
    pub open spec fn items(&self) -> nat {
        match self {
            ColumnData::ListBool(b, _) => lists_items(list_bool_rows(*b)),
            ColumnData::ListInt(b, _) => lists_items(list_int_rows(*b)),
            ColumnData::ListFloat(b, _) => lists_items(list_float_rows(*b)),
            ColumnData::ListString(b, _) => lists_items(list_text_rows(*b)),
            _ => 0,
        }
    }

    /// Bytes of the texts of the column.
    pub open spec fn bytes(&self) -> nat {
        match self {
            ColumnData::String(b, _) => texts_bytes(text_rows(*b)),
            ColumnData::ListString(b, _) => lists_bytes(list_text_rows(*b)),
            _ => 0,
        }
    }

    /// Whether a list of the column holds a null.
    pub open spec fn null_items(&self) -> bool {
        match self {
            ColumnData::ListBool(b, _) => lists_have_null(list_bool_rows(*b)),
            ColumnData::ListInt(b, _) => lists_have_null(list_int_rows(*b)),
            ColumnData::ListFloat(b, _) => lists_have_null(list_float_rows(*b)),
            ColumnData::ListString(b, _) => lists_have_null(list_text_rows(*b)),
            _ => false,
        }
    }

    /// The name and nullability given to a list column's items.
    pub open spec fn list_state(&self) -> Option<ListState> {
        match self {
            ColumnData::ListBool(_, state) => Some(*state),
            ColumnData::ListInt(_, state) => Some(*state),
            ColumnData::ListFloat(_, state) => Some(*state),
            ColumnData::ListString(_, state) => Some(*state),
            _ => None,
        }
    }

    /// Whether the items of a list column may be null; true of any other.
    pub open spec fn items_nullable(&self) -> bool {
        match self.list_state() {
            Some(state) => state.nullable,
            None => true,
        }
    }

    /// Whether the column cannot be frozen: its items may not be null, and
    /// one is.
    pub open spec fn blocked(&self) -> bool {
        !self.items_nullable() && self.null_items()
    }

    /// The invariant of a column: what it keeps beside its rows agrees with
    /// them, and it holds no more than 32-bit offsets address.
    pub open spec fn wf(&self) -> bool {
        &&& self.items() <= OFFSET_MAX
        &&& self.bytes() <= OFFSET_MAX
        &&& match self {
            ColumnData::String(_, bytes) => *bytes == self.bytes(),
            _ => true,
        }
        &&& match self.list_state() {
            Some(state) => state.items == self.items() && state.bytes == self.bytes()
                && state.has_null == self.null_items(),
            None => true,
        }
    }

    /// Whether the column has room for one more cell.
    pub open spec fn room_for(&self, cell: CellView) -> bool {
        self.items() + cell_items(cell) <= OFFSET_MAX && self.bytes() + cell_bytes(cell)
            <= OFFSET_MAX
    }

    /// Whether `after` is this column with nothing changed but what it holds.
    pub open spec fn same_column(&self, after: &ColumnData) -> bool {
        &&& after.value_kind() == self.value_kind()
        &&& after.holds_lists() == self.holds_lists()
        &&& match (self.list_state(), after.list_state()) {
            (Some(a), Some(b)) => a.name == b.name && a.nullable == b.nullable,
            (None, None) => true,
            _ => false,
        }
    }

    /// Whether `after` is this column with one more cell.
    pub open spec fn pushed(&self, after: &ColumnData, cell: CellView) -> bool {
        &&& self.same_column(after)
        &&& after.wf()
        &&& after@ == self@.push(cell)
        &&& after.items() == self.items() + cell_items(cell)
        &&& after.bytes() == self.bytes() + cell_bytes(cell)
        &&& after.null_items() == (self.null_items() || cell_has_null(cell))
    }

    /// Whether `after` is this column as it is.
    pub open spec fn kept(&self, after: &ColumnData) -> bool {
        &&& self.same_column(after)
        &&& after.wf()
        &&& after@ == self@
        &&& after.items() == self.items()
        &&& after.bytes() == self.bytes()
        &&& after.null_items() == self.null_items()
    }

    /// Creates an empty column of a type, with room for `length` rows.
    /// `field_name` and `nullable` are those of the items of a list column.
    pub fn new(
        value_kind: ValueKind,
        list: bool,
        length: usize,
        field_name: &str,
        nullable: bool,
    ) -> (column: ColumnData)
        ensures
            column.wf(),
            column@ == Seq::<CellView>::empty(),
            column.value_kind() == value_kind,
            column.holds_lists() == list,
            list ==> column.list_state()->0.name@ == field_name@,
            list ==> column.items_nullable() == nullable,
            column.items() == 0,
            column.bytes() == 0,
            !column.null_items(),
    {
        let capacity: usize = if length > MAX_RESERVE {
            MAX_RESERVE
        } else {
            length
        };
        if list {
            let state = ListState {
                name: String::from_str(field_name),
                nullable,
                items: 0,
                bytes: 0,
                has_null: false,
            };
            match value_kind {
                ValueKind::Bool => {
                    let b = list_bool_with_capacity(capacity);
                    assert(list_bool_cells(list_bool_rows(b)) =~= Seq::empty());
                    ColumnData::ListBool(b, state)
                },
                ValueKind::Int32 => {
                    let b = list_int_with_capacity(capacity);
                    assert(list_int_cells(list_int_rows(b)) =~= Seq::empty());
                    ColumnData::ListInt(b, state)
                },
                ValueKind::Float32 => {
                    let b = list_float_with_capacity(capacity);
                    assert(list_float_cells(list_float_rows(b)) =~= Seq::empty());
                    ColumnData::ListFloat(b, state)
                },
                ValueKind::String => {
                    let b = list_text_with_capacity(capacity);
                    assert(list_text_cells(list_text_rows(b)) =~= Seq::empty());
                    ColumnData::ListString(b, state)
                },
            }
        } else {
            match value_kind {
                ValueKind::Bool => {
                    let b = bool_with_capacity(capacity);
                    assert(bool_cells(bool_rows(b)) =~= Seq::empty());
                    ColumnData::Bool(b)
                },
                ValueKind::Int32 => {
                    let b = int_with_capacity(capacity);
                    assert(int_cells(int_rows(b)) =~= Seq::empty());
                    ColumnData::Int(b)
                },
                ValueKind::Float32 => {
                    let b = float_with_capacity(capacity);
                    assert(float_cells(float_rows(b)) =~= Seq::empty());
                    ColumnData::Float(b)
                },
                ValueKind::String => {
                    let b = text_with_capacity(capacity, capacity * 10);
                    assert(text_cells(text_rows(b)) =~= Seq::empty());
                    ColumnData::String(b, 0)
                },
            }
        }
    }

    /// Add a null to the column.
    pub fn push_null(&mut self)
        requires
            old(self).wf(),
        ensures
            old(self).pushed(final(self), CellView::Null),
    {
        match self {
            ColumnData::Bool(b) => {
                let ghost before = bool_rows(*b);
                bool_append(b, None);
                assert(bool_cells(bool_rows(*b)) =~= bool_cells(before).push(CellView::Null));
            },
            ColumnData::Int(b) => {
                let ghost before = int_rows(*b);
                int_append(b, None);
                assert(int_cells(int_rows(*b)) =~= int_cells(before).push(CellView::Null));
            },
            ColumnData::Float(b) => {
                let ghost before = float_rows(*b);
                float_append(b, None);
                assert(float_cells(float_rows(*b)) =~= float_cells(before).push(CellView::Null));
            },
            ColumnData::String(b, _) => {
                proof {
                    lemma_texts_bytes_push(text_rows(*b), None);
                }
                let ghost before = text_rows(*b);
                text_append(b, None);
                assert(text_cells(text_rows(*b)) =~= text_cells(before).push(CellView::Null));
            },
            ColumnData::ListBool(b, _) => {
                proof {
                    lemma_lists_items_push(list_bool_rows(*b), None);
                    lemma_lists_have_null_push(list_bool_rows(*b), None);
                }
                let ghost before = list_bool_rows(*b);
                list_bool_append(b, None);
                assert(list_bool_cells(list_bool_rows(*b))
                    =~= list_bool_cells(before).push(CellView::Null));
            },
            ColumnData::ListInt(b, _) => {
                proof {
                    lemma_lists_items_push(list_int_rows(*b), None);
                    lemma_lists_have_null_push(list_int_rows(*b), None);
                }
                let ghost before = list_int_rows(*b);
                list_int_append(b, None);
                assert(list_int_cells(list_int_rows(*b))
                    =~= list_int_cells(before).push(CellView::Null));
            },
            ColumnData::ListFloat(b, _) => {
                proof {
                    lemma_lists_items_push(list_float_rows(*b), None);
                    lemma_lists_have_null_push(list_float_rows(*b), None);
                }
                let ghost before = list_float_rows(*b);
                list_float_append(b, None);
                assert(list_float_cells(list_float_rows(*b))
                    =~= list_float_cells(before).push(CellView::Null));
            },
            ColumnData::ListString(b, _) => {
                proof {
                    lemma_lists_items_push(list_text_rows(*b), None);
                    lemma_lists_bytes_push(list_text_rows(*b), None);
                    lemma_lists_have_null_push(list_text_rows(*b), None);
                }
                let ghost before = list_text_rows(*b);
                list_text_append(b, None);
                assert(list_text_cells(list_text_rows(*b))
                    =~= list_text_cells(before).push(CellView::Null));
            },
        }
    }

    /// Add a boolean to a boolean column.
    pub fn push_bool(&mut self, value: bool)
        requires
            old(self).wf(),
            *old(self) is Bool,
        ensures
            old(self).pushed(final(self), CellView::Bool(value)),
    {
        match self {
            ColumnData::Bool(b) => {
                let ghost before = bool_rows(*b);
                bool_append(b, Some(value));
                assert(bool_cells(bool_rows(*b))
                    =~= bool_cells(before).push(CellView::Bool(value)));
            },
            _ => {},
        }
    }

    /// Add an integer, or null, to an integer column.
    pub fn push_i32(&mut self, value: Option<i32>)
        requires
            old(self).wf(),
            *old(self) is Int,
        ensures
            old(self).pushed(
                final(self),
                match value {
                    Some(v) => CellView::Int(v),
                    None => CellView::Null,
                },
            ),
    {
        match self {
            ColumnData::Int(b) => {
                let ghost before = int_rows(*b);
                int_append(b, value);
                assert(int_cells(int_rows(*b)) =~= int_cells(before).push(
                    match value {
                        Some(v) => CellView::Int(v),
                        None => CellView::Null,
                    },
                ));
            },
            _ => {},
        }
    }

    /// Add the bit pattern of a float, or null, to a float column.
    pub fn push_f32(&mut self, value: Option<u32>)
        requires
            old(self).wf(),
            *old(self) is Float,
        ensures
            old(self).pushed(
                final(self),
                match value {
                    Some(v) => CellView::Float(v),
                    None => CellView::Null,
                },
            ),
    {
        match self {
            ColumnData::Float(b) => {
                let ghost before = float_rows(*b);
                float_append(b, value);
                assert(float_cells(float_rows(*b)) =~= float_cells(before).push(
                    match value {
                        Some(v) => CellView::Float(v),
                        None => CellView::Null,
                    },
                ));
            },
            _ => {},
        }
    }

    /// Add a text to a string column. Fails with `Overflow`, and leaves the
    /// column as it is, where the column has no room for it.
    pub fn push_string(&mut self, value: String) -> (result: Result<(), Error>)
        requires
            old(self).wf(),
            *old(self) is String,
        ensures
            match result {
                Ok(()) => old(self).room_for(CellView::String(value@)) && old(self).pushed(
                    final(self),
                    CellView::String(value@),
                ),
                Err(e) => e == Error::Overflow && !old(self).room_for(CellView::String(value@))
                    && old(self).kept(final(self)),
            },
    {
        match self {
            ColumnData::String(b, bytes) => {
                let n: usize = value.as_str().as_bytes().len();
                assert(n == text_bytes(value@));
                if n > OFFSET_MAX - *bytes {
                    return Err(Error::Overflow);
                }
                proof {
                    lemma_texts_bytes_push(text_rows(*b), Some(value@));
                }
                let ghost before = text_rows(*b);
                text_append(b, Some(value));
                *bytes = *bytes + n;
                assert(text_cells(text_rows(*b))
                    =~= text_cells(before).push(CellView::String(value@)));
                Ok(())
            },
            _ => Ok(()),
        }
    }

    /// Add a list of booleans to a column of such lists. Fails with `Overflow`,
    /// and leaves the column as it is, where the column has no room for it.
    pub fn push_vecbool(&mut self, value: Vec<Option<bool>>) -> (result: Result<(), Error>)
        requires
            old(self).wf(),
            *old(self) is ListBool,
        ensures
            match result {
                Ok(()) => old(self).room_for(CellView::ListBool(value@)) && old(self).pushed(
                    final(self),
                    CellView::ListBool(value@),
                ),
                Err(e) => e == Error::Overflow && !old(self).room_for(CellView::ListBool(value@))
                    && old(self).kept(final(self)),
            },
    {
        match self {
            ColumnData::ListBool(b, state) => {
                let n: usize = value.len();
                if n > OFFSET_MAX - state.items {
                    return Err(Error::Overflow);
                }
                let holds_null: bool = has_null(&value);
                proof {
                    lemma_lists_items_push(list_bool_rows(*b), Some(value@));
                    lemma_lists_have_null_push(list_bool_rows(*b), Some(value@));
                }
                let ghost before = list_bool_rows(*b);
                list_bool_append(b, Some(value));
                state.items = state.items + n;
                state.has_null = state.has_null || holds_null;
                assert(list_bool_cells(list_bool_rows(*b))
                    =~= list_bool_cells(before).push(CellView::ListBool(value@)));
                Ok(())
            },
            _ => Ok(()),
        }
    }

    /// Add a list of integers to a column of such lists. Fails with `Overflow`,
    /// and leaves the column as it is, where the column has no room for it.
    pub fn push_veci32(&mut self, value: Vec<Option<i32>>) -> (result: Result<(), Error>)
        requires
            old(self).wf(),
            *old(self) is ListInt,
        ensures
            match result {
                Ok(()) => old(self).room_for(CellView::ListInt(value@)) && old(self).pushed(
                    final(self),
                    CellView::ListInt(value@),
                ),
                Err(e) => e == Error::Overflow && !old(self).room_for(CellView::ListInt(value@))
                    && old(self).kept(final(self)),
            },
    {
        match self {
            ColumnData::ListInt(b, state) => {
                let n: usize = value.len();
                if n > OFFSET_MAX - state.items {
                    return Err(Error::Overflow);
                }
                let holds_null: bool = has_null(&value);
                proof {
                    lemma_lists_items_push(list_int_rows(*b), Some(value@));
                    lemma_lists_have_null_push(list_int_rows(*b), Some(value@));
                }
                let ghost before = list_int_rows(*b);
                list_int_append(b, Some(value));
                state.items = state.items + n;
                state.has_null = state.has_null || holds_null;
                assert(list_int_cells(list_int_rows(*b))
                    =~= list_int_cells(before).push(CellView::ListInt(value@)));
                Ok(())
            },
            _ => Ok(()),
        }
    }

    /// Add a list of bit patterns of floats to a column of such lists. Fails with `Overflow`,
    /// and leaves the column as it is, where the column has no room for it.
    pub fn push_vecf32(&mut self, value: Vec<Option<u32>>) -> (result: Result<(), Error>)
        requires
            old(self).wf(),
            *old(self) is ListFloat,
        ensures
            match result {
                Ok(()) => old(self).room_for(CellView::ListFloat(value@)) && old(self).pushed(
                    final(self),
                    CellView::ListFloat(value@),
                ),
                Err(e) => e == Error::Overflow && !old(self).room_for(CellView::ListFloat(value@))
                    && old(self).kept(final(self)),
            },
    {
        match self {
            ColumnData::ListFloat(b, state) => {
                let n: usize = value.len();
                if n > OFFSET_MAX - state.items {
                    return Err(Error::Overflow);
                }
                let holds_null: bool = has_null(&value);
                proof {
                    lemma_lists_items_push(list_float_rows(*b), Some(value@));
                    lemma_lists_have_null_push(list_float_rows(*b), Some(value@));
                }
                let ghost before = list_float_rows(*b);
                list_float_append(b, Some(value));
                state.items = state.items + n;
                state.has_null = state.has_null || holds_null;
                assert(list_float_cells(list_float_rows(*b))
                    =~= list_float_cells(before).push(CellView::ListFloat(value@)));
                Ok(())
            },
            _ => Ok(()),
        }
    }

    /// Add a list of texts to a column of such lists. Fails with `Overflow`,
    /// and leaves the column as it is, where the column has no room for it.
    pub fn push_vecstring(&mut self, value: Vec<Option<String>>) -> (result: Result<(), Error>)
        requires
            old(self).wf(),
            *old(self) is ListString,
        ensures
            match result {
                Ok(()) => old(self).room_for(CellView::ListString(value.deep_view()))
                    && old(self).pushed(final(self), CellView::ListString(value.deep_view())),
                Err(e) => e == Error::Overflow && !old(self).room_for(
                    CellView::ListString(value.deep_view()),
                ) && old(self).kept(final(self)),
            },
    {
        match self {
            ColumnData::ListString(b, state) => {
                let n: usize = value.len();
                assert(n == value.deep_view().len());
                if n > OFFSET_MAX - state.items {
                    return Err(Error::Overflow);
                }
                let size: usize = match bytes_of(&value) {
                    Some(size) => size,
                    None => {
                        return Err(Error::Overflow);
                    },
                };
                if size > OFFSET_MAX - state.bytes {
                    return Err(Error::Overflow);
                }
                let holds_null: bool = has_null(&value);
                proof {
                    let list = value.deep_view();
                    lemma_lists_items_push(list_text_rows(*b), Some(list));
                    lemma_lists_bytes_push(list_text_rows(*b), Some(list));
                    lemma_lists_have_null_push(list_text_rows(*b), Some(list));
                    assert(list_has_null(value@) == list_has_null(list)) by {
                        if list_has_null(value@) {
                            let j = choose|j: int| 0 <= j < value@.len() && (#[trigger] value@[j]) is None;
                            assert(list[j] is None);
                        }
                        if list_has_null(list) {
                            let j = choose|j: int| 0 <= j < list.len() && (#[trigger] list[j]) is None;
                            assert(value@[j] is None);
                        }
                    }
                }
                let ghost before = list_text_rows(*b);
                list_text_append(b, Some(value));
                state.items = state.items + n;
                state.bytes = state.bytes + size;
                state.has_null = state.has_null || holds_null;
                assert(list_text_cells(list_text_rows(*b))
                    =~= list_text_cells(before).push(CellView::ListString(value.deep_view())));
                Ok(())
            },
            _ => Ok(()),
        }
    }

    /// Add a cell to a column that it fits. Fails with `Overflow`, and
    /// leaves the column as it is, where the column has no room for it.
    pub fn push(&mut self, cell: Cell) -> (result: Result<(), Error>)
        requires
            old(self).wf(),
            cell_fits(cell.deep_view(), old(self).value_kind(), old(self).holds_lists()),
        ensures
            match result {
                Ok(()) => old(self).room_for(cell.deep_view()) && old(self).pushed(
                    final(self),
                    cell.deep_view(),
                ),
                Err(e) => e == Error::Overflow && !old(self).room_for(cell.deep_view())
                    && old(self).kept(final(self)),
            },
    {
        match cell {
            Cell::Null => {
                self.push_null();
                Ok(())
            },
            Cell::Bool(v) => {
                self.push_bool(v);
                Ok(())
            },
            Cell::Int(v) => {
                self.push_i32(Some(v));
                Ok(())
            },
            Cell::Float(v) => {
                self.push_f32(Some(v));
                Ok(())
            },
            Cell::String(v) => self.push_string(v),
            Cell::ListBool(v) => self.push_vecbool(v),
            Cell::ListInt(v) => self.push_veci32(v),
            Cell::ListFloat(v) => self.push_vecf32(v),
            Cell::ListString(v) => self.push_vecstring(v),
        }
    }

    /// Whether the column has room for one more cell.
    pub fn has_room(&self, cell: &Cell) -> (yes: bool)
        requires
            self.wf(),
            cell_fits(cell.deep_view(), self.value_kind(), self.holds_lists()),
        ensures
            yes == self.room_for(cell.deep_view()),
    {
        match (self, cell) {
            (ColumnData::String(_, bytes), Cell::String(text)) => {
                let n: usize = text.as_str().as_bytes().len();
                assert(n == text_bytes(text@));
                n <= OFFSET_MAX - *bytes
            },
            (ColumnData::ListBool(_, state), Cell::ListBool(list)) => list.len() <= OFFSET_MAX
                - state.items,
            (ColumnData::ListInt(_, state), Cell::ListInt(list)) => list.len() <= OFFSET_MAX
                - state.items,
            (ColumnData::ListFloat(_, state), Cell::ListFloat(list)) => list.len() <= OFFSET_MAX
                - state.items,
            (ColumnData::ListString(_, state), Cell::ListString(list)) => {
                assert(list.len() == list.deep_view().len());
                if list.len() > OFFSET_MAX - state.items {
                    false
                } else {
                    match bytes_of(list) {
                        Some(size) => size <= OFFSET_MAX - state.bytes,
                        None => false,
                    }
                }
            },
            _ => true,
        }
    }

    /// Whether the column cannot be frozen.
    pub fn is_blocked(&self) -> (yes: bool)
        requires
            self.wf(),
        ensures
            yes == self.blocked(),
    {
        match self {
            ColumnData::ListBool(_, state) => !state.nullable && state.has_null,
            ColumnData::ListInt(_, state) => !state.nullable && state.has_null,
            ColumnData::ListFloat(_, state) => !state.nullable && state.has_null,
            ColumnData::ListString(_, state) => !state.nullable && state.has_null,
            _ => false,
        }
    }

    /// Freezes the column into an array of its cells. Fails with
    /// `NullValue` where the items of a list column may not be null and one is.
    pub fn into_arc(self) -> (result: Result<ColumnArray, Error>)
        requires
            self.wf(),
        ensures
            match result {
                Ok(array) => !self.blocked() && array_cells(array) == self@,
                Err(e) => e == Error::NullValue && self.blocked(),
            },
    {
        if self.is_blocked() {
            return Err(Error::NullValue);
        }
        match self {
            ColumnData::Bool(b) => Ok(bool_finish(b)),
            ColumnData::Int(b) => Ok(int_finish(b)),
            ColumnData::Float(b) => Ok(float_finish(b)),
            ColumnData::String(b, _) => Ok(text_finish(b)),
            ColumnData::ListBool(b, state) => Ok(
                list_bool_finish(b, state.name.as_str(), state.nullable),
            ),
            ColumnData::ListInt(b, state) => Ok(
                list_int_finish(b, state.name.as_str(), state.nullable),
            ),
            ColumnData::ListFloat(b, state) => Ok(
                list_float_finish(b, state.name.as_str(), state.nullable),
            ),
            ColumnData::ListString(b, state) => Ok(
                list_text_finish(b, state.name.as_str(), state.nullable),
            ),
        }
    }

    /// Get the length of the column: its number of rows.
    pub fn len(&self) -> (n: usize)
        ensures
            n == self@.len(),
    {
        match self {
            ColumnData::Bool(b) => bool_len(b),
            ColumnData::Int(b) => int_len(b),
            ColumnData::Float(b) => float_len(b),
            ColumnData::String(b, _) => text_len(b),
            ColumnData::ListBool(b, _) => list_bool_len(b),
            ColumnData::ListInt(b, _) => list_int_len(b),
            ColumnData::ListFloat(b, _) => list_float_len(b),
            ColumnData::ListString(b, _) => list_text_len(b),
        }
    }

    /// Check if the column has no row.
    pub fn is_empty(&self) -> (empty: bool)
        ensures
            empty == (self@.len() == 0),
    {
        self.len() == 0
    }
}

impl ColumnArray {
    /// Number of rows.
    pub fn len(&self) -> (n: usize)
        ensures
            n == array_cells(*self).len(),
    {
        array_len(self)
    }

    /// Check if the array has no row.
    pub fn is_empty(&self) -> (empty: bool)
        ensures
            empty == (array_cells(*self).len() == 0),
    {
        array_len(self) == 0
    }

    /// Hands the array out as the data that `arrow` makes arrays of: it
    /// holds the rows of the array, in their order.
    pub fn into_data(self) -> (data: arrow::array::ArrayData)
        ensures
            data_cells(data) == array_cells(self),
    {
        array_data(self)
    }
}

} // verus!
