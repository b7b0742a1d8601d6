//! From one field of a record to the cell it puts into one row.

use vstd::prelude::*;
use vstd::string::StringExecFns;

use crate::cell::{
    cell_fits, is_list_number, select, selection, selection_in_range, value_kind_of, Cell,
    CellView, Selection, ValueKind,
};
use crate::error::Error;
use crate::genotype::{genotype_string, genotype_text, parse_genotype, parsed_genotype};
use crate::header::{Number, Type};
use crate::record::{Array, ArrayView, Value, ValueView};

verus! {

/// The list that a selection makes of an array; `zero` fills the middle of a
/// padded selection.
pub open spec fn selected<T>(sel: Selection, items: Seq<Option<T>>, zero: T) -> Seq<Option<T>> {
    match sel {
        Selection::Reject => Seq::empty(),
        Selection::Whole => items,
        Selection::Single(i) => seq![items[i as int]],
        Selection::Pair(i, j) => seq![items[i as int], items[j as int]],
        Selection::Triple(i, j, k) => seq![items[i as int], items[j as int], items[k as int]],
        Selection::Padded(i, j) => seq![items[i as int], Some(zero), items[j as int]],
        Selection::Nulls(n) => Seq::new(n as nat, |k: int| None),
    }
}

/// A list of `n` nulls.
pub fn nulls<T>(n: usize) -> (list: Vec<Option<T>>)
    ensures
        list@ == Seq::new(n as nat, |k: int| None::<T>),
{
    let mut list: Vec<Option<T>> = Vec::new();
    let mut i: usize = 0;
    while i < n
        invariant
            i <= n,
            list@ == Seq::new(i as nat, |k: int| None::<T>),
        decreases n - i,
    {
        list.push(None);
        assert(list@ =~= Seq::new((i + 1) as nat, |k: int| None::<T>));
        i += 1;
    }
    list
}

/// Makes the list of a selection from an array of numbers or flags.
pub fn select_items<T: Copy>(sel: Selection, items: &Vec<Option<T>>, zero: T) -> (list: Vec<
    Option<T>,
>)
    requires
        selection_in_range(sel, items.len()),
    ensures
        list@ == selected(sel, items@, zero),
{
    match sel {
        Selection::Reject => Vec::new(),
        Selection::Whole => {
            let mut list: Vec<Option<T>> = Vec::new();
            let mut i: usize = 0;
            while i < items.len()
                invariant
                    i <= items.len(),
                    list@ == items@.take(i as int),
                decreases items.len() - i,
            {
                list.push(items[i]);
                assert(list@ =~= items@.take(i + 1));
                i += 1;
            }
            assert(items@.take(items.len() as int) =~= items@);
            list
        },
        Selection::Single(i) => {
            let mut list: Vec<Option<T>> = Vec::new();
            list.push(items[i]);
            assert(list@ =~= seq![items@[i as int]]);
            list
        },
        Selection::Pair(i, j) => {
            let mut list: Vec<Option<T>> = Vec::new();
            list.push(items[i]);
            list.push(items[j]);
            assert(list@ =~= seq![items@[i as int], items@[j as int]]);
            list
        },
        Selection::Triple(i, j, k) => {
            let mut list: Vec<Option<T>> = Vec::new();
            list.push(items[i]);
            list.push(items[j]);
            list.push(items[k]);
            assert(list@ =~= seq![items@[i as int], items@[j as int], items@[k as int]]);
            list
        },
        Selection::Padded(i, j) => {
            let mut list: Vec<Option<T>> = Vec::new();
            list.push(items[i]);
            list.push(Some(zero));
            list.push(items[j]);
            assert(list@ =~= seq![items@[i as int], Some(zero), items@[j as int]]);
            list
        },
        Selection::Nulls(n) => nulls(n),
    }
}

/// A copy of an optional string.
pub fn copy_text(item: &Option<String>) -> (copy: Option<String>)
    ensures
        copy.deep_view() == item.deep_view(),
{
    match item {
        Some(text) => Some(text.clone()),
        None => None,
    }
}

/// Makes the list of a selection from an array of strings; a padded
/// selection has `.` in the middle.
pub fn select_strings(sel: Selection, items: &Vec<Option<String>>) -> (list: Vec<Option<String>>)
    requires
        selection_in_range(sel, items.len()),
    ensures
        list.deep_view() == selected(sel, items.deep_view(), "."@),
{
    let ghost all = items.deep_view();
    assert(forall|i: int| 0 <= i < items.len() ==> all[i] == #[trigger] items@[i].deep_view());
    match sel {
        Selection::Reject => {
            let list: Vec<Option<String>> = Vec::new();
            assert(list.deep_view() =~= Seq::empty());
            list
        },
        Selection::Whole => {
            let mut list: Vec<Option<String>> = Vec::new();
            let mut i: usize = 0;
            while i < items.len()
                invariant
                    i <= items.len(),
                    all == items.deep_view(),
                    list.deep_view() =~= all.take(i as int),
                decreases items.len() - i,
            {
                let ghost before = list.deep_view();
                list.push(copy_text(&items[i]));
                assert(all[i as int] == items@[i as int].deep_view());
                assert(list.deep_view() =~= before.push(all[i as int]));
                assert(list.deep_view() =~= all.take(i + 1));
                i += 1;
            }
            assert(all.take(items.len() as int) =~= all);
            list
        },
        Selection::Single(i) => {
            let mut list: Vec<Option<String>> = Vec::new();
            list.push(copy_text(&items[i]));
            assert(list.deep_view() =~= seq![all[i as int]]);
            list
        },
        Selection::Pair(i, j) => {
            let mut list: Vec<Option<String>> = Vec::new();
            list.push(copy_text(&items[i]));
            list.push(copy_text(&items[j]));
            assert(list.deep_view() =~= seq![all[i as int], all[j as int]]);
            list
        },
        Selection::Triple(i, j, k) => {
            let mut list: Vec<Option<String>> = Vec::new();
            list.push(copy_text(&items[i]));
            list.push(copy_text(&items[j]));
            list.push(copy_text(&items[k]));
            assert(list.deep_view() =~= seq![all[i as int], all[j as int], all[k as int]]);
            list
        },
        Selection::Padded(i, j) => {
            let mut list: Vec<Option<String>> = Vec::new();
            list.push(copy_text(&items[i]));
            list.push(Some(String::from_str(".")));
            list.push(copy_text(&items[j]));
            assert(list.deep_view() =~= seq![all[i as int], Some("."@), all[j as int]]);
            list
        },
        Selection::Nulls(n) => {
            let list: Vec<Option<String>> = nulls(n);
            assert(list.deep_view() =~= Seq::new(n as nat, |k: int| None::<Seq<char>>));
            list
        },
    }
}

/// The cell of a field that the record does not have, or has without a
/// value: `false` for a flag, null in a scalar column, and in a list column
/// as many nulls as the field is declared to hold (two for `R`, three for
/// `G`, none for an unknown count).
pub open spec fn missing_cell(ty: Type, number: Number) -> CellView {
    let n: nat = match number {
        Number::Count(n) => n as nat,
        Number::R => 2,
        Number::G => 3,
        _ => 0,
    };
    if ty == Type::Flag {
        CellView::Bool(false)
    } else if !is_list_number(number) {
        CellView::Null
    } else {
        match value_kind_of(ty) {
            ValueKind::Int32 => CellView::ListInt(Seq::new(n, |k: int| None)),
            ValueKind::Float32 => CellView::ListFloat(Seq::new(n, |k: int| None)),
            _ => CellView::ListString(Seq::new(n, |k: int| None)),
        }
    }
}

/// The cell that a scalar picked out of an array makes.
pub open spec fn int_cell(item: Option<i32>) -> CellView {
    match item {
        Some(v) => CellView::Int(v),
        None => CellView::Null,
    }
}

pub open spec fn float_cell(item: Option<u32>) -> CellView {
    match item {
        Some(v) => CellView::Float(v),
        None => CellView::Null,
    }
}

pub open spec fn string_cell(item: Option<Seq<char>>) -> CellView {
    match item {
        Some(v) => CellView::String(v),
        None => CellView::Null,
    }
}

/// The cell of an array for the row of alternate allele `alt_id`.
pub open spec fn array_cell(
    ty: Type,
    number: Number,
    array: ArrayView,
    alt_id: usize,
    alt_count: usize,
) -> Result<CellView, Error> {
    match array {
        ArrayView::Integer(items) => {
            let sel = selection(number, items.len() as usize, alt_id, alt_count);
            if ty != Type::Integer || sel == Selection::Reject {
                Err(Error::Decode)
            } else if let Selection::Single(i) = sel {
                Ok(int_cell(items[i as int]))
            } else {
                Ok(CellView::ListInt(selected(sel, items, 0i32)))
            }
        },
        ArrayView::Float(items) => {
            let sel = selection(number, items.len() as usize, alt_id, alt_count);
            if ty != Type::Float || sel == Selection::Reject {
                Err(Error::Decode)
            } else if let Selection::Single(i) = sel {
                Ok(float_cell(items[i as int]))
            } else {
                Ok(CellView::ListFloat(selected(sel, items, 0u32)))
            }
        },
        ArrayView::String(items) => {
            let sel = selection(number, items.len() as usize, alt_id, alt_count);
            if (ty != Type::String && ty != Type::Character) || sel == Selection::Reject {
                Err(Error::Decode)
            } else if let Selection::Single(i) = sel {
                Ok(string_cell(items[i as int]))
            } else {
                Ok(CellView::ListString(selected(sel, items, "."@)))
            }
        },
    }
}

/// The cell of a field for the row of alternate allele `alt_id`, out of
/// `alt_count`.
///
/// A missing value gives `missing_cell`. A single value goes into a scalar
/// column of its own type as it is. An array is cut down by `selection`. A
/// value of another type than the field declares, a single value where a
/// list is declared and an array where a single value is declared are
/// refused.
pub open spec fn field_cell(
    ty: Type,
    number: Number,
    value: Option<ValueView>,
    alt_id: usize,
    alt_count: usize,
) -> Result<CellView, Error> {
    match value {
        None => Ok(missing_cell(ty, number)),
        Some(ValueView::Flag) => if ty == Type::Flag && !is_list_number(number) {
            Ok(CellView::Bool(true))
        } else {
            Err(Error::Decode)
        },
        Some(ValueView::Integer(v)) => if ty == Type::Integer && !is_list_number(number) {
            Ok(CellView::Int(v))
        } else {
            Err(Error::Decode)
        },
        Some(ValueView::Float(v)) => if ty == Type::Float && !is_list_number(number) {
            Ok(CellView::Float(v))
        } else {
            Err(Error::Decode)
        },
        Some(ValueView::String(v)) => if (ty == Type::String || ty == Type::Character)
            && !is_list_number(number) {
            Ok(CellView::String(v))
        } else {
            Err(Error::Decode)
        },
        Some(ValueView::Array(array)) => array_cell(ty, number, array, alt_id, alt_count),
    }
}

/// Whether a definition has a column: a flag cannot be a list.
pub open spec fn supported(ty: Type, number: Number) -> bool {
    !(ty == Type::Flag && is_list_number(number))
}

/// The cell of a supported field fits the column derived from its definition.
pub proof fn lemma_field_cell_fits(
    ty: Type,
    number: Number,
    value: Option<ValueView>,
    alt_id: usize,
    alt_count: usize,
)
    requires
        supported(ty, number),
    ensures
        field_cell(ty, number, value, alt_id, alt_count) matches Ok(cell) ==> cell_fits(
            cell,
            value_kind_of(ty),
            is_list_number(number),
        ),
{
}

/// The mathematical value of a computed cell or its refusal.
pub open spec fn outcome(result: Result<Cell, Error>) -> Result<CellView, Error> {
    match result {
        Ok(cell) => Ok(cell.deep_view()),
        Err(e) => Err(e),
    }
}

/// Whether a declared type is stored as text.
pub fn is_text(ty: Type) -> (yes: bool)
    ensures
        yes == (ty == Type::String || ty == Type::Character),
{
    match ty {
        Type::String => true,
        Type::Character => true,
        _ => false,
    }
}

/// Computes `is_list_number`.
pub fn is_list(number: Number) -> (yes: bool)
    ensures
        yes == is_list_number(number),
{
    match number {
        Number::Count(n) => n > 1,
        Number::A => false,
        _ => true,
    }
}

/// Computes `missing_cell`.
pub fn cell_of_missing(ty: Type, number: Number) -> (cell: Cell)
    ensures
        cell.deep_view() == missing_cell(ty, number),
{
    let n: usize = match number {
        Number::Count(n) => n,
        Number::R => 2,
        Number::G => 3,
        _ => 0,
    };
    match ty {
        Type::Flag => Cell::Bool(false),
        Type::Integer => if is_list(number) {
            Cell::ListInt(nulls(n))
        } else {
            Cell::Null
        },
        Type::Float => if is_list(number) {
            Cell::ListFloat(nulls(n))
        } else {
            Cell::Null
        },
        _ => if is_list(number) {
            let list: Vec<Option<String>> = nulls(n);
            assert(list.deep_view() =~= Seq::new(n as nat, |k: int| None::<Seq<char>>));
            Cell::ListString(list)
        } else {
            Cell::Null
        },
    }
}

/// Computes `array_cell`.
pub fn cell_of_array(
    ty: Type,
    number: Number,
    array: &Array,
    alt_id: usize,
    alt_count: usize,
) -> (result: Result<Cell, Error>)
    requires
        alt_id < alt_count,
    ensures
        outcome(result) == array_cell(ty, number, array.deep_view(), alt_id, alt_count),
{
    match array {
        Array::Integer(items) => {
            let sel = select(number, items.len(), alt_id, alt_count);
            match (ty, sel) {
                (Type::Integer, Selection::Reject) => Err(Error::Decode),
                (Type::Integer, Selection::Single(i)) => match items[i] {
                    Some(v) => Ok(Cell::Int(v)),
                    None => Ok(Cell::Null),
                },
                (Type::Integer, _) => Ok(Cell::ListInt(select_items(sel, items, 0i32))),
                _ => Err(Error::Decode),
            }
        },
        Array::Float(items) => {
            let sel = select(number, items.len(), alt_id, alt_count);
            match (ty, sel) {
                (Type::Float, Selection::Reject) => Err(Error::Decode),
                (Type::Float, Selection::Single(i)) => match items[i] {
                    Some(v) => Ok(Cell::Float(v)),
                    None => Ok(Cell::Null),
                },
                (Type::Float, _) => Ok(Cell::ListFloat(select_items(sel, items, 0u32))),
                _ => Err(Error::Decode),
            }
        },
        Array::String(items) => {
            let sel = select(number, items.len(), alt_id, alt_count);
            assert(items.deep_view().len() == items.len());
            if !is_text(ty) {
                return Err(Error::Decode);
            }
            match sel {
                Selection::Reject => Err(Error::Decode),
                Selection::Single(i) => {
                    assert(items.deep_view()[i as int] == items@[i as int].deep_view());
                    match &items[i] {
                        Some(v) => Ok(Cell::String(v.clone())),
                        None => Ok(Cell::Null),
                    }
                },
                _ => Ok(Cell::ListString(select_strings(sel, items))),
            }
        },
    }
}

/// Computes `field_cell`: the cell of an INFO field, or of a FORMAT field
/// other than the genotype.
pub fn cell_of_field(
    ty: Type,
    number: Number,
    value: Option<&Value>,
    alt_id: usize,
    alt_count: usize,
) -> (result: Result<Cell, Error>)
    requires
        alt_id < alt_count,
    ensures
        outcome(result) == field_cell(ty, number, value.deep_view(), alt_id, alt_count),
{
    let scalar: bool = !is_list(number);
    match value {
        None => Ok(cell_of_missing(ty, number)),
        Some(Value::Flag) => match ty {
            Type::Flag => if scalar {
                Ok(Cell::Bool(true))
            } else {
                Err(Error::Decode)
            },
            _ => Err(Error::Decode),
        },
        Some(Value::Integer(v)) => match ty {
            Type::Integer => if scalar {
                Ok(Cell::Int(*v))
            } else {
                Err(Error::Decode)
            },
            _ => Err(Error::Decode),
        },
        Some(Value::Float(v)) => match ty {
            Type::Float => if scalar {
                Ok(Cell::Float(*v))
            } else {
                Err(Error::Decode)
            },
            _ => Err(Error::Decode),
        },
        Some(Value::String(v)) => if is_text(ty) && scalar {
            Ok(Cell::String(v.clone()))
        } else {
            Err(Error::Decode)
        },
        Some(Value::Array(array)) => cell_of_array(ty, number, array, alt_id, alt_count),
    }
}

/// Whether a FORMAT field is the genotype, held as text: its key is `GT` and
/// its column a scalar column of strings.
pub open spec fn is_genotype_field(key: Seq<char>, ty: Type, number: Number) -> bool {
    key == "GT"@ && (ty == Type::String || ty == Type::Character) && !is_list_number(number)
}

/// The cell of the calls of a genotype for the row of alternate allele
/// `alt_id`: the text written anew from them, refused where there are none
/// because the text did not parse.
pub open spec fn genotype_cell(
    calls: Option<Seq<crate::genotype::Allele>>,
    alt_id: usize,
) -> Result<CellView, Error> {
    match calls {
        Some(calls) => Ok(CellView::String(genotype_text(calls, alt_id))),
        None => Err(Error::Decode),
    }
}

/// The cell of a FORMAT field of one sample for the row of alternate allele
/// `alt_id`: as `field_cell`, but a genotype is written anew for the allele,
/// and a missing one is `./.`. A genotype text that is not ASCII is no
/// genotype and is refused.
pub open spec fn format_cell(
    key: Seq<char>,
    ty: Type,
    number: Number,
    value: Option<ValueView>,
    alt_id: usize,
    alt_count: usize,
) -> Result<CellView, Error> {
    if is_genotype_field(key, ty, number) {
        match value {
            None => Ok(CellView::String("./."@)),
            Some(ValueView::String(text)) => if vstd::utf8::is_ascii_chars(text) {
                genotype_cell(parsed_genotype(text), alt_id)
            } else {
                Err(Error::Decode)
            },
            Some(_) => field_cell(ty, number, value, alt_id, alt_count),
        }
    } else {
        field_cell(ty, number, value, alt_id, alt_count)
    }
}

/// Computes `genotype_cell` from the calls of a parsed genotype.
pub fn cell_of_genotype(
    calls: Option<Vec<crate::genotype::Allele>>,
    alt_id: usize,
) -> (result: Result<Cell, Error>)
    ensures
        outcome(result) == genotype_cell(
            match calls {
                Some(v) => Some(v@),
                None => None,
            },
            alt_id,
        ),
{
    match calls {
        Some(calls) => Ok(Cell::String(genotype_string(&calls, alt_id))),
        None => Err(Error::Decode),
    }
}

/// Computes `format_cell`.
pub fn cell_of_format(
    key: &String,
    ty: Type,
    number: Number,
    value: Option<&Value>,
    alt_id: usize,
    alt_count: usize,
) -> (result: Result<Cell, Error>)
    requires
        alt_id < alt_count,
    ensures
        outcome(result) == format_cell(key@, ty, number, value.deep_view(), alt_id, alt_count),
{
    let genotype_key = String::from_str("GT");
    if *key == genotype_key && is_text(ty) && !is_list(number) {
        match value {
            None => Ok(Cell::String(String::from_str("./."))),
            Some(Value::String(text)) => if text.as_str().is_ascii() {
                cell_of_genotype(parse_genotype(text.as_str()), alt_id)
            } else {
                Err(Error::Decode)
            },
            Some(_) => cell_of_field(ty, number, value, alt_id, alt_count),
        }
    } else {
        cell_of_field(ty, number, value, alt_id, alt_count)
    }
}

/// The cell of a supported FORMAT field fits the column derived from its
/// definition.
pub proof fn lemma_format_cell_fits(
    key: Seq<char>,
    ty: Type,
    number: Number,
    value: Option<ValueView>,
    alt_id: usize,
    alt_count: usize,
)
    requires
        supported(ty, number),
    ensures
        format_cell(key, ty, number, value, alt_id, alt_count) matches Ok(cell) ==> cell_fits(
            cell,
            value_kind_of(ty),
            is_list_number(number),
        ),
{
}

/// A field is refused only as `Decode`.
pub proof fn lemma_field_cell_refusal(
    ty: Type,
    number: Number,
    value: Option<ValueView>,
    alt_id: usize,
    alt_count: usize,
)
    ensures
        field_cell(ty, number, value, alt_id, alt_count) matches Err(e) ==> e == Error::Decode,
{
}

/// A FORMAT field is refused only as `Decode`.
pub proof fn lemma_format_cell_refusal(
    key: Seq<char>,
    ty: Type,
    number: Number,
    value: Option<ValueView>,
    alt_id: usize,
    alt_count: usize,
)
    ensures
        format_cell(key, ty, number, value, alt_id, alt_count) matches Err(e) ==> e == Error::Decode,
{
}

} // verus!
