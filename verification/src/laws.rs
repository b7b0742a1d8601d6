//! What holds of the library as a whole, proved from the contracts of its
//! functions.

use vstd::prelude::*;

use crate::builder::{array_cells, ColumnArray};
use crate::cell::{
    genotype_count, genotype_index, lemma_genotype_index_bound, selection, CellView, Selection,
};
use crate::error::Error;
use crate::field::{field_cell, format_cell, supported};
use crate::header::{HeaderView, Number, Type};
use crate::name2data::Name2Data;
use crate::record::{info_value, RecordView, ValueView};
use crate::record2chunk::total_rows;
use crate::row::{info_cell, row_cell, rows, width};
use crate::schema::{
    derives, format_fields, header_supported, info_fields, required_fields, schema_fields,
    takes_null_rows, FieldSpecView,
};

verus! {

/// The items of a cell that is a list.
pub open spec fn list_length(cell: CellView) -> Option<nat> {
    match cell {
        CellView::ListBool(list) => Some(list.len()),
        CellView::ListInt(list) => Some(list.len()),
        CellView::ListFloat(list) => Some(list.len()),
        CellView::ListString(list) => Some(list.len()),
        _ => None,
    }
}

/// Whether a cell is a list of `n` nulls.
pub open spec fn is_nulls(cell: CellView, n: nat) -> bool {
    match cell {
        CellView::ListBool(list) => list == Seq::new(n, |k: int| None::<bool>),
        CellView::ListInt(list) => list == Seq::new(n, |k: int| None::<i32>),
        CellView::ListFloat(list) => list == Seq::new(n, |k: int| None::<u32>),
        CellView::ListString(list) => list == Seq::new(n, |k: int| None::<Seq<char>>),
        _ => false,
    }
}

/// Rows of these records where each counts for one at least.
pub open spec fn rows_at_least_one_each(records: Seq<RecordView>) -> nat
    decreases records.len(),
{
    if records.len() == 0 {
        0
    } else {
        let n = records.last().alternate_bases.len();
        rows_at_least_one_each(records.drop_last()) + if n >= 1 {
            n
        } else {
            1
        }
    }
}

/// Row count: a record has one row for each of its alternate alleles, each
/// with a cell for every column.
pub proof fn law_record_rows(record: RecordView, header: HeaderView)
    ensures
        rows(record, header).len() == record.alternate_bases.len(),
        forall|a: int|
            0 <= a < record.alternate_bases.len() ==> (#[trigger] rows(record, header)[a]).len()
                == width(header),
{
}

/// Row count: the rows of records that each have an alternate allele are as
/// many as the alternate alleles of all of them, each record counting for
/// one at least.
pub proof fn law_row_count(records: Seq<RecordView>)
    requires
        forall|i: int| 0 <= i < records.len() ==> (#[trigger] records[i]).alternate_bases.len() >= 1,
    ensures
        total_rows(records) == rows_at_least_one_each(records),
    decreases records.len(),
{
    if records.len() > 0 {
        let rest = records.drop_last();
        assert forall|i: int| 0 <= i < rest.len() implies (#[trigger] rest[i]).alternate_bases.len()
            >= 1 by {
            assert(rest[i] == records[i]);
        }
        law_row_count(rest);
        assert(records.last() == records[records.len() - 1]);
    }
}

/// Column length: the arrays that a store freezes into all have the length
/// of the store, its number of rows.
pub proof fn law_column_length(store: Name2Data, arrays: Seq<ColumnArray>, i: int, j: int)
    requires
        store.wf(),
        store.frozen(arrays),
        0 <= i < arrays.len(),
        0 <= j < arrays.len(),
    ensures
        array_cells(arrays[i]).len() == store.height(),
        array_cells(arrays[i]).len() == array_cells(arrays[j]).len(),
{
    assert(array_cells(arrays[i]) == store.columns@[i]@);
    assert(array_cells(arrays[j]) == store.columns@[j]@);
    assert(store.columns@[i]@.len() == store.height());
    assert(store.columns@[j]@.len() == store.height());
}

/// Arity of `R`: a field declared with one value per allele gives every row
/// a list of two items, whatever the record holds for it, and two nulls
/// where the record holds nothing or holds an array of another length than
/// the alleles.
pub proof fn law_allele_pair_arity(
    ty: Type,
    value: Option<ValueView>,
    alt_id: usize,
    alt_count: usize,
)
    requires
        ty != Type::Flag,
        alt_id < alt_count,
    ensures
        field_cell(ty, Number::R, value, alt_id, alt_count) matches Ok(cell) ==> list_length(cell)
            == Some(2nat),
        value is None ==> field_cell(ty, Number::R, value, alt_id, alt_count) is Ok && is_nulls(
            field_cell(ty, Number::R, value, alt_id, alt_count)->Ok_0,
            2,
        ),
        forall|key: Seq<char>|
            (#[trigger] format_cell(key, ty, Number::R, value, alt_id, alt_count))
                == field_cell(ty, Number::R, value, alt_id, alt_count),
{
    assert(Seq::new(2, |k: int| None::<i32>).len() == 2);
    assert(Seq::new(2, |k: int| None::<u32>).len() == 2);
    assert(Seq::new(2, |k: int| None::<Seq<char>>).len() == 2);
}

/// Arity of `G`: a field declared with one value per genotype gives every
/// row a list of three items, whatever the record holds for it.
pub proof fn law_genotype_arity(ty: Type, value: Option<ValueView>, alt_id: usize, alt_count: usize)
    requires
        ty != Type::Flag,
        alt_id < alt_count,
    ensures
        field_cell(ty, Number::G, value, alt_id, alt_count) matches Ok(cell) ==> list_length(cell)
            == Some(3nat),
{
    assert(Seq::new(3, |k: int| None::<i32>).len() == 3);
    assert(Seq::new(3, |k: int| None::<u32>).len() == 3);
    assert(Seq::new(3, |k: int| None::<Seq<char>>).len() == 3);
}

/// Flag default: a flag that a record does not hold is `false` in every row,
/// never null.
pub proof fn law_flag_default(number: Number, alt_id: usize, alt_count: usize)
    ensures
        field_cell(Type::Flag, number, None, alt_id, alt_count) == Ok::<CellView, Error>(
            CellView::Bool(false),
        ),
{
}

/// Flag default, for the INFO definitions of a header: where definition `i`
/// is a flag and the record has no value for its key, the cell is `false`.
pub proof fn law_info_flag_default(record: RecordView, header: HeaderView, alt_id: int, i: int)
    requires
        0 <= i < header.infos.len(),
        header.infos[i].ty == Type::Flag,
        info_value(record.info, header.infos[i].key) is None,
    ensures
        info_cell(record, header, alt_id, i) == Ok::<CellView, Error>(CellView::Bool(false)),
{
}

/// Missing fixed list: a field declared with a count of `n` above one, and
/// not a flag, that a record does not hold gives every row a list of `n`
/// nulls, not a null.
pub proof fn law_missing_fixed_list(ty: Type, n: usize, alt_id: usize, alt_count: usize)
    requires
        ty != Type::Flag,
        n > 1,
    ensures
        field_cell(ty, Number::Count(n), None, alt_id, alt_count) is Ok,
        is_nulls(field_cell(ty, Number::Count(n), None, alt_id, alt_count)->Ok_0, n as nat),
        list_length(field_cell(ty, Number::Count(n), None, alt_id, alt_count)->Ok_0) == Some(
            n as nat,
        ),
{
    assert(Seq::new(n as nat, |k: int| None::<i32>).len() == n);
    assert(Seq::new(n as nat, |k: int| None::<u32>).len() == n);
    assert(Seq::new(n as nat, |k: int| None::<Seq<char>>).len() == n);
}

/// Idempotence: deriving the schema of one header twice gives the same:
/// the same columns in the same order, or the same failure.
pub proof fn law_schema_idempotent(
    header: HeaderView,
    info_optional: bool,
    first: Result<Seq<FieldSpecView>, Error>,
    second: Result<Seq<FieldSpecView>, Error>,
)
    requires
        derives(header, info_optional, first),
        derives(header, info_optional, second),
    ensures
        first == second,
{
}

/// Names: the required columns and the INFO columns have names of their
/// own where no two INFO definitions have the same key, and none of them
/// has the name of a FORMAT column.
pub proof fn law_names_distinct(header: HeaderView, info_optional: bool, i: int, j: int)
    requires
        forall|a: int, b: int|
            0 <= a < b < header.infos.len() ==> (#[trigger] header.infos[a]).key != (
            #[trigger] header.infos[b]).key,
        0 <= i < j < width(header),
        i < 7 + header.infos.len(),
    ensures
        schema_fields(header, info_optional)[i].name != schema_fields(header, info_optional)[j].name,
{
    reveal_strlit("chromosome");
    reveal_strlit("position");
    reveal_strlit("identifier");
    reveal_strlit("reference");
    reveal_strlit("alternate");
    reveal_strlit("quality");
    reveal_strlit("filter");
    reveal_strlit("info_");
    reveal_strlit("format_");
    let fields = schema_fields(header, info_optional);
    let infos = header.infos.len() as int;
    let first = fields[i].name;
    let second = fields[j].name;
    if i < 7 {
        assert(first == required_fields()[i].name);
        if j < 7 {
            assert(second == required_fields()[j].name);
            assert(first.len() != second.len() || first[0] != second[0]);
        } else if j < 7 + infos {
            assert(second == "info_"@ + header.infos[j - 7].key);
            assert(second[0] == 'i' && second[1] == 'n');
            assert(first[0] != 'i' || first[1] != 'n');
        } else {
            let k = j - 7 - infos;
            assert(second == format_fields(header.sample_names, header.formats)[k].name);
            assert(second[0] == 'f' && second[1] == 'o');
            assert(first[0] != 'f' || first[1] != 'o');
        }
    } else {
        let key = header.infos[i - 7].key;
        assert(first == "info_"@ + key);
        assert(first[0] == 'i');
        if j < 7 + infos {
            let other = header.infos[j - 7].key;
            assert(second == "info_"@ + other);
            assert(key != other);
            assert(first.skip(5) =~= key);
            assert(second.skip(5) =~= other);
        } else {
            let k = j - 7 - infos;
            assert(second == format_fields(header.sample_names, header.formats)[k].name);
            assert(second[0] == 'f');
        }
    }
}

/// Triangular selection: in an array with an entry for each genotype, the
/// row of alternate allele `alt_id` holds the entries of the genotypes of
/// the reference with itself, of the reference with the allele and of the
/// allele with itself, which lie at 0, at `(alt_id^2 + 3 alt_id + 2) / 2`
/// and at `(alt_id^2 + 5 alt_id + 4) / 2`.
pub proof fn law_genotype_triple(len: usize, alt_id: usize, alt_count: usize)
    requires
        alt_id < alt_count,
        len == genotype_count((alt_count + 1) as nat),
    ensures
        genotype_index(0, 0) == 0,
        genotype_index(0, (alt_id + 1) as nat) == (alt_id * alt_id + 3 * alt_id + 2) / 2,
        genotype_index((alt_id + 1) as nat, (alt_id + 1) as nat) == (alt_id * alt_id + 5 * alt_id
            + 4) / 2,
        selection(Number::G, len, alt_id, alt_count) == Selection::Triple(
            0,
            ((alt_id * alt_id + 3 * alt_id + 2) / 2) as usize,
            ((alt_id * alt_id + 5 * alt_id + 4) / 2) as usize,
        ),
        (alt_id * alt_id + 5 * alt_id + 4) / 2 < len,
{
    let b = (alt_id + 1) as nat;
    assert(b * (b + 1) / 2 + 0 == (alt_id * alt_id + 3 * alt_id + 2) / 2) by (nonlinear_arith)
        requires
            b == alt_id + 1,
    ;
    assert(b * (b + 1) / 2 + b == (alt_id * alt_id + 5 * alt_id + 4) / 2) by (nonlinear_arith)
        requires
            b == alt_id + 1,
    ;
    assert(0 * (0 + 1) / 2 + 0 == 0) by (nonlinear_arith);
    lemma_genotype_index_bound(b, (alt_count + 1) as nat);
}

/// Null rows: in the row of a record for a header whose definitions all
/// have a column, a null stands in place of a list only in the required
/// columns, so that every null in place of a list stands where
/// `takes_null_rows` says that the writer is to take one.
pub proof fn law_null_list_rows(
    record: RecordView,
    header: HeaderView,
    info_optional: bool,
    alt_id: int,
    c: int,
)
    requires
        header_supported(header),
        0 <= alt_id < record.alternate_bases.len(),
        0 <= c < width(header),
        schema_fields(header, info_optional)[c].cardinality.holds_lists(),
        row_cell(record, header, alt_id, c) == Ok::<CellView, Error>(CellView::Null),
    ensures
        c < 7,
        takes_null_rows(schema_fields(header, info_optional)[c], c),
{
    let infos = header.infos.len() as int;
    let formats = header.formats.len() as int;
    let fields = schema_fields(header, info_optional);
    if c >= 7 + infos {
        let k = c - 7 - infos;
        assert(fields[c] == format_fields(header.sample_names, header.formats)[k]);
        vstd::arithmetic::div_mod::lemma_fundamental_div_mod(k, formats);
        vstd::arithmetic::div_mod::lemma_mod_bound(k, formats);
        let def = header.formats[k % formats];
        assert(supported(def.ty, def.number));
        assert(false);
    } else if c >= 7 {
        let def = header.infos[c - 7];
        assert(fields[c] == info_fields(header.infos, info_optional)[c - 7]);
        assert(supported(def.ty, def.number));
        assert(false);
    }
}

} // verus!
