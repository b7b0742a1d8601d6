//! The columns of one batch, by name and in schema order.

use vstd::prelude::*;

use crate::builder::{array_cells, ColumnArray};
use crate::cell::{cell_fits, Cell, CellView};
use crate::columndata::{cell_bytes, cell_has_null, cell_items, ColumnData};
use crate::error::Error;
use crate::header::{Header, HeaderView};
use crate::measure::OFFSET_MAX;
use crate::record::{Record, RecordView};
use crate::row::{record_rows, record_valid, row, row_cell, row_valid, rows, width};
use crate::schema::{
    format_fields, header_supported, info_fields, required_fields, schema_fields, FieldSpecView,
    Schema,
};

verus! {

/// Items that the first `r` rows add to column `i`.
pub open spec fn column_items(rows: Seq<Seq<CellView>>, i: int, r: nat) -> nat
    decreases r,
{
    if r == 0 {
        0
    } else {
        column_items(rows, i, (r - 1) as nat) + cell_items(rows[r - 1][i])
    }
}

/// Bytes of text that the first `r` rows add to column `i`.
pub open spec fn column_bytes(rows: Seq<Seq<CellView>>, i: int, r: nat) -> nat
    decreases r,
{
    if r == 0 {
        0
    } else {
        column_bytes(rows, i, (r - 1) as nat) + cell_bytes(rows[r - 1][i])
    }
}

/// Whether one of the first `r` rows has in column `i` a list that holds a null.
pub open spec fn column_has_null(rows: Seq<Seq<CellView>>, i: int, r: nat) -> bool {
    exists|k: int| 0 <= k < r && cell_has_null(#[trigger] rows[k][i])
}

/// The cells that the first `r` rows have in column `i`.
pub open spec fn column_cells(rows: Seq<Seq<CellView>>, i: int, r: nat) -> Seq<CellView> {
    Seq::new(r, |k: int| rows[k][i])
}

/// Whether a schema is that of a header whose definitions all have a column.
pub open spec fn derived(schema: Seq<FieldSpecView>, header: HeaderView) -> bool {
    header_supported(header) && (schema == schema_fields(header, true) || schema
        == schema_fields(header, false))
}

/// The columns of a batch under construction: the names of a schema, and for
/// each the column that grows under it.
pub struct Name2Data {
    pub names: Vec<String>,
    pub columns: Vec<ColumnData>,
}

impl Name2Data {
    /// The cells of each column, in schema order.
    pub open spec fn cells(&self) -> Seq<Seq<CellView>> {
        Seq::new(self.columns@.len(), |i: int| self.columns@[i]@)
    }

    /// Number of rows, which every column of a well-formed store has.
    pub open spec fn height(&self) -> nat {
        if self.columns@.len() == 0 {
            0
        } else {
            self.columns@[0]@.len()
        }
    }

    /// The invariant of a store: one well-formed column for each name, all
    /// of one length.
    pub open spec fn wf(&self) -> bool {
        &&& self.names@.len() == self.columns@.len()
        &&& forall|i: int| 0 <= i < self.columns@.len() ==> (#[trigger] self.columns@[i]).wf()
        &&& forall|i: int|
            0 <= i < self.columns@.len() ==> (#[trigger] self.columns@[i])@.len() == self.height()
    }

    /// Whether the store has the columns of a schema: their names, the type
    /// of their values, whether they hold lists, and for lists whether their
    /// items may be null.
    pub open spec fn matches(&self, schema: Seq<FieldSpecView>) -> bool {
        &&& self.columns@.len() == schema.len()
        &&& self.names.deep_view() == Seq::new(schema.len(), |i: int| schema[i].name)
        &&& forall|i: int|
            0 <= i < schema.len() ==> {
                let column = #[trigger] self.columns@[i];
                &&& column.value_kind() == schema[i].value_kind
                &&& column.holds_lists() == schema[i].cardinality.holds_lists()
                &&& column.holds_lists() ==> column.list_state()->0.name@ == schema[i].name
                    && column.items_nullable() == schema[i].nullable
            }
    }

    /// Whether `after` has the columns of this store, whatever they hold.
    pub open spec fn same_columns(&self, after: &Name2Data) -> bool {
        &&& after.names == self.names
        &&& after.columns@.len() == self.columns@.len()
        &&& forall|i: int|
            0 <= i < self.columns@.len() ==> (#[trigger] self.columns@[i]).same_column(
                &after.columns@[i],
            )
    }

    /// Whether a row has one cell for each column, and each fits its column.
    pub open spec fn row_fits(&self, row: Seq<CellView>) -> bool {
        &&& row.len() == self.columns@.len()
        &&& forall|i: int|
            0 <= i < row.len() ==> cell_fits(
                #[trigger] row[i],
                self.columns@[i].value_kind(),
                self.columns@[i].holds_lists(),
            )
    }

    /// Whether every column has room for its cell of a row.
    pub open spec fn row_room(&self, row: Seq<CellView>) -> bool {
        forall|i: int|
            0 <= i < self.columns@.len() ==> (#[trigger] self.columns@[i]).room_for(row[i])
    }

    /// Whether `after` is this store with one more row.
    pub open spec fn row_pushed(&self, after: &Name2Data, row: Seq<CellView>) -> bool {
        &&& after.names == self.names
        &&& after.columns@.len() == self.columns@.len()
        &&& forall|i: int|
            0 <= i < self.columns@.len() ==> (#[trigger] self.columns@[i]).pushed(
                &after.columns@[i],
                row[i],
            )
    }

    /// Create a new store with an empty column for each field of a schema.
    /// `length` is the number of rows to reserve room for.
    pub fn new(length: usize, schema: &Schema) -> (store: Name2Data)
        ensures
            store.wf(),
            store.matches(schema.deep_view()),
            store.height() == 0,
            forall|i: int|
                0 <= i < store.columns@.len() ==> {
                    let column = #[trigger] store.columns@[i];
                    column.items() == 0 && column.bytes() == 0 && !column.null_items()
                },
    {
        let ghost fields = schema.deep_view();
        let mut names: Vec<String> = Vec::new();
        let mut columns: Vec<ColumnData> = Vec::new();
        let mut i: usize = 0;
        while i < schema.fields.len()
            invariant
                i <= schema.fields.len(),
                fields == schema.fields.deep_view(),
                names@.len() == i,
                columns@.len() == i,
                names.deep_view() =~= Seq::new(i as nat, |k: int| fields[k].name),
                forall|k: int|
                    0 <= k < i ==> {
                        let column = #[trigger] columns@[k];
                        &&& column.wf()
                        &&& column@.len() == 0
                        &&& column.value_kind() == fields[k].value_kind
                        &&& column.holds_lists() == fields[k].cardinality.holds_lists()
                        &&& column.holds_lists() ==> column.list_state()->0.name@
                            == fields[k].name && column.items_nullable() == fields[k].nullable
                        &&& column.items() == 0
                        &&& column.bytes() == 0
                        &&& !column.null_items()
                    },
            decreases schema.fields.len() - i,
        {
            let field = &schema.fields[i];
            assert(fields[i as int] == field.deep_view());
            let column = ColumnData::new(
                field.value_kind,
                field.cardinality.is_list(),
                length,
                field.name.as_str(),
                field.nullable,
            );
            let ghost before = names.deep_view();
            names.push(field.name.clone());
            assert(names.deep_view() =~= before.push(fields[i as int].name));
            columns.push(column);
            i += 1;
        }
        Name2Data { names, columns }
    }

    /// Number of rows.
    pub fn len(&self) -> (n: usize)
        requires
            self.wf(),
        ensures
            n == self.height(),
    {
        if self.columns.len() == 0 {
            0
        } else {
            self.columns[0].len()
        }
    }

    /// The first column of this name, if there is one.
    pub fn get(&self, key: &str) -> (column: Option<&ColumnData>)
        requires
            self.names@.len() == self.columns@.len(),
        ensures
            match crate::record::position_of(self.names.deep_view(), key@) {
                Some(i) => 0 <= i < self.columns@.len() && column == Some(&self.columns@[i]),
                None => column is None,
            },
    {
        let wanted = key.to_owned();
        match crate::record::find_key(&self.names, &wanted) {
            Some(i) => Some(&self.columns[i]),
            None => None,
        }
    }

    /// The first column of this name, if there is one, to push into.
    pub fn get_mut(&mut self, key: &str) -> (column: Option<&mut ColumnData>)
        requires
            old(self).names@.len() == old(self).columns@.len(),
        ensures
            final(self).names == old(self).names,
            match crate::record::position_of(old(self).names.deep_view(), key@) {
                Some(i) => 0 <= i < old(self).columns@.len() && column is Some && *column->0
                    == old(self).columns@[i] && final(self).columns@ == old(self).columns@.update(
                    i,
                    *final(column->0),
                ),
                None => column is None && final(self).columns == old(self).columns,
            },
    {
        let wanted = key.to_owned();
        match crate::record::find_key(&self.names, &wanted) {
            Some(i) => Some(&mut self.columns[i]),
            None => None,
        }
    }

    /// Whether every column has room for its cell of a row.
    pub fn has_room(&self, row: &Vec<Cell>) -> (yes: bool)
        requires
            self.wf(),
            self.row_fits(row.deep_view()),
        ensures
            yes == self.row_room(row.deep_view()),
    {
        let ghost cells = row.deep_view();
        let mut i: usize = 0;
        while i < self.columns.len()
            invariant
                i <= self.columns@.len(),
                self.wf(),
                cells == row.deep_view(),
                self.row_fits(cells),
                forall|k: int| 0 <= k < i ==> (#[trigger] self.columns@[k]).room_for(cells[k]),
            decreases self.columns.len() - i,
        {
            assert(cells[i as int] == row@[i as int].deep_view());
            if !self.columns[i].has_room(&row[i]) {
                return false;
            }
            i += 1;
        }
        true
    }

    /// Adds one row: to each column its cell. Fails with `Overflow`, and
    /// leaves the store as it is, where a column has no room for its cell.
    pub fn push_row(&mut self, row: Vec<Cell>) -> (result: Result<(), Error>)
        requires
            old(self).wf(),
            old(self).row_fits(row.deep_view()),
        ensures
            final(self).wf(),
            old(self).same_columns(final(self)),
            match result {
                Ok(()) => old(self).row_room(row.deep_view()) && old(self).row_pushed(
                    final(self),
                    row.deep_view(),
                ),
                Err(e) => e == Error::Overflow && !old(self).row_room(row.deep_view())
                    && final(self).cells() == old(self).cells() && *final(self) == *old(self),
            },
    {
        if !self.has_room(&row) {
            return Err(Error::Overflow);
        }
        let ghost cells = row.deep_view();
        let mut row = row;
        let n: usize = self.columns.len();
        let mut i: usize = 0;
        while i < n
            invariant
                i <= n,
                n == self.columns@.len(),
                n == row@.len(),
                n == old(self).columns@.len(),
                cells.len() == n,
                self.names == old(self).names,
                old(self).wf(),
                old(self).row_fits(cells),
                old(self).row_room(cells),
                forall|k: int| i <= k < n ==> (#[trigger] row@[k]).deep_view() == cells[k],
                forall|k: int| i <= k < n ==> #[trigger] self.columns@[k] == old(self).columns@[k],
                forall|k: int|
                    0 <= k < i ==> (#[trigger] old(self).columns@[k]).pushed(
                        &self.columns@[k],
                        cells[k],
                    ),
            decreases n - i,
        {
            let mut cell = Cell::Null;
            std::mem::swap(&mut row[i], &mut cell);
            match self.columns[i].push(cell) {
                Ok(()) => {},
                Err(e) => {
                    assert(false);
                    return Err(e);
                },
            }
            i += 1;
        }
        assert(self.wf()) by {
            assert forall|k: int| 0 <= k < n implies (#[trigger] self.columns@[k])@.len()
                == self.height() by {
                assert(old(self).columns@[k].pushed(&self.columns@[k], cells[k]));
                assert(old(self).columns@[0].pushed(&self.columns@[0], cells[0]));
                assert(old(self).columns@[k]@.len() == old(self).height());
            }
            assert forall|k: int| 0 <= k < n implies (#[trigger] self.columns@[k]).wf() by {
                assert(old(self).columns@[k].pushed(&self.columns@[k], cells[k]));
            }
        }
        assert(old(self).same_columns(self)) by {
            assert forall|k: int| 0 <= k < n implies (#[trigger] old(self).columns@[k]).same_column(
                &self.columns@[k],
            ) by {
                assert(old(self).columns@[k].pushed(&self.columns@[k], cells[k]));
            }
        }
        Ok(())
    }
    /// Whether column `i` has room for what the first `r` rows add to it.
    pub open spec fn column_room(&self, rows: Seq<Seq<CellView>>, i: int, r: nat) -> bool {
        self.columns@[i].items() + column_items(rows, i, r) <= OFFSET_MAX
            && self.columns@[i].bytes() + column_bytes(rows, i, r) <= OFFSET_MAX
    }

    /// Whether every column has room for what the rows add to it.
    pub open spec fn rows_room(&self, rows: Seq<Seq<CellView>>) -> bool {
        forall|i: int, r: int|
            0 <= i < self.columns@.len() && 0 <= r <= rows.len() ==> #[trigger] self.column_room(
                rows,
                i,
                r as nat,
            )
    }

    /// Whether `after` is this store with the first `r` of the rows added.
    pub open spec fn rows_pushed(
        &self,
        after: &Name2Data,
        rows: Seq<Seq<CellView>>,
        r: nat,
    ) -> bool {
        &&& after.names == self.names
        &&& after.columns@.len() == self.columns@.len()
        &&& forall|i: int|
            0 <= i < self.columns@.len() ==> {
                let a = #[trigger] self.columns@[i];
                let b = after.columns@[i];
                &&& a.same_column(&b)
                &&& b@ == a@ + column_cells(rows, i, r)
                &&& b.items() == a.items() + column_items(rows, i, r)
                &&& b.bytes() == a.bytes() + column_bytes(rows, i, r)
                &&& b.null_items() == (a.null_items() || column_has_null(rows, i, r))
            }
    }

    /// Whether column `i` is blocked once the rows are added to it: its
    /// items may not be null, and one is, in the column or in the rows.
    pub open spec fn blocked_with(&self, rows: Seq<Seq<CellView>>, i: int) -> bool {
        !self.columns@[i].items_nullable() && (self.columns@[i].null_items() || column_has_null(
            rows,
            i,
            rows.len(),
        ))
    }

    /// Whether a column is blocked once the rows are added.
    pub open spec fn any_blocked_with(&self, rows: Seq<Seq<CellView>>) -> bool {
        exists|i: int| 0 <= i < self.columns@.len() && #[trigger] self.blocked_with(rows, i)
    }

    /// Whether `batch` is what this store with the rows added freezes into:
    /// for each column an array of its cells and then those of the rows.
    pub open spec fn frozen_with(&self, batch: Seq<ColumnArray>, rows: Seq<Seq<CellView>>) -> bool {
        &&& batch.len() == self.columns@.len()
        &&& forall|i: int|
            0 <= i < batch.len() ==> array_cells(#[trigger] batch[i]) == self.columns@[i]@
                + column_cells(rows, i, rows.len()) && !self.blocked_with(rows, i)
    }

    /// Whether `batch` is what this store freezes into: for each column an
    /// array of its cells.
    pub open spec fn frozen(&self, batch: Seq<ColumnArray>) -> bool {
        &&& batch.len() == self.columns@.len()
        &&& forall|i: int|
            0 <= i < batch.len() ==> array_cells(#[trigger] batch[i]) == self.columns@[i]@
                && !self.columns@[i].blocked()
    }

    /// What a store with rows added freezes into is what the store freezes
    /// into with the rows.
    pub proof fn lemma_frozen_with(
        &self,
        after: &Name2Data,
        rows: Seq<Seq<CellView>>,
        batch: Seq<ColumnArray>,
    )
        requires
            self.rows_pushed(after, rows, rows.len()),
        ensures
            after.frozen(batch) == self.frozen_with(batch, rows),
            (exists|i: int| 0 <= i < after.columns@.len() && (#[trigger] after.columns@[i]).blocked())
                == self.any_blocked_with(rows),
    {
        assert forall|i: int| 0 <= i < self.columns@.len() implies after.columns@[i].blocked()
            == self.blocked_with(rows, i) && after.columns@[i]@ == self.columns@[i]@ + column_cells(
            rows,
            i,
            rows.len(),
        ) by {
            assert(self.columns@[i].same_column(&after.columns@[i]));
        }
        if after.frozen(batch) {
            assert forall|i: int| 0 <= i < batch.len() implies array_cells(#[trigger] batch[i])
                == self.columns@[i]@ + column_cells(rows, i, rows.len()) && !self.blocked_with(
                rows,
                i,
            ) by {
                assert(array_cells(batch[i]) == after.columns@[i]@ && !after.columns@[i].blocked());
            }
        }
        if self.frozen_with(batch, rows) {
            assert forall|i: int| 0 <= i < batch.len() implies array_cells(#[trigger] batch[i])
                == after.columns@[i]@ && !after.columns@[i].blocked() by {
                assert(array_cells(batch[i]) == self.columns@[i]@ + column_cells(
                    rows,
                    i,
                    rows.len(),
                ) && !self.blocked_with(rows, i));
            }
        }
        if self.any_blocked_with(rows) {
            let i = choose|i: int| 0 <= i < self.columns@.len() && #[trigger] self.blocked_with(rows, i);
            assert(after.columns@[i].blocked());
        }
        if exists|i: int| 0 <= i < after.columns@.len() && (#[trigger] after.columns@[i]).blocked() {
            let i = choose|i: int|
                0 <= i < after.columns@.len() && (#[trigger] after.columns@[i]).blocked();
            assert(self.blocked_with(rows, i));
        }
    }

    /// A store keeps the columns of a schema while rows are added.
    pub proof fn lemma_matches_kept(&self, after: &Name2Data, schema: Seq<FieldSpecView>)
        requires
            self.matches(schema),
            self.same_columns(after),
        ensures
            after.matches(schema),
    {
        assert forall|i: int| 0 <= i < schema.len() implies {
            let column = #[trigger] after.columns@[i];
            &&& column.value_kind() == schema[i].value_kind
            &&& column.holds_lists() == schema[i].cardinality.holds_lists()
            &&& column.holds_lists() ==> column.list_state()->0.name@ == schema[i].name
                && column.items_nullable() == schema[i].nullable
        } by {
            assert(self.columns@[i].same_column(&after.columns@[i]));
        }
    }

    /// A row of a record fits the columns of a store made for the record's
    /// header.
    pub proof fn lemma_row_fits(
        &self,
        schema: Seq<FieldSpecView>,
        record: RecordView,
        header: HeaderView,
        alt_id: int,
    )
        requires
            self.matches(schema),
            derived(schema, header),
            0 <= alt_id < record.alternate_bases.len(),
            row_valid(record, header, alt_id),
        ensures
            self.row_fits(row(record, header, alt_id)),
    {
        let cells = row(record, header, alt_id);
        let infos = header.infos.len() as int;
        let formats = header.formats.len() as int;
        let p = schema == schema_fields(header, true);
        assert(schema == schema_fields(header, p));
        assert(schema.len() == width(header));
        assert forall|c: int| 0 <= c < cells.len() implies cell_fits(
            #[trigger] cells[c],
            self.columns@[c].value_kind(),
            self.columns@[c].holds_lists(),
        ) by {
            let column = self.columns@[c];
            assert(row_cell(record, header, alt_id, c) is Ok);
            if c < 7 {
                assert(schema[c] == required_fields()[c]);
            } else if c < 7 + infos {
                let def = header.infos[c - 7];
                assert(schema[c] == info_fields(header.infos, p)[c - 7]);
                crate::field::lemma_field_cell_fits(
                    def.ty,
                    def.number,
                    crate::record::info_value(record.info, def.key),
                    alt_id as usize,
                    record.alternate_bases.len() as usize,
                );
            } else {
                let k = c - 7 - infos;
                assert(schema[c] == format_fields(header.sample_names, header.formats)[k]);
                vstd::arithmetic::div_mod::lemma_fundamental_div_mod(k, formats);
                vstd::arithmetic::div_mod::lemma_mod_bound(k, formats);
                let s = k / formats;
                let f = k % formats;
                let def = header.formats[f];
                assert(0 <= s < header.sample_names.len()) by (nonlinear_arith)
                    requires
                        0 <= k < header.sample_names.len() * formats,
                        formats > 0,
                        k == formats * s + f,
                        0 <= f < formats,
                ;
                if s < record.samples.len() {
                    crate::field::lemma_format_cell_fits(
                        def.key,
                        def.ty,
                        def.number,
                        crate::record::sample_value(record.format, record.samples[s], def.key),
                        alt_id as usize,
                        record.alternate_bases.len() as usize,
                    );
                }
            }
        }
    }

    /// Add the rows of a record: one for each of its alternate alleles.
    ///
    /// Fails with `Decode`, and leaves the store as it is, where the record
    /// does not fit the header. Fails with `Overflow` where it fits and a
    /// column has no room for what the rows add to it; the store then holds
    /// the rows before the first that had no room.
    pub fn add_record(
        &mut self,
        record: &Record,
        header: &Header,
        schema: &Schema,
    ) -> (result: Result<(), Error>)
        requires
            old(self).wf(),
            old(self).matches(schema.deep_view()),
            derived(schema.deep_view(), header.deep_view()),
        ensures
            final(self).wf(),
            final(self).matches(schema.deep_view()),
            match result {
                Ok(()) => {
                    let added = rows(record.deep_view(), header.deep_view());
                    &&& record_valid(record.deep_view(), header.deep_view())
                    &&& old(self).rows_room(added)
                    &&& old(self).rows_pushed(final(self), added, added.len())
                    &&& final(self).height() == old(self).height()
                        + record.alternate_bases.len()
                },
                Err(Error::Decode) => !record_valid(record.deep_view(), header.deep_view())
                    && *final(self) == *old(self),
                Err(Error::Overflow) => {
                    let added = rows(record.deep_view(), header.deep_view());
                    &&& record_valid(record.deep_view(), header.deep_view())
                    &&& !old(self).rows_room(added)
                    &&& exists|r: int|
                        0 <= r < added.len() && #[trigger] old(self).rows_pushed(
                            final(self),
                            added,
                            r as nat,
                        )
                },
                Err(_) => false,
            },
    {
        let ghost rec = record.deep_view();
        let ghost head = header.deep_view();
        let ghost fields = schema.deep_view();
        let mut all = match record_rows(record, header) {
            Ok(all) => all,
            Err(e) => {
                return Err(e);
            },
        };
        let ghost added = rows(rec, head);
        let n: usize = all.len();
        assert(added.len() == n);
        assert(n == rec.alternate_bases.len());
        proof {
            assert forall|i: int| 0 <= i < self.columns@.len() implies {
                let a = #[trigger] self.columns@[i];
                a@ == a@ + column_cells(added, i, 0)
            } by {
                assert(self.columns@[i]@ + column_cells(added, i, 0) =~= self.columns@[i]@);
            }
        }
        let mut r: usize = 0;
        while r < n
            invariant
                r <= n,
                n == all@.len(),
                n == added.len(),
                n == rec.alternate_bases.len(),
                rec == record.deep_view(),
                head == header.deep_view(),
                fields == schema.deep_view(),
                added == rows(rec, head),
                record_valid(rec, head),
                derived(fields, head),
                old(self).wf(),
                old(self).matches(fields),
                self.wf(),
                old(self).same_columns(self),
                old(self).rows_pushed(self, added, r as nat),
                forall|k: int| r <= k < n ==> (#[trigger] all@[k]).deep_view() == added[k],
                forall|i: int, k: int|
                    0 <= i < self.columns@.len() && 0 <= k <= r ==> #[trigger] old(self).column_room(
                        added,
                        i,
                        k as nat,
                    ),
            decreases n - r,
        {
            let mut cells: Vec<Cell> = Vec::new();
            std::mem::swap(&mut all[r], &mut cells);
            let ghost before = *self;
            proof {
                assert(cells.deep_view() == added[r as int]);
                assert(row_valid(rec, head, r as int));
                old(self).lemma_matches_kept(self, fields);
                self.lemma_row_fits(fields, rec, head, r as int);
            }
            match self.push_row(cells) {
                Ok(()) => {
                    proof {
                        let row = added[r as int];
                        assert forall|i: int| 0 <= i < self.columns@.len() implies {
                            let a = #[trigger] old(self).columns@[i];
                            let b = self.columns@[i];
                            &&& a.same_column(&b)
                            &&& b@ == a@ + column_cells(added, i, (r + 1) as nat)
                            &&& b.items() == a.items() + column_items(added, i, (r + 1) as nat)
                            &&& b.bytes() == a.bytes() + column_bytes(added, i, (r + 1) as nat)
                            &&& b.null_items() == (a.null_items() || column_has_null(
                                added,
                                i,
                                (r + 1) as nat,
                            ))
                            &&& old(self).column_room(added, i, (r + 1) as nat)
                        } by {
                            let a = old(self).columns@[i];
                            let m = before.columns@[i];
                            let b = self.columns@[i];
                            assert(m.pushed(&b, row[i]));
                            assert(m.room_for(row[i]));
                            assert(a.same_column(&m));
                            assert(column_cells(added, i, (r + 1) as nat) =~= column_cells(
                                added,
                                i,
                                r as nat,
                            ).push(row[i]));
                            assert(b@ =~= a@ + column_cells(added, i, (r + 1) as nat));
                            if column_has_null(added, i, r as nat) {
                                let k = choose|k: int|
                                    0 <= k < r && cell_has_null(#[trigger] added[k][i]);
                                assert(cell_has_null(added[k][i]));
                            }
                            if cell_has_null(row[i]) {
                                assert(cell_has_null(added[r as int][i]));
                            }
                        }
                        assert forall|i: int| 0 <= i < self.columns@.len() implies (
                        #[trigger] old(self).columns@[i]).same_column(&self.columns@[i]) by {}
                    }
                },
                Err(e) => {
                    proof {
                        let row = added[r as int];
                        let i = choose|i: int|
                            0 <= i < before.columns@.len() && !(#[trigger] before.columns@[i]).room_for(
                                row[i],
                            );
                        assert(old(self).columns@[i].same_column(&before.columns@[i]));
                        assert(!old(self).column_room(added, i, (r + 1) as nat));
                        assert(*self == before);
                        assert(old(self).rows_pushed(self, added, r as nat));
                        old(self).lemma_matches_kept(self, fields);
                    }
                    return Err(e);
                },
            }
            r += 1;
        }
        proof {
            old(self).lemma_matches_kept(self, fields);
            assert(fields.len() >= 7);
            assert(old(self).columns@[0]@.len() == old(self).height());
            assert(self.columns@[0]@ == old(self).columns@[0]@ + column_cells(added, 0, n as nat));
        }
        Ok(())
    }

    /// Freezes every column into an array, in schema order. Fails with
    /// `NullValue`, and only so, where a list column whose items may not be
    /// null holds one that is.
    pub fn into_arc(self) -> (result: Result<Vec<ColumnArray>, Error>)
        requires
            self.wf(),
        ensures
            match result {
                Ok(arrays) => self.frozen(arrays@) && forall|i: int|
                    0 <= i < arrays@.len() ==> array_cells(#[trigger] arrays@[i]).len()
                        == self.height(),
                Err(e) => e == Error::NullValue && exists|i: int|
                    0 <= i < self.columns@.len() && (#[trigger] self.columns@[i]).blocked(),
            },
    {
        let ghost all = self.columns@;
        let n: usize = self.columns.len();
        let mut columns = self.columns;
        let mut reversed: Vec<ColumnArray> = Vec::new();
        while columns.len() > 0
            invariant
                all == self.columns@,
                n == all.len(),
                columns@.len() + reversed@.len() == n,
                columns@ =~= all.take(columns@.len() as int),
                forall|i: int| 0 <= i < n ==> (#[trigger] all[i]).wf(),
                forall|k: int|
                    0 <= k < reversed@.len() ==> array_cells(#[trigger] reversed@[k]) == all[n - 1
                        - k]@ && !all[n - 1 - k].blocked(),
            decreases columns.len(),
        {
            let ghost at = columns@.len() - 1;
            let column = match columns.pop() {
                Some(column) => column,
                None => {
                    return Err(Error::NullValue);
                },
            };
            assert(column == all[at]);
            match column.into_arc() {
                Ok(array) => reversed.push(array),
                Err(e) => {
                    assert(0 <= at < n && all[at].blocked());
                    return Err(e);
                },
            }
        }
        let mut arrays: Vec<ColumnArray> = Vec::new();
        while reversed.len() > 0
            invariant
                all == self.columns@,
                n == all.len(),
                arrays@.len() + reversed@.len() == n,
                forall|k: int|
                    0 <= k < reversed@.len() ==> array_cells(#[trigger] reversed@[k]) == all[n - 1
                        - k]@ && !all[n - 1 - k].blocked(),
                forall|i: int|
                    0 <= i < arrays@.len() ==> array_cells(#[trigger] arrays@[i]) == all[i]@
                        && !all[i].blocked(),
            decreases reversed.len(),
        {
            let ghost at = reversed@.len() - 1;
            match reversed.pop() {
                Some(array) => {
                    assert(n - 1 - at == arrays@.len());
                    arrays.push(array);
                },
                None => {},
            }
        }
        assert forall|i: int| 0 <= i < arrays@.len() implies array_cells(#[trigger] arrays@[i]).len()
            == self.height() by {
            assert(self.columns@[i]@.len() == self.height());
        }
        assert(reversed@.len() == 0);
        assert(arrays@.len() == self.columns@.len());
        assert forall|i: int| 0 <= i < arrays@.len() implies array_cells(#[trigger] arrays@[i])
            == self.columns@[i]@ && !self.columns@[i].blocked() by {
            assert(all[i] == self.columns@[i]);
        }
        assert(self.frozen(arrays@));
        Ok(arrays)
    }
}

} // verus!
