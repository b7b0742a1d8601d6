//! The rows of a record: one for each of its alternate alleles.

use vstd::prelude::*;
use vstd::string::StringExecFns;

use crate::cell::{Cell, CellView};
use crate::error::Error;
use crate::field::{cell_of_field, cell_of_format, field_cell, format_cell};
use crate::header::{Header, HeaderView};
use crate::record::{info_value, sample_value, Filters, FiltersView, Record, RecordView};

verus! {

/// A position as the 32-bit signed integer of its low 32 bits.
pub open spec fn wrap_i32(position: nat) -> i32 {
    let low = position % 0x1_0000_0000;
    if low < 0x8000_0000 {
        low as i32
    } else {
        (low - 0x1_0000_0000) as i32
    }
}

/// Computes `wrap_i32`.
pub fn position_i32(position: usize) -> (value: i32)
    ensures
        value == wrap_i32(position as nat),
{
    let low: u64 = (position as u64) % 0x1_0000_0000;
    if low < 0x8000_0000 {
        low as i32
    } else {
        (low as i64 - 0x1_0000_0000) as i32
    }
}

/// Texts as the items of a list, none of them null.
pub open spec fn some_texts(texts: Seq<Seq<char>>) -> Seq<Option<Seq<char>>> {
    Seq::new(texts.len(), |i: int| Some(texts[i]))
}

/// Computes `some_texts`.
pub fn texts_as_items(texts: &Vec<String>) -> (items: Vec<Option<String>>)
    ensures
        items.deep_view() == some_texts(texts.deep_view()),
{
    let ghost all = texts.deep_view();
    let mut items: Vec<Option<String>> = Vec::new();
    let mut i: usize = 0;
    while i < texts.len()
        invariant
            i <= texts.len(),
            all == texts.deep_view(),
            items.deep_view() =~= Seq::new(i as nat, |k: int| Some(all[k])),
        decreases texts.len() - i,
    {
        let ghost before = items.deep_view();
        assert(all[i as int] == texts@[i as int]@);
        items.push(Some(texts[i].clone()));
        assert(items.deep_view() =~= before.push(Some(all[i as int])));
        i += 1;
    }
    items
}

/// The cell of the identifiers: a list of them, or null where there is none.
pub open spec fn ids_cell(ids: Seq<Seq<char>>) -> CellView {
    if ids.len() == 0 {
        CellView::Null
    } else {
        CellView::ListString(some_texts(ids))
    }
}

/// The cell of the filters: a list of their names, `PASS` alone for a record
/// that passed, or null where the record has none.
pub open spec fn filters_cell(filters: Option<FiltersView>) -> CellView {
    match filters {
        None => CellView::Null,
        Some(FiltersView::Pass) => CellView::ListString(seq![Some("PASS"@)]),
        Some(FiltersView::Fail(names)) => CellView::ListString(some_texts(names)),
    }
}

/// The cells of the seven required columns in the row of alternate allele
/// `alt_id`: all but the alternate itself are the same in every row.
pub open spec fn required_cells(record: RecordView, alt_id: int) -> Seq<CellView> {
    seq![
        CellView::String(record.chromosome),
        CellView::Int(wrap_i32(record.position)),
        ids_cell(record.ids),
        CellView::String(record.reference_bases),
        CellView::String(record.alternate_bases[alt_id]),
        match record.quality_score {
            Some(q) => CellView::Float(q),
            None => CellView::Null,
        },
        filters_cell(record.filters),
    ]
}

/// The cell of INFO definition `i` in the row of alternate allele `alt_id`,
/// or its refusal.
pub open spec fn info_cell(
    record: RecordView,
    header: HeaderView,
    alt_id: int,
    i: int,
) -> Result<CellView, Error> {
    let def = header.infos[i];
    field_cell(
        def.ty,
        def.number,
        info_value(record.info, def.key),
        alt_id as usize,
        record.alternate_bases.len() as usize,
    )
}

/// The cell of FORMAT definition `f` for sample `s` in the row of alternate
/// allele `alt_id`, or its refusal. A sample that the record does not have
/// is refused.
pub open spec fn sample_cell(
    record: RecordView,
    header: HeaderView,
    alt_id: int,
    s: int,
    f: int,
) -> Result<CellView, Error> {
    let def = header.formats[f];
    if s < record.samples.len() {
        format_cell(
            def.key,
            def.ty,
            def.number,
            sample_value(record.format, record.samples[s], def.key),
            alt_id as usize,
            record.alternate_bases.len() as usize,
        )
    } else {
        Err(Error::Decode)
    }
}

/// Number of columns of a header.
pub open spec fn width(header: HeaderView) -> nat {
    7 + header.infos.len() + header.sample_names.len() * header.formats.len()
}

/// The cell of column `c` in the row of alternate allele `alt_id`, or its
/// refusal: the required columns first, then one for each INFO definition,
/// then, sample after sample, one for each FORMAT definition.
pub open spec fn row_cell(
    record: RecordView,
    header: HeaderView,
    alt_id: int,
    c: int,
) -> Result<CellView, Error> {
    let infos = header.infos.len() as int;
    let formats = header.formats.len() as int;
    if c < 7 {
        Ok(required_cells(record, alt_id)[c])
    } else if c < 7 + infos {
        info_cell(record, header, alt_id, c - 7)
    } else {
        sample_cell(record, header, alt_id, (c - 7 - infos) / formats, (c - 7 - infos) % formats)
    }
}

/// Whether the record has a row for alternate allele `alt_id`: no cell of it
/// is refused.
pub open spec fn row_valid(record: RecordView, header: HeaderView, alt_id: int) -> bool {
    forall|c: int| 0 <= c < width(header) ==> (#[trigger] row_cell(record, header, alt_id, c)) is Ok
}

/// The row of alternate allele `alt_id`: one cell for each column.
pub open spec fn row(record: RecordView, header: HeaderView, alt_id: int) -> Seq<CellView> {
    Seq::new(width(header), |c: int| row_cell(record, header, alt_id, c)->Ok_0)
}

/// Whether the record fits the header: it has a row for each of its
/// alternate alleles.
pub open spec fn record_valid(record: RecordView, header: HeaderView) -> bool {
    forall|a: int| 0 <= a < record.alternate_bases.len() ==> #[trigger] row_valid(record, header, a)
}

/// The rows of a record: one for each alternate allele, in their order.
pub open spec fn rows(record: RecordView, header: HeaderView) -> Seq<Seq<CellView>> {
    Seq::new(record.alternate_bases.len(), |a: int| row(record, header, a))
}

/// The cells of the required columns for the row of alternate allele `alt_id`.
pub fn required_row(record: &Record, alt_id: usize) -> (cells: Vec<Cell>)
    requires
        alt_id < record.alternate_bases.len(),
    ensures
        cells.deep_view() == required_cells(record.deep_view(), alt_id as int),
{
    let mut cells: Vec<Cell> = Vec::new();
    cells.push(Cell::String(record.chromosome.clone()));
    cells.push(Cell::Int(position_i32(record.position)));
    if record.ids.len() == 0 {
        cells.push(Cell::Null);
    } else {
        cells.push(Cell::ListString(texts_as_items(&record.ids)));
    }
    cells.push(Cell::String(record.reference_bases.clone()));
    assert(record.deep_view().alternate_bases[alt_id as int] == record.alternate_bases@[alt_id as int]@);
    cells.push(Cell::String(record.alternate_bases[alt_id].clone()));
    match record.quality_score {
        Some(q) => cells.push(Cell::Float(q)),
        None => cells.push(Cell::Null),
    }
    match &record.filters {
        None => cells.push(Cell::Null),
        Some(Filters::Pass) => {
            let mut names: Vec<Option<String>> = Vec::new();
            names.push(Some(String::from_str("PASS")));
            assert(names.deep_view() =~= seq![Some("PASS"@)]);
            cells.push(Cell::ListString(names));
        },
        Some(Filters::Fail(names)) => {
            cells.push(Cell::ListString(texts_as_items(names)));
        },
    }
    assert(cells.deep_view() =~= required_cells(record.deep_view(), alt_id as int));
    cells
}

/// Adds to a row the cells of the INFO definitions of the header, in header
/// order. `alt_count` is the number of alternate alleles of the record, the
/// reference not counted. Fails with `Decode` where one of the cells is
/// refused.
pub fn add_info(
    cells: &mut Vec<Cell>,
    record: &Record,
    header: &Header,
    alt_id: usize,
    alt_count: usize,
) -> (result: Result<(), Error>)
    requires
        alt_id < record.alternate_bases.len(),
        alt_count == record.alternate_bases.len(),
    ensures
        match result {
            Ok(()) => final(cells).deep_view() == old(cells).deep_view() + Seq::new(
                header.infos.len() as nat,
                |i: int| info_cell(record.deep_view(), header.deep_view(), alt_id as int, i)->Ok_0,
            ) && forall|i: int|
                0 <= i < header.infos.len() ==> (#[trigger] info_cell(
                    record.deep_view(),
                    header.deep_view(),
                    alt_id as int,
                    i,
                )) is Ok,
            Err(e) => e == Error::Decode && exists|i: int|
                0 <= i < header.infos.len() && (#[trigger] info_cell(
                    record.deep_view(),
                    header.deep_view(),
                    alt_id as int,
                    i,
                )) is Err,
        },
{
    let ghost rec = record.deep_view();
    let ghost head = header.deep_view();
    let ghost start = cells.deep_view();
    let mut i: usize = 0;
    while i < header.infos.len()
        invariant
            i <= header.infos.len(),
            rec == record.deep_view(),
            head == header.deep_view(),
            alt_id < record.alternate_bases.len(),
            alt_count == record.alternate_bases.len(),
            cells.deep_view() =~= start + Seq::new(
                i as nat,
                |k: int| info_cell(rec, head, alt_id as int, k)->Ok_0,
            ),
            forall|k: int| 0 <= k < i ==> (#[trigger] info_cell(rec, head, alt_id as int, k)) is Ok,
        decreases header.infos.len() - i,
    {
        let def = &header.infos[i];
        assert(head.infos[i as int] == def.deep_view());
        assert(rec.alternate_bases.len() == alt_count);
        let value = record.info_value(&def.key);
        let cell = match cell_of_field(def.ty, def.number, value, alt_id, alt_count) {
            Ok(cell) => cell,
            Err(e) => {
                assert(info_cell(rec, head, alt_id as int, i as int) is Err);
                assert(e == Error::Decode) by {
                    crate::field::lemma_field_cell_refusal(
                        def.ty,
                        def.number,
                        value.deep_view(),
                        alt_id,
                        alt_count,
                    );
                }
                return Err(e);
            },
        };
        let ghost before = cells.deep_view();
        cells.push(cell);
        assert(cells.deep_view() =~= before.push(info_cell(rec, head, alt_id as int, i as int)->Ok_0));
        i += 1;
    }
    Ok(())
}

/// Adds to a row the cells of the FORMAT definitions of the header: sample
/// after sample, and for each sample in header order. `alt_count` is the
/// number of alternate alleles of the record, the reference not counted.
/// Fails with `Decode` where one of the cells is refused.
pub fn add_format(
    cells: &mut Vec<Cell>,
    record: &Record,
    header: &Header,
    alt_id: usize,
    alt_count: usize,
) -> (result: Result<(), Error>)
    requires
        alt_id < record.alternate_bases.len(),
        alt_count == record.alternate_bases.len(),
    ensures
        match result {
            Ok(()) => final(cells).deep_view() == old(cells).deep_view() + Seq::new(
                (header.sample_names.len() * header.formats.len()) as nat,
                |k: int|
                    sample_cell(
                        record.deep_view(),
                        header.deep_view(),
                        alt_id as int,
                        k / header.formats.len() as int,
                        k % header.formats.len() as int,
                    )->Ok_0,
            ) && forall|s: int, f: int|
                0 <= s < header.sample_names.len() && 0 <= f < header.formats.len()
                    ==> (#[trigger] sample_cell(
                    record.deep_view(),
                    header.deep_view(),
                    alt_id as int,
                    s,
                    f,
                )) is Ok,
            Err(e) => e == Error::Decode && exists|s: int, f: int|
                0 <= s < header.sample_names.len() && 0 <= f < header.formats.len()
                    && (#[trigger] sample_cell(
                    record.deep_view(),
                    header.deep_view(),
                    alt_id as int,
                    s,
                    f,
                )) is Err,
        },
{
    let ghost rec = record.deep_view();
    let ghost head = header.deep_view();
    let ghost start = cells.deep_view();
    let formats: usize = header.formats.len();
    let mut s: usize = 0;
    while s < header.sample_names.len()
        invariant
            s <= header.sample_names.len(),
            formats == header.formats.len(),
            rec == record.deep_view(),
            head == header.deep_view(),
            alt_id < record.alternate_bases.len(),
            alt_count == record.alternate_bases.len(),
            cells.deep_view() =~= start + Seq::new(
                (s * formats) as nat,
                |k: int|
                    sample_cell(rec, head, alt_id as int, k / formats as int, k % formats as int)->Ok_0,
            ),
            forall|t: int, f: int|
                0 <= t < s && 0 <= f < formats ==> (#[trigger] sample_cell(
                    rec,
                    head,
                    alt_id as int,
                    t,
                    f,
                )) is Ok,
        decreases header.sample_names.len() - s,
    {
        let mut f: usize = 0;
        while f < formats
            invariant
                s < header.sample_names.len(),
                f <= formats,
                formats == header.formats.len(),
                rec == record.deep_view(),
                head == header.deep_view(),
                alt_id < record.alternate_bases.len(),
                alt_count == record.alternate_bases.len(),
                cells.deep_view() =~= start + Seq::new(
                    (s * formats + f) as nat,
                    |k: int|
                        sample_cell(
                            rec,
                            head,
                            alt_id as int,
                            k / formats as int,
                            k % formats as int,
                        )->Ok_0,
                ),
                forall|t: int, g: int|
                    0 <= t < s && 0 <= g < formats ==> (#[trigger] sample_cell(
                        rec,
                        head,
                        alt_id as int,
                        t,
                        g,
                    )) is Ok,
                forall|g: int|
                    0 <= g < f ==> (#[trigger] sample_cell(rec, head, alt_id as int, s as int, g)) is Ok,
            decreases formats - f,
        {
            let def = &header.formats[f];
            assert(head.formats[f as int] == def.deep_view());
            assert(rec.alternate_bases.len() == alt_count);
            if s >= record.samples.len() {
                assert(sample_cell(rec, head, alt_id as int, s as int, f as int) is Err);
                return Err(Error::Decode);
            }
            let value = record.sample_value(s, &def.key);
            let cell = match cell_of_format(
                &def.key,
                def.ty,
                def.number,
                value,
                alt_id,
                alt_count,
            ) {
                Ok(cell) => cell,
                Err(e) => {
                    assert(sample_cell(rec, head, alt_id as int, s as int, f as int) is Err);
                    assert(e == Error::Decode) by {
                        crate::field::lemma_format_cell_refusal(
                            def.key@,
                            def.ty,
                            def.number,
                            value.deep_view(),
                            alt_id,
                            alt_count,
                        );
                    }
                    return Err(e);
                },
            };
            let ghost before = cells.deep_view();
            cells.push(cell);
            proof {
                let k = s * formats + f;
                vstd::arithmetic::div_mod::lemma_fundamental_div_mod_converse(
                    k as int,
                    formats as int,
                    s as int,
                    f as int,
                );
                assert(cells.deep_view() =~= before.push(
                    sample_cell(rec, head, alt_id as int, s as int, f as int)->Ok_0,
                ));
            }
            f += 1;
        }
        assert(s * formats + formats == (s + 1) * formats) by (nonlinear_arith);
        s += 1;
    }
    Ok(())
}

/// Computes the row of alternate allele `alt_id`. Fails with `Decode`, and
/// only so, where the record has no such row.
pub fn record_row(
    record: &Record,
    header: &Header,
    alt_id: usize,
) -> (result: Result<Vec<Cell>, Error>)
    requires
        alt_id < record.alternate_bases.len(),
    ensures
        match result {
            Ok(cells) => row_valid(record.deep_view(), header.deep_view(), alt_id as int)
                && cells.deep_view() == row(record.deep_view(), header.deep_view(), alt_id as int),
            Err(e) => e == Error::Decode && !row_valid(
                record.deep_view(),
                header.deep_view(),
                alt_id as int,
            ),
        },
{
    let ghost rec = record.deep_view();
    let ghost head = header.deep_view();
    let ghost infos = head.infos.len() as int;
    let ghost formats = head.formats.len() as int;
    let ghost a = alt_id as int;
    let alt_count: usize = record.alternate_bases.len();
    let mut cells = required_row(record, alt_id);
    match add_info(&mut cells, record, header, alt_id, alt_count) {
        Ok(()) => {},
        Err(e) => {
            proof {
                let i = choose|i: int| 0 <= i < infos && (#[trigger] info_cell(rec, head, a, i)) is Err;
                assert(row_cell(rec, head, a, 7 + i) is Err);
            }
            return Err(e);
        },
    }
    match add_format(&mut cells, record, header, alt_id, alt_count) {
        Ok(()) => {},
        Err(e) => {
            proof {
                let (s, f) = choose|s: int, f: int|
                    0 <= s < head.sample_names.len() && 0 <= f < formats && (#[trigger] sample_cell(
                        rec,
                        head,
                        a,
                        s,
                        f,
                    )) is Err;
                let k = s * formats + f;
                vstd::arithmetic::div_mod::lemma_fundamental_div_mod_converse(k, formats, s, f);
                assert(k < head.sample_names.len() * formats) by (nonlinear_arith)
                    requires
                        0 <= s < head.sample_names.len(),
                        0 <= f < formats,
                        k == s * formats + f,
                ;
                assert(row_cell(rec, head, a, 7 + infos + k) is Err);
            }
            return Err(e);
        },
    }
    proof {
        assert forall|c: int| 0 <= c < width(head) implies (#[trigger] row_cell(rec, head, a, c)) is Ok
            && cells.deep_view()[c] == row_cell(rec, head, a, c)->Ok_0 by {
            if c >= 7 + infos {
                let k = c - 7 - infos;
                vstd::arithmetic::div_mod::lemma_fundamental_div_mod(k, formats);
                vstd::arithmetic::div_mod::lemma_mod_bound(k, formats);
                let s = k / formats;
                let f = k % formats;
                assert(0 <= s < head.sample_names.len()) by (nonlinear_arith)
                    requires
                        0 <= k < head.sample_names.len() * formats,
                        formats > 0,
                        k == formats * s + f,
                        0 <= f < formats,
                ;
                assert(sample_cell(rec, head, a, s, f) is Ok);
            } else if c >= 7 {
                assert(info_cell(rec, head, a, c - 7) is Ok);
            }
        }
        assert(cells.deep_view() =~= row(rec, head, a));
    }
    Ok(cells)
}

/// Computes the rows of a record. Fails with `Decode`, and only so, where
/// the record does not fit the header.
pub fn record_rows(record: &Record, header: &Header) -> (result: Result<Vec<Vec<Cell>>, Error>)
    ensures
        match result {
            Ok(all) => record_valid(record.deep_view(), header.deep_view()) && all.deep_view()
                == rows(record.deep_view(), header.deep_view()),
            Err(e) => e == Error::Decode && !record_valid(record.deep_view(), header.deep_view()),
        },
{
    let ghost rec = record.deep_view();
    let ghost head = header.deep_view();
    let count: usize = record.alternate_bases.len();
    assert(rec.alternate_bases.len() == count);
    let mut all: Vec<Vec<Cell>> = Vec::new();
    let mut alt_id: usize = 0;
    while alt_id < count
        invariant
            alt_id <= count,
            count == record.alternate_bases.len(),
            rec == record.deep_view(),
            head == header.deep_view(),
            all.deep_view() =~= Seq::new(alt_id as nat, |a: int| row(rec, head, a)),
            forall|a: int| 0 <= a < alt_id ==> #[trigger] row_valid(rec, head, a),
        decreases count - alt_id,
    {
        let cells = match record_row(record, header, alt_id) {
            Ok(cells) => cells,
            Err(e) => {
                return Err(e);
            },
        };
        let ghost before = all.deep_view();
        all.push(cells);
        assert(all.deep_view() =~= before.push(row(rec, head, alt_id as int)));
        alt_id += 1;
    }
    Ok(all)
}

} // verus!
