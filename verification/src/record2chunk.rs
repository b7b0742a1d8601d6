//! From a stream of records to batches of columns, as a state machine.
//!
//! The machine does not read the stream. It says when a record is to be
//! pulled, takes what the pull gave, and hands out a batch when one is full
//! or the stream has ended.

use vstd::prelude::*;

use crate::builder::{array_cells, ColumnArray};
use crate::error::Error;
use crate::header::Header;
use crate::name2data::{derived, Name2Data};
use crate::record::{Record, RecordView};
use crate::row::record_valid;
use crate::schema::{from_header, header_supported, schema_fields, Schema};

verus! {

/// What pulling the stream gave.
pub enum Event {
    /// One more record.
    Record(Record),
    /// A record that could not be decoded.
    Failure,
    /// Nothing: the stream has ended.
    Exhausted,
}

/// What the driver of the machine does next.
pub enum Action {
    /// Pull the stream and hand the machine what it gave.
    Pull,
    /// Hand this batch on: one array for each column, in schema order.
    Batch(Vec<ColumnArray>),
    /// Hand this failure on. The batch under way is dropped.
    Failed(Error),
    /// Stop: the stream has ended and its last batch was handed out.
    Finished,
}

/// How a column is laid out in a page.
#[derive(Debug, Clone, Copy, PartialEq, Eq, Structural)]
pub enum Encoding {
    Plain,
}

/// Rows of these records: one for each alternate allele of each.
pub open spec fn total_rows(records: Seq<RecordView>) -> nat
    decreases records.len(),
{
    if records.len() == 0 {
        0
    } else {
        total_rows(records.drop_last()) + records.last().alternate_bases.len()
    }
}

/// Convert vcf record iterator into batches of columns
pub struct Record2Chunk {
    pub length: usize,
    pub header: Header,
    pub schema: Schema,
    pub store: Name2Data,
    pub taken: usize,
    pub end: bool,
    /// The records taken into the batch under way.
    pub consumed: Ghost<Seq<RecordView>>,
}

impl Record2Chunk {
    /// The invariant of the machine: the store is made for the schema, the
    /// schema for the header, and the store holds the rows of the records
    /// taken into the batch under way, which are fewer than a batch has.
    pub open spec fn wf(&self) -> bool {
        &&& derived(self.schema.deep_view(), self.header.deep_view())
        &&& self.store.wf()
        &&& self.store.matches(self.schema.deep_view())
        &&& self.consumed@.len() == self.taken
        &&& self.store.height() == total_rows(self.consumed@)
        &&& self.taken == 0 || self.taken < self.length
    }

    /// Whether `batch` holds one array for each column, each with a row for
    /// each alternate allele of each of the records.
    pub open spec fn batch_of(&self, batch: Seq<ColumnArray>, records: Seq<RecordView>) -> bool {
        &&& batch.len() == self.schema.deep_view().len()
        &&& forall|i: int|
            0 <= i < batch.len() ==> array_cells(#[trigger] batch[i]).len() == total_rows(records)
    }

    /// Whether the machine is at the start of a batch of the same stream.
    pub open spec fn restarted(&self, before: &Record2Chunk) -> bool {
        &&& self.wf()
        &&& self.length == before.length
        &&& self.header == before.header
        &&& self.schema == before.schema
        &&& self.taken == 0
    }

    /// Create a new machine that makes batches of `length` records.
    pub fn new(length: usize, header: Header, schema: Schema) -> (machine: Record2Chunk)
        requires
            derived(schema.deep_view(), header.deep_view()),
        ensures
            machine.wf(),
            machine.length == length,
            machine.header == header,
            machine.schema == schema,
            machine.taken == 0,
            !machine.end,
    {
        let store = Name2Data::new(length, &schema);
        Record2Chunk {
            length,
            header,
            schema,
            store,
            taken: 0,
            end: false,
            consumed: Ghost(Seq::empty()),
        }
    }

    /// Create a new machine for a header, with the schema derived from it.
    /// Fails with `NoConversion`, and only so, where a definition of the
    /// header has no column.
    pub fn from_header(length: usize, header: Header, info_optional: bool) -> (result: Result<
        Record2Chunk,
        Error,
    >)
        ensures
            match result {
                Ok(machine) => {
                    &&& machine.wf()
                    &&& machine.length == length
                    &&& machine.header == header
                    &&& machine.schema.deep_view() == schema_fields(
                        header.deep_view(),
                        info_optional,
                    )
                    &&& machine.taken == 0
                    &&& !machine.end
                },
                Err(e) => e == Error::NoConversion && !header_supported(header.deep_view()),
            },
    {
        match from_header(&header, info_optional) {
            Ok(schema) => Ok(Record2Chunk::new(length, header, schema)),
            Err(e) => Err(e),
        }
    }

    /// One plain encoding for each column.
    pub fn encodings(&self) -> (all: Vec<Vec<Encoding>>)
        ensures
            all@.len() == self.schema.fields@.len(),
            forall|i: int| 0 <= i < all@.len() ==> (#[trigger] all@[i])@ == seq![Encoding::Plain],
    {
        let mut all: Vec<Vec<Encoding>> = Vec::new();
        let mut i: usize = 0;
        while i < self.schema.fields.len()
            invariant
                i <= self.schema.fields@.len(),
                all@.len() == i,
                forall|k: int| 0 <= k < i ==> (#[trigger] all@[k])@ == seq![Encoding::Plain],
            decreases self.schema.fields.len() - i,
        {
            let mut one: Vec<Encoding> = Vec::new();
            one.push(Encoding::Plain);
            assert(one@ =~= seq![Encoding::Plain]);
            all.push(one);
            i += 1;
        }
        all
    }

    /// Starts an empty batch and returns the store of the one under way.
    fn reset(&mut self) -> (store: Name2Data)
        requires
            derived(old(self).schema.deep_view(), old(self).header.deep_view()),
        ensures
            final(self).restarted(old(self)),
            final(self).end == old(self).end,
            store == old(self).store,
    {
        let mut store = Name2Data::new(self.length, &self.schema);
        std::mem::swap(&mut self.store, &mut store);
        self.taken = 0;
        self.consumed = Ghost(Seq::empty());
        store
    }

    /// Ends the batch under way: freezes it and starts an empty one.
    fn close(&mut self) -> (action: Action)
        requires
            old(self).store.wf(),
            derived(old(self).schema.deep_view(), old(self).header.deep_view()),
        ensures
            final(self).restarted(old(self)),
            final(self).end == old(self).end,
            match action {
                Action::Batch(batch) => old(self).store.frozen(batch@) && forall|i: int|
                    0 <= i < batch@.len() ==> array_cells(#[trigger] batch@[i]).len()
                        == old(self).store.height(),
                Action::Failed(e) => e == Error::NullValue && exists|i: int|
                    0 <= i < old(self).store.columns@.len() && (
                    #[trigger] old(self).store.columns@[i]).blocked(),
                _ => false,
            },
    {
        let store = self.reset();
        match store.into_arc() {
            Ok(batch) => Action::Batch(batch),
            Err(e) => Action::Failed(e),
        }
    }

    /// Starts the next batch: says whether to pull the stream.
    ///
    /// After the stream has ended there is nothing more. A machine of
    /// batches of no record hands out an empty batch without a pull.
    pub fn begin(&mut self) -> (action: Action)
        requires
            old(self).wf(),
        ensures
            final(self).wf(),
            final(self).end == old(self).end,
            final(self).length == old(self).length,
            final(self).header == old(self).header,
            final(self).schema == old(self).schema,
            match action {
                Action::Finished => old(self).end && *final(self) == *old(self),
                Action::Pull => !old(self).end && old(self).length > 0 && *final(self) == *old(
                    self,
                ),
                Action::Batch(batch) => !old(self).end && old(self).length == 0
                    && old(self).store.frozen(batch@) && old(self).batch_of(
                    batch@,
                    old(self).consumed@,
                ),
                Action::Failed(e) => false,
            },
    {
        if self.end {
            Action::Finished
        } else if self.length == 0 {
            self.close()
        } else {
            Action::Pull
        }
    }

    /// Takes what a pull of the stream gave, and says what to do next.
    ///
    /// A record is added to the batch under way. When the batch then has
    /// its count of records it is handed out, else the stream is pulled
    /// again. When the stream has ended, what there is of the batch is
    /// handed out as the last, even with no row. A record that could not be
    /// decoded, or does not fit the header, or has no room, fails the batch,
    /// and so does a null in a list whose items may not be null when the
    /// batch is to be handed out.
    pub fn accept(&mut self, event: Event) -> (action: Action)
        requires
            old(self).wf(),
        ensures
            final(self).wf(),
            final(self).length == old(self).length,
            final(self).header == old(self).header,
            final(self).schema == old(self).schema,
            old(self).end ==> action is Finished && *final(self) == *old(self),
            !old(self).end ==> match event {
                Event::Record(record) => {
                    let added = crate::row::rows(record.deep_view(), old(self).header.deep_view());
                    let valid = record_valid(record.deep_view(), old(self).header.deep_view());
                    let room = old(self).store.rows_room(added);
                    let full = old(self).taken + 1 >= old(self).length;
                    let records = old(self).consumed@.push(record.deep_view());
                    &&& !final(self).end
                    &&& match action {
                        Action::Pull => {
                            &&& valid && room && !full
                            &&& final(self).taken == old(self).taken + 1
                            &&& final(self).consumed@ == records
                            &&& old(self).store.rows_pushed(&final(self).store, added, added.len())
                        },
                        Action::Batch(batch) => {
                            &&& valid && room && full
                            &&& final(self).taken == 0
                            &&& old(self).store.frozen_with(batch@, added)
                            &&& old(self).batch_of(batch@, records)
                        },
                        Action::Failed(e) => final(self).taken == 0 && match e {
                            Error::Decode => !valid,
                            Error::Overflow => valid && !room,
                            Error::NullValue => valid && room && full
                                && old(self).store.any_blocked_with(added),
                            Error::NoConversion => false,
                        },
                        Action::Finished => false,
                    }
                },
                Event::Failure => action == Action::Failed(Error::Decode) && !final(self).end
                    && final(self).taken == 0,
                Event::Exhausted => final(self).end && final(self).taken == 0 && match action {
                    Action::Batch(batch) => old(self).store.frozen(batch@) && old(self).batch_of(
                        batch@,
                        old(self).consumed@,
                    ),
                    Action::Failed(e) => e == Error::NullValue && exists|i: int|
                        0 <= i < old(self).store.columns@.len() && (
                        #[trigger] old(self).store.columns@[i]).blocked(),
                    _ => false,
                },
            },
    {
        if self.end {
            return Action::Finished;
        }
        match event {
            Event::Record(record) => {
                let ghost before = self.store;
                let ghost added = crate::row::rows(record.deep_view(), self.header.deep_view());
                match self.store.add_record(&record, &self.header, &self.schema) {
                    Ok(()) => {
                        proof {
                            lemma_total_rows_push(self.consumed@, record.deep_view());
                        }
                        self.consumed = Ghost(self.consumed@.push(record.deep_view()));
                        if self.taken + 1 >= self.length {
                            let ghost filled = self.store;
                            let action = self.close();
                            proof {
                                let batch = if action is Batch {
                                    action->Batch_0@
                                } else {
                                    Seq::empty()
                                };
                                before.lemma_frozen_with(&filled, added, batch);
                            }
                            action
                        } else {
                            self.taken = self.taken + 1;
                            Action::Pull
                        }
                    },
                    Err(e) => {
                        let _ = self.reset();
                        Action::Failed(e)
                    },
                }
            },
            Event::Failure => {
                let _ = self.reset();
                Action::Failed(Error::Decode)
            },
            Event::Exhausted => {
                self.end = true;
                self.close()
            },
        }
    }
}

/// One more record adds a row for each of its alternate alleles.
pub proof fn lemma_total_rows_push(records: Seq<RecordView>, record: RecordView)
    ensures
        total_rows(records.push(record)) == total_rows(records) + record.alternate_bases.len(),
{
    assert(records.push(record).drop_last() =~= records);
}

} // verus!
