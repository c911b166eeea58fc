//! The streaming pipeline: readers of record batches, and the adapters that
//! wrap them.
//!
//! A reader is a single-pass, finite sequence of batches that share one schema.
//! What a reader over a file yields is decided outside this crate, by the file
//! and its decoder: such a reader promises nothing. A reader of this crate
//! that knows what it will yield says so, it foretells: its model is the
//! sequence of items that it has yet to yield, and an adapter over a reader
//! that foretells foretells as well. Whatever the inner reader is, an adapter
//! pulls from it and hands what it pulled to a step function, whose contract
//! says what goes out for it.

pub mod avro;
pub mod csv;
pub mod display;
pub mod orc;
pub mod parquet;
pub mod record_batch_filter;
pub mod window;
pub mod xlsx;

use arrow::datatypes::Schema;
use arrow::error::ArrowError;
use std::sync::Arc;
use vstd::prelude::*;

use crate::batch::batch_clone;
use crate::batch::batch_fields;
use crate::batch::batch_model;
use crate::batch::batch_num_rows;
use crate::batch::batch_rows;
use crate::batch::batch_schema;
use crate::batch::batch_slice;
use crate::batch::error_text;
use crate::batch::schema_empty;
use crate::batch::schema_fields;
use crate::batch::slice_model;
use crate::batch::Batch;
use crate::batch::BatchModel;
use crate::batch::FieldModel;
use crate::batch::Row;
use crate::errors::Error;

verus! {

/// Arguments for reading a file (Avro, Parquet, ORC).
pub struct ReadArgs {
    pub path: String,
    pub limit: Option<usize>,
    pub offset: Option<usize>,
}

/// Arguments for writing a file (CSV, Avro, Parquet, ORC, XLSX).
pub struct WriteArgs {
    pub path: String,
}

/// Arguments for writing a JSON file.
pub struct WriteJsonArgs {
    pub path: String,
    /// When true, omit keys with null/missing values. When false, output default values.
    pub sparse: bool,
    /// When true, format output with indentation and newlines.
    pub pretty: bool,
}

/// Arguments for writing a YAML file.
pub struct WriteYamlArgs {
    pub path: String,
    /// When true, omit keys with null/missing values. When false, output default values.
    pub sparse: bool,
}

/// A `Step` defines a step in the pipeline that can be executed
/// and has an input and output type.
pub trait Step: Sized {
    type Input;

    type Output;

    /// Execute the step
    fn execute(self) -> Result<Self::Output, Error>;
}

/// One item of a reader: a batch, or a failure to produce one, with the
/// message of its error.
pub enum ItemModel {
    Batch(BatchModel),
    Failure(Seq<char>),
}

/// What an item of a reader is, as far as the pipeline is concerned.
pub open spec fn item_model(item: Result<Batch, ArrowError>) -> ItemModel {
    match item {
        Ok(b) => ItemModel::Batch(batch_model(b)),
        Err(e) => ItemModel::Failure(error_text(e)),
    }
}

/// What was pulled from a reader: an item, or nothing once it is exhausted.
pub open spec fn pulled_model(pulled: Option<Result<Batch, ArrowError>>) -> Option<ItemModel> {
    match pulled {
        Some(item) => Some(item_model(item)),
        None => None,
    }
}

/// The items of a list of batches, none of them a failure.
pub open spec fn batch_items(batches: Seq<Batch>) -> Seq<ItemModel> {
    Seq::new(batches.len(), |i: int| ItemModel::Batch(batch_model(batches[i])))
}

/// The rows that an item carries: those of its batch, none for a failure.
pub open spec fn item_rows(item: ItemModel) -> Seq<Row> {
    match item {
        ItemModel::Batch(m) => m.rows,
        ItemModel::Failure(_) => Seq::empty(),
    }
}

/// The rows of the batches among `items`, one batch after the other.
pub open spec fn rows_of(items: Seq<ItemModel>) -> Seq<Row>
    decreases items.len(),
{
    if items.len() == 0 {
        Seq::empty()
    } else {
        item_rows(items[0]) + rows_of(items.skip(1))
    }
}

/// The rows of two runs of items, one after the other, are the rows of the
/// first followed by the rows of the second.
pub proof fn lemma_rows_of_concat(a: Seq<ItemModel>, b: Seq<ItemModel>)
    ensures
        rows_of(a + b) == rows_of(a) + rows_of(b),
    decreases a.len(),
{
    if a.len() == 0 {
        assert(a + b == b);
        assert(rows_of(a) + rows_of(b) == rows_of(b));
    } else {
        assert((a + b).skip(1) == a.skip(1) + b);
        lemma_rows_of_concat(a.skip(1), b);
        assert(rows_of(a + b) == item_rows(a[0]) + (rows_of(a.skip(1)) + rows_of(b)));
        assert(item_rows(a[0]) + (rows_of(a.skip(1)) + rows_of(b)) == (item_rows(a[0]) + rows_of(
            a.skip(1),
        )) + rows_of(b));
    }
}

/// The rows of a single item are the rows that it carries.
pub proof fn lemma_rows_of_single(item: ItemModel)
    ensures
        rows_of(seq![item]) == item_rows(item),
{
    reveal_with_fuel(rows_of, 2);
    assert(seq![item].skip(1).len() == 0);
    assert(item_rows(item) + Seq::<Row>::empty() == item_rows(item));
}

/// What a pull takes from the items that are pending: the first of them, the
/// others staying pending, or nothing where nothing is pending.
pub open spec fn pulls(before: Seq<ItemModel>, pulled: Option<ItemModel>, after: Seq<ItemModel>) -> bool {
    if before.len() > 0 {
        pulled == Some(before[0]) && after == before.skip(1)
    } else {
        pulled is None && after == before
    }
}

/// What is pending after one pull, and no more than one: the items that were
/// pending without the first, or none as before.
pub open spec fn one_pulled(before: Seq<ItemModel>, after: Seq<ItemModel>) -> bool {
    after == if before.len() > 0 {
        before.skip(1)
    } else {
        before
    }
}

/// A pull-based, finite, single-pass sequence of batches that share one
/// schema. The schema can be had without pulling a batch; `next` pulls the
/// next item, and returns `None` once the reader is exhausted.
pub trait RecordBatchReader {
    /// Whether the reader says what it will yield. A reader that does not
    /// override this says nothing, and nothing is assumed of it.
    open spec fn foretells(&self) -> bool {
        false
    }

    /// The fields of the schema of a reader that foretells.
    open spec fn fields(&self) -> Seq<FieldModel> {
        Seq::empty()
    }

    /// The items that a reader that foretells has yet to yield, in order.
    open spec fn pending(&self) -> Seq<ItemModel> {
        Seq::empty()
    }

    fn schema(&self) -> (s: Arc<Schema>)
        ensures
            self.foretells() ==> schema_fields(*s) == self.fields(),
    ;

    fn next(&mut self) -> (item: Option<Result<Batch, ArrowError>>)
        ensures
            final(self).foretells() == old(self).foretells(),
            old(self).foretells() ==> final(self).fields() == old(self).fields() && pulls(
                old(self).pending(),
                pulled_model(item),
                final(self).pending(),
            ),
    ;
}

/// A source of `RecordBatchReader`
pub trait RecordBatchReaderSource {
    type Reader: RecordBatchReader;

    /// Whether the source says what its reader will yield. A source that does
    /// not override this says nothing, and nothing is assumed of it.
    open spec fn foretells(&self) -> bool {
        false
    }

    /// Whether a source that foretells hands out a reader when it is asked.
    open spec fn gives(&self) -> bool {
        false
    }

    /// The fields of the schema of the reader that a source that foretells
    /// hands out.
    open spec fn source_fields(&self) -> Seq<FieldModel> {
        Seq::empty()
    }

    /// The items that the reader of a source that foretells will yield.
    open spec fn source_items(&self) -> Seq<ItemModel> {
        Seq::empty()
    }

    /// Whether `e` is the error with which a source that foretells answers
    /// where it hands out no reader.
    open spec fn refuses_with(&self, e: Error) -> bool {
        true
    }

    /// Hands out the reader. A source that foretells hands out a reader
    /// exactly where it says that it gives one: a reader that foretells, with
    /// the fields and the items that the source says, from which nothing has
    /// been pulled yet. Where it gives none, it answers with the error that it
    /// says. It hands out its reader once, and gives none after that.
    fn get_record_batch_reader(&mut self) -> (r: Result<Self::Reader, Error>)
        ensures
            old(self).foretells() ==> final(self).foretells() && !final(self).gives(),
            old(self).foretells() ==> (r is Ok <==> old(self).gives()),
            old(self).foretells() ==> (r matches Err(e) ==> old(self).refuses_with(e)),
            old(self).foretells() ==> (r matches Ok(reader) ==> reader.foretells()
                && reader.fields() == old(self).source_fields() && reader.pending() == old(
                self,
            ).source_items()),
    ;
}

/// The smaller of two numbers.
pub open spec fn min_nat(a: nat, b: nat) -> nat {
    if a <= b {
        a
    } else {
        b
    }
}

/// What a limit does with one item while `remaining` rows are still owed: the
/// item that goes out, and the rows that are owed after it. A batch that fits
/// goes out whole, one that would overshoot is cut to its first `remaining`
/// rows, and a failure goes out as it is.
pub open spec fn limit_step(remaining: nat, item: ItemModel) -> (ItemModel, nat) {
    match item {
        ItemModel::Failure(_) => (item, remaining),
        ItemModel::Batch(m) => if m.rows.len() <= remaining {
            (item, (remaining - m.rows.len()) as nat)
        } else {
            (ItemModel::Batch(slice_model(m, 0, remaining as int)), 0)
        },
    }
}

/// What a limit of `remaining` rows lets through of `items`: each item as
/// `limit_step` has it, until no rows are owed; nothing more is pulled then.
pub open spec fn limit_items(items: Seq<ItemModel>, remaining: nat) -> Seq<ItemModel>
    decreases items.len(),
{
    if remaining == 0 || items.len() == 0 {
        Seq::empty()
    } else {
        let (out, left) = limit_step(remaining, items[0]);
        seq![out] + limit_items(items.skip(1), left)
    }
}

/// A limit of `limit` rows lets through exactly the first `min(limit, total)`
/// rows of the items, in their order, where `total` is the number of rows of
/// all the items.
pub proof fn lemma_limit_rows(items: Seq<ItemModel>, limit: nat)
    ensures
        rows_of(limit_items(items, limit)) == rows_of(items).take(
            min_nat(limit, rows_of(items).len()) as int,
        ),
    decreases items.len(),
{
    let all = rows_of(items);
    if limit == 0 || items.len() == 0 {
        assert(rows_of(limit_items(items, limit)) == all.take(0));
    } else {
        let rest = items.skip(1);
        let (out, left) = limit_step(limit, items[0]);
        let through = limit_items(rest, left);
        lemma_limit_rows(rest, left);
        lemma_rows_of_concat(seq![out], through);
        lemma_rows_of_single(out);
        match items[0] {
            ItemModel::Failure(_) => {
                assert(all == rows_of(rest));
                assert(Seq::<Row>::empty() + rows_of(through) == rows_of(through));
            },
            ItemModel::Batch(m) => {
                if m.rows.len() <= limit {
                    assert(m.rows + rows_of(rest).take(
                        min_nat(left, rows_of(rest).len()) as int,
                    ) == all.take(min_nat(limit, all.len()) as int));
                } else {
                    assert(through == Seq::<ItemModel>::empty());
                    assert(m.rows.subrange(0, limit as int) + Seq::<Row>::empty() == all.take(
                        limit as int,
                    ));
                }
            },
        }
    }
}

/// A limit of zero rows lets nothing through, and a limit of no fewer rows
/// than there are lets every row through.
pub proof fn lemma_limit_bounds(items: Seq<ItemModel>, limit: nat)
    ensures
        limit == 0 ==> limit_items(items, limit) == Seq::<ItemModel>::empty(),
        limit >= rows_of(items).len() ==> rows_of(limit_items(items, limit)) == rows_of(items),
        rows_of(limit_items(items, limit)).len() == min_nat(limit, rows_of(items).len()),
{
    lemma_limit_rows(items, limit);
    let all = rows_of(items);
    if limit >= all.len() {
        assert(all.take(all.len() as int) == all);
    }
}

/// A RecordBatchReader that limits the number of rows read.
pub struct LimitingRecordBatchReader<Inner: RecordBatchReader> {
    inner: Inner,
    limit: usize,
    records_read: usize,
}

impl<Inner: RecordBatchReader> LimitingRecordBatchReader<Inner> {
    /// The reader that is being limited.
    pub closed spec fn inner(&self) -> Inner {
        self.inner
    }

    /// The number of rows that may still be yielded.
    pub closed spec fn remaining(&self) -> nat {
        if self.records_read >= self.limit {
            0
        } else {
            (self.limit - self.records_read) as nat
        }
    }

    /// Limits `inner` to its first `limit` rows.
    pub fn new(inner: Inner, limit: usize) -> (r: Self)
        ensures
            r.inner() == inner,
            r.remaining() == limit,
    {
        Self { inner, limit, records_read: 0 }
    }

    /// Whether rows are still owed, so that the inner reader is to be pulled.
    pub fn wants_more(&self) -> (more: bool)
        ensures
            more == (self.remaining() > 0),
    {
        self.records_read < self.limit
    }

    /// Takes what was pulled from the inner reader, and gives what goes out
    /// for it: the item that `limit_step` says, with the rows that are owed
    /// reduced as it says; nothing for an exhausted reader.
    pub fn accept(&mut self, pulled: Option<Result<Batch, ArrowError>>) -> (item: Option<
        Result<Batch, ArrowError>,
    >)
        ensures
            final(self).inner() == old(self).inner(),
            match pulled_model(pulled) {
                Some(model) => pulled_model(item) == Some(
                    limit_step(old(self).remaining(), model).0,
                ) && final(self).remaining() == limit_step(old(self).remaining(), model).1,
                None => item is None && final(self).remaining() == old(self).remaining(),
            },
            pulled matches Some(Err(e)) ==> item == Some(Err::<Batch, ArrowError>(e)),
    {
        match pulled {
            Some(Ok(batch)) => {
                let remaining: usize = if self.records_read >= self.limit {
                    0
                } else {
                    self.limit - self.records_read
                };
                let rows: usize = batch_num_rows(&batch);
                if rows <= remaining {
                    self.records_read += rows;
                    Some(Ok(batch))
                } else {
                    let sliced = batch_slice(&batch, 0, remaining);
                    self.records_read = self.limit;
                    Some(Ok(sliced))
                }
            },
            Some(Err(e)) => Some(Err(e)),
            None => None,
        }
    }
}

impl<Inner: RecordBatchReader> RecordBatchReader for LimitingRecordBatchReader<Inner> {
    /// A limited reader foretells where its inner reader does.
    open spec fn foretells(&self) -> bool {
        self.inner().foretells()
    }

    /// The fields of the inner reader.
    open spec fn fields(&self) -> Seq<FieldModel> {
        self.inner().fields()
    }

    /// What the limit lets through of what the inner reader has pending.
    open spec fn pending(&self) -> Seq<ItemModel> {
        limit_items(self.inner().pending(), self.remaining())
    }

    /// The schema that the inner reader gives.
    fn schema(&self) -> (s: Arc<Schema>)
        ensures
            call_ensures(Inner::schema, (&self.inner(),), s),
    {
        self.inner.schema()
    }

    /// Pulls from the inner reader only while rows are still owed, once, and
    /// hands what it pulled to `accept`. Over a reader that foretells, it
    /// yields what the limit lets through of the items of that reader, one by
    /// one, and what it does not yield stays pending in that reader.
    fn next(&mut self) -> (item: Option<Result<Batch, ArrowError>>)
        ensures
            old(self).remaining() == 0 ==> item is None && *final(self) == *old(self),
            final(self).remaining() <= old(self).remaining(),
            item matches Some(Ok(batch)) ==> final(self).remaining() + batch_rows(batch).len()
                == old(self).remaining(),
            old(self).foretells() && old(self).remaining() > 0 ==> one_pulled(
                old(self).inner().pending(),
                final(self).inner().pending(),
            ),
    {
        if !self.wants_more() {
            return None;
        }
        let ghost before = self.inner.pending();
        let ghost owed = self.remaining();
        let pulled = self.inner.next();
        let item = self.accept(pulled);
        proof {
            if old(self).foretells() && before.len() > 0 {
                let (out, left) = limit_step(owed, before[0]);
                let through = limit_items(before.skip(1), left);
                assert((seq![out] + through).skip(1) == through);
            }
        }
        item
    }
}

/// A reader with a limit on its rows, or without one.
pub enum MaybeLimitedReader<Inner: RecordBatchReader> {
    Limited(LimitingRecordBatchReader<Inner>),
    Whole(Inner),
}

impl<Inner: RecordBatchReader> MaybeLimitedReader<Inner> {
    /// The reader that may be limited.
    pub open spec fn inner(&self) -> Inner {
        match self {
            MaybeLimitedReader::Limited(r) => r.inner(),
            MaybeLimitedReader::Whole(r) => *r,
        }
    }

    /// The number of rows that may still be yielded, where there is a limit.
    pub open spec fn remaining(&self) -> Option<nat> {
        match self {
            MaybeLimitedReader::Limited(r) => Some(r.remaining()),
            MaybeLimitedReader::Whole(_) => None,
        }
    }
}

/// What a limit that may be absent lets through of `items`: all of them where
/// there is none.
pub open spec fn maybe_limit_items(items: Seq<ItemModel>, remaining: Option<nat>) -> Seq<ItemModel> {
    match remaining {
        Some(rows) => limit_items(items, rows),
        None => items,
    }
}

impl<Inner: RecordBatchReader> RecordBatchReader for MaybeLimitedReader<Inner> {
    /// The reader foretells where its inner reader does.
    open spec fn foretells(&self) -> bool {
        self.inner().foretells()
    }

    /// The fields of the inner reader.
    open spec fn fields(&self) -> Seq<FieldModel> {
        self.inner().fields()
    }

    /// What the limit, where there is one, lets through of what the inner
    /// reader has pending.
    open spec fn pending(&self) -> Seq<ItemModel> {
        maybe_limit_items(self.inner().pending(), self.remaining())
    }

    /// The schema that the inner reader gives.
    fn schema(&self) -> (s: Arc<Schema>)
        ensures
            call_ensures(Inner::schema, (&self.inner(),), s),
    {
        match self {
            MaybeLimitedReader::Limited(r) => r.schema(),
            MaybeLimitedReader::Whole(r) => r.schema(),
        }
    }

    /// The next item of the limited reader, where there is a limit, and of
    /// the inner reader itself, where there is none. The inner reader is
    /// pulled once, and not at all where no rows are owed.
    fn next(&mut self) -> (item: Option<Result<Batch, ArrowError>>)
        ensures
            final(self).remaining() is Some <==> old(self).remaining() is Some,
            old(self).remaining() == Some(0nat) ==> item is None && *final(self) == *old(self),
            old(self).remaining() matches Some(owed) ==> final(self).remaining()->0 <= owed,
            old(self).foretells() && old(self).remaining() != Some(0nat) ==> one_pulled(
                old(self).inner().pending(),
                final(self).inner().pending(),
            ),
    {
        match self {
            MaybeLimitedReader::Limited(r) => r.next(),
            MaybeLimitedReader::Whole(r) => r.next(),
        }
    }
}

/// The reader of a file whose decoder takes no limit: where the request holds
/// one, the reader is limited to that many rows; where it holds none, the
/// reader is handed on as it is.
pub fn limit_reader<Inner: RecordBatchReader>(inner: Inner, limit: Option<usize>) -> (r:
    MaybeLimitedReader<Inner>)
    ensures
        r.inner() == inner,
        r.remaining() == match limit {
            Some(l) => Some(l as nat),
            None => None,
        },
{
    match limit {
        Some(limit) => MaybeLimitedReader::Limited(LimitingRecordBatchReader::new(inner, limit)),
        None => MaybeLimitedReader::Whole(inner),
    }
}

/// A RecordBatchReader that yields batches from a Vec.
pub struct VecRecordBatchReader {
    batches: Vec<Batch>,
    index: usize,
}

impl VecRecordBatchReader {
    /// The batches of the list that have not been yielded.
    pub closed spec fn rest(&self) -> Seq<Batch> {
        if self.index <= self.batches.len() {
            self.batches@.skip(self.index as int)
        } else {
            Seq::empty()
        }
    }

    /// The first batch of the whole list, yielded or not.
    pub closed spec fn first(&self) -> Option<Batch> {
        if self.batches.len() > 0 {
            Some(self.batches[0])
        } else {
            None
        }
    }

}

/// The fields of the schema of a list of batches: those of its first batch,
/// or none where the list is empty.
pub open spec fn first_fields(first: Option<Batch>) -> Seq<FieldModel> {
    match first {
        Some(b) => batch_fields(b),
        None => Seq::empty(),
    }
}

impl RecordBatchReader for VecRecordBatchReader {
    /// A reader over a list knows what it will yield.
    open spec fn foretells(&self) -> bool {
        true
    }

    /// The fields of the reader's schema: those of the first batch of the
    /// list, or none where the list is empty.
    open spec fn fields(&self) -> Seq<FieldModel> {
        first_fields(self.first())
    }

    /// The batches of the list that have not been yielded.
    open spec fn pending(&self) -> Seq<ItemModel> {
        batch_items(self.rest())
    }

    /// The schema of the first batch of the list, or the empty schema where
    /// the list is empty.
    fn schema(&self) -> (s: Arc<Schema>) {
        if self.batches.len() > 0 {
            batch_schema(&self.batches[0])
        } else {
            Arc::new(schema_empty())
        }
    }

    /// The first pending batch, which then is pending no more, or `None` once
    /// nothing is pending.
    fn next(&mut self) -> (item: Option<Result<Batch, ArrowError>>)
        ensures
            final(self).first() == old(self).first(),
            old(self).rest().len() == 0 ==> item is None && final(self).rest() == old(self).rest(),
            old(self).rest().len() > 0 ==> pulled_model(item) == Some(old(self).pending()[0])
                && final(self).rest() == old(self).rest().skip(1),
    {
        if self.index >= self.batches.len() {
            return None;
        }
        let batch = batch_clone(&self.batches[self.index]);
        assert(self.rest()[0] == self.batches[self.index as int]);
        assert(self.batches@.skip(self.index as int).skip(1) == self.batches@.skip(
            self.index as int + 1,
        ));
        self.index += 1;
        proof {
            assert(batch_items(self.rest()) == batch_items(old(self).rest()).skip(1));
        }
        Some(Ok(batch))
    }
}

/// A RecordBatchReaderSource that yields batches from a Vec.
pub struct VecRecordBatchReaderSource {
    batches: Option<Vec<Batch>>,
}

impl VecRecordBatchReaderSource {
    /// The list of batches, until the reader is taken.
    pub closed spec fn held(&self) -> Option<Seq<Batch>> {
        match self.batches {
            Some(v) => Some(v@),
            None => None,
        }
    }

    pub fn new(batches: Vec<Batch>) -> (s: Self)
        ensures
            s.held() == Some(batches@),
    {
        Self { batches: Some(batches) }
    }
}

/// The text of the error for a reader that is asked for a second time.
pub open spec fn reader_taken_text() -> Seq<char> {
    "Reader already taken"@
}

/// The first batch of a list, if it has one.
pub open spec fn first_batch(batches: Seq<Batch>) -> Option<Batch> {
    if batches.len() > 0 {
        Some(batches[0])
    } else {
        None
    }
}

impl RecordBatchReaderSource for VecRecordBatchReaderSource {
    type Reader = VecRecordBatchReader;

    /// A source over a list knows what its reader will yield.
    open spec fn foretells(&self) -> bool {
        true
    }

    /// The reader is handed out once.
    open spec fn gives(&self) -> bool {
        self.held() is Some
    }

    /// The fields of the first batch of the list, or none where the list is
    /// empty.
    open spec fn source_fields(&self) -> Seq<FieldModel> {
        match self.held() {
            Some(batches) => first_fields(first_batch(batches)),
            None => Seq::empty(),
        }
    }

    /// The batches of the list, in order.
    open spec fn source_items(&self) -> Seq<ItemModel> {
        match self.held() {
            Some(batches) => batch_items(batches),
            None => Seq::empty(),
        }
    }

    /// The error of a reader that was already taken.
    open spec fn refuses_with(&self, e: Error) -> bool {
        e matches Error::GenericError(m) && m@ == reader_taken_text()
    }

    /// The reader over the whole list, once; after that the error of a reader
    /// that was already taken.
    fn get_record_batch_reader(&mut self) -> (r: Result<VecRecordBatchReader, Error>)
        ensures
            final(self).held() is None,
            match old(self).held() {
                Some(batches) => r matches Ok(reader) && reader.rest() == batches
                    && reader.first() == first_batch(batches),
                None => r matches Err(Error::GenericError(m)) && m@ == reader_taken_text(),
            },
    {
        match self.batches.take() {
            Some(batches) => {
                let reader = VecRecordBatchReader { batches, index: 0 };
                assert(reader.rest() == batches@);
                Ok(reader)
            },
            None => Err(Error::GenericError(String::from_str("Reader already taken"))),
        }
    }
}

/// The first `limit` rows of a dataset that is held in `batches`, or all of it
/// where it has no more rows than that: what a reader over the batches yields
/// when it is limited to `limit` rows.
pub fn head_batches(batches: Vec<Batch>, limit: usize) -> (head: Vec<Batch>)
    ensures
        batch_items(head@) == limit_items(batch_items(batches@), limit as nat),
        rows_of(batch_items(head@)) == rows_of(batch_items(batches@)).take(
            min_nat(limit as nat, rows_of(batch_items(batches@)).len()) as int,
        ),
{
    let ghost items = batch_items(batches@);
    let mut reader = LimitingRecordBatchReader::new(
        VecRecordBatchReader { batches, index: 0 },
        limit,
    );
    let mut head: Vec<Batch> = Vec::new();
    proof {
        assert(reader.inner.rest() == batches@);
        assert(batch_items(head@) + limit_items(items, limit as nat) == limit_items(
            items,
            limit as nat,
        ));
    }
    loop
        invariant_except_break
            batch_items(head@) + limit_items(reader.inner.pending(), reader.remaining())
                == limit_items(items, limit as nat),
        ensures
            batch_items(head@) == limit_items(items, limit as nat),
        decreases reader.inner.rest().len(),
    {
        if !reader.wants_more() {
            assert(batch_items(head@) + Seq::<ItemModel>::empty() == batch_items(head@));
            break ;
        }
        let ghost pending = reader.inner.pending();
        let ghost owed = reader.remaining();
        let ghost before = head@;
        let pulled = reader.inner.next();
        match reader.accept(pulled) {
            Some(Ok(batch)) => {
                head.push(batch);
                proof {
                    let (out, left) = limit_step(owed, pending[0]);
                    let through = limit_items(pending.skip(1), left);
                    assert(reader.inner.pending() == pending.skip(1));
                    assert(batch_items(head@) == batch_items(before) + seq![out]);
                    assert((batch_items(before) + seq![out]) + through == batch_items(before) + (
                    seq![out] + through));
                }
            },
            Some(Err(_)) => {
                assert(false);
                break ;
            },
            None => {
                assert(batch_items(head@) + Seq::<ItemModel>::empty() == batch_items(head@));
                break ;
            },
        }
    }
    proof {
        lemma_limit_rows(items, limit as nat);
    }
    head
}

} // verus!
