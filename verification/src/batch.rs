//! The boundary to the `arrow` crate.
//!
//! A record batch, a schema and an arrow error are values of `arrow`; nothing in
//! this crate looks inside them. What the pipeline needs to know of them is
//! given a mathematical model here, and each `arrow` function the pipeline calls
//! is wrapped once, with a contract over that model. The contracts in this file
//! are believed, not proved: they restate what the `arrow` sources show.

use arrow::datatypes::Schema;
use arrow::error::ArrowError;
use arrow::record_batch::RecordBatch;
use std::sync::Arc;
use vstd::prelude::*;

verus! {

/// A record batch of `arrow`: a schema and, for each of its fields, a column of
/// values, all columns of one length. It is held in a struct of this crate
/// because `RecordBatch` itself cannot be declared to Verus: its impls reach
/// the `Array` trait. The proofs know of a batch only what the contracts below
/// say; callers outside build one around a `RecordBatch` and take it out again
/// through the field.
#[verifier::external_body]
pub struct Batch {
    pub inner: RecordBatch,
}

/// `arrow::datatypes::Schema`, taken as it is: an ordered list of fields.
#[verifier::external_type_specification]
#[verifier::external_body]
pub struct ExSchema(Schema);

/// `arrow::error::ArrowError`, taken as it is.
#[verifier::external_type_specification]
#[verifier::external_body]
pub struct ExArrowError(ArrowError);

/// One field of a schema: its name, the text of its logical type, and whether
/// it admits nulls.
pub struct FieldModel {
    pub name: Seq<char>,
    pub data_type: Seq<char>,
    pub nullable: bool,
}

/// One cell of a row: `None` where the value is null, otherwise the text that
/// `arrow` shows for the value.
pub type Cell = Option<Seq<char>>;

/// One row: a cell for each field, in field order.
pub type Row = Seq<Cell>;

/// The fields of a schema, in order.
pub uninterp spec fn schema_fields(s: Schema) -> Seq<FieldModel>;

/// The fields of a batch's schema, in order. Every row of the batch has a
/// cell for each of them.
pub uninterp spec fn batch_fields(b: Batch) -> Seq<FieldModel>;

/// The rows of a batch, in order. Its length is the batch's row count, also
/// where the batch has no columns.
pub uninterp spec fn batch_rows(b: Batch) -> Seq<Row>;

/// Whether `arrow` has a text form for the values of a logical type, given by
/// its text: whether `array_value_to_string` succeeds on a column of that
/// type.
pub uninterp spec fn has_text_form(data_type: Seq<char>) -> bool;

/// The message of the error with which `RecordBatch::project` fails on a
/// batch of so many fields: it names the first index that is no field.
pub uninterp spec fn project_failure_text(fields: nat, indices: Seq<usize>) -> Seq<char>;

/// The message of an arrow error, as its `Display` shows it.
pub uninterp spec fn error_text(e: ArrowError) -> Seq<char>;

/// What a batch is, as far as the pipeline is concerned.
pub struct BatchModel {
    pub fields: Seq<FieldModel>,
    pub rows: Seq<Row>,
}

/// The model of a batch: its fields and its rows.
pub open spec fn batch_model(b: Batch) -> BatchModel {
    BatchModel { fields: batch_fields(b), rows: batch_rows(b) }
}

/// `indices` picks elements of `s`: element `i` of the result is `s[indices[i]]`.
pub open spec fn pick<T>(s: Seq<T>, indices: Seq<usize>) -> Seq<T> {
    Seq::new(indices.len(), |i: int| s[indices[i] as int])
}

/// Every index is a position of a sequence of length `len`.
pub open spec fn indices_within(indices: Seq<usize>, len: nat) -> bool {
    forall|i: int| 0 <= i < indices.len() ==> (#[trigger] indices[i]) < len
}

/// The batch reduced to the columns at `indices`, in that order.
pub open spec fn project_model(m: BatchModel, indices: Seq<usize>) -> BatchModel {
    BatchModel {
        fields: pick(m.fields, indices),
        rows: Seq::new(m.rows.len(), |r: int| pick(m.rows[r], indices)),
    }
}

/// The batch reduced to the rows `[offset, offset + length)`.
pub open spec fn slice_model(m: BatchModel, offset: int, length: int) -> BatchModel {
    BatchModel { fields: m.fields, rows: m.rows.subrange(offset, offset + length) }
}

/// The first position of `fields` whose name is `name`, if there is one.
pub open spec fn first_named(fields: Seq<FieldModel>, name: Seq<char>, at: int) -> bool {
    &&& 0 <= at < fields.len()
    &&& fields[at].name == name
    &&& forall|j: int| 0 <= j < at ==> (#[trigger] fields[j]).name != name
}

/// No field of `fields` is called `name`.
pub open spec fn none_named(fields: Seq<FieldModel>, name: Seq<char>) -> bool {
    forall|j: int| 0 <= j < fields.len() ==> (#[trigger] fields[j]).name != name
}

/// `RecordBatch::num_rows`: the stored row count, which is the number of rows
/// of the batch.
#[verifier::external_body]
pub(crate) fn batch_num_rows(b: &Batch) -> (n: usize)
    ensures
        n == batch_rows(*b).len(),
{
    b.inner.num_rows()
}

/// `RecordBatch::slice`: every column is sliced to `[offset, offset + length)`
/// and the schema is kept. The call panics where the range runs past the last
/// row, so the range must lie inside the batch.
#[verifier::external_body]
pub(crate) fn batch_slice(b: &Batch, offset: usize, length: usize) -> (s: Batch)
    requires
        offset + length <= batch_rows(*b).len(),
    ensures
        batch_model(s) == slice_model(batch_model(*b), offset as int, length as int),
{
    Batch { inner: b.inner.slice(offset, length) }
}

/// `RecordBatch::project`: fails exactly where an index is no column of the
/// batch, with an error whose message is made of the number of fields and the
/// indices; otherwise the result holds the columns at `indices`, in that
/// order, with their fields, and as many rows as before.
#[verifier::external_body]
pub(crate) fn batch_project(b: &Batch, indices: &Vec<usize>) -> (p: Result<Batch, ArrowError>)
    ensures
        p is Ok <==> indices_within(indices@, batch_fields(*b).len()),
        p matches Ok(q) ==> batch_model(q) == project_model(batch_model(*b), indices@),
        p matches Err(e) ==> error_text(e) == project_failure_text(
            batch_fields(*b).len(),
            indices@,
        ),
{
    b.inner.project(indices).map(|inner| Batch { inner })
}

/// `RecordBatch::schema`: the schema of the batch.
#[verifier::external_body]
pub(crate) fn batch_schema(b: &Batch) -> (s: Arc<Schema>)
    ensures
        schema_fields(*s) == batch_fields(*b),
{
    b.inner.schema()
}

/// The text of a cell: none for a null.
pub open spec fn cell_text(cell: Cell) -> Seq<char> {
    match cell {
        Some(text) => text,
        None => Seq::empty(),
    }
}

/// `Array::is_null` of `RecordBatch::column`: whether the cell at `row` of the
/// column at `column` is null. The calls panic where the batch has no such
/// column or no such row.
#[verifier::external_body]
pub(crate) fn batch_cell_is_null(b: &Batch, column: usize, row: usize) -> (null: bool)
    requires
        column < batch_fields(*b).len(),
        row < batch_rows(*b).len(),
    ensures
        null == (batch_rows(*b)[row as int][column as int] is None),
{
    b.inner.column(column).is_null(row)
}

/// `arrow::util::display::array_value_to_string` on `RecordBatch::column`: the
/// text of the cell at `row` of the column at `column`, which is empty for a
/// null, or an error where `arrow` has no text form for the column's type.
/// Whether it has one is decided when the formatter is made, from the type
/// alone, whatever the row. The calls panic where the batch has no such column
/// or no such row.
#[verifier::external_body]
pub(crate) fn batch_cell_text(b: &Batch, column: usize, row: usize) -> (text: Result<
    String,
    ArrowError,
>)
    requires
        column < batch_fields(*b).len(),
        row < batch_rows(*b).len(),
    ensures
        text is Ok <==> has_text_form(batch_fields(*b)[column as int].data_type),
        text matches Ok(t) ==> t@ == cell_text(batch_rows(*b)[row as int][column as int]),
{
    arrow::util::display::array_value_to_string(b.inner.column(column).as_ref(), row)
}

/// `RecordBatch::clone`: a batch with the same schema and rows.
#[verifier::external_body]
pub(crate) fn batch_clone(b: &Batch) -> (c: Batch)
    ensures
        batch_model(c) == batch_model(*b),
{
    Batch { inner: b.inner.clone() }
}

/// `Schema::empty`: a schema without fields.
#[verifier::external_body]
pub(crate) fn schema_empty() -> (s: Schema)
    ensures
        schema_fields(s) == Seq::<FieldModel>::empty(),
{
    Schema::empty()
}

/// `Schema::index_of`: the position of the first field with that name, or an
/// error where no field has it.
#[verifier::external_body]
pub(crate) fn schema_index_of(s: &Schema, name: &str) -> (r: Result<usize, ArrowError>)
    ensures
        match r {
            Ok(at) => first_named(schema_fields(*s), name@, at as int),
            Err(_) => none_named(schema_fields(*s), name@),
        },
{
    s.index_of(name)
}

/// `Schema::project`: fails exactly where an index is no field of the schema;
/// otherwise the result holds the fields at `indices`, in that order.
#[verifier::external_body]
pub(crate) fn schema_project(s: &Schema, indices: &Vec<usize>) -> (p: Result<Schema, ArrowError>)
    ensures
        p is Ok <==> indices_within(indices@, schema_fields(*s).len()),
        p matches Ok(q) ==> schema_fields(q) == pick(schema_fields(*s), indices@),
{
    s.project(indices)
}

/// `Schema::fields`, its length: the number of fields.
#[verifier::external_body]
pub(crate) fn schema_len(s: &Schema) -> (n: usize)
    ensures
        n == schema_fields(*s).len(),
{
    s.fields().len()
}

/// `Field::name` of `Schema::field`: the name of the field at `at`. The call
/// panics where the schema has no such field.
#[verifier::external_body]
pub(crate) fn schema_field_name(s: &Schema, at: usize) -> (name: String)
    requires
        at < schema_fields(*s).len(),
    ensures
        name@ == schema_fields(*s)[at as int].name,
{
    s.field(at).name().clone()
}

/// `Field::data_type` of `Schema::field`, in its `Debug` form: the text of the
/// logical type of the field at `at`. The call panics where the schema has no
/// such field.
#[verifier::external_body]
pub(crate) fn schema_field_type(s: &Schema, at: usize) -> (data_type: String)
    requires
        at < schema_fields(*s).len(),
    ensures
        data_type@ == schema_fields(*s)[at as int].data_type,
{
    format!("{:?}", s.field(at).data_type())
}

/// `Field::is_nullable` of `Schema::field`: whether the field at `at` admits
/// nulls. The call panics where the schema has no such field.
#[verifier::external_body]
pub(crate) fn schema_field_nullable(s: &Schema, at: usize) -> (nullable: bool)
    requires
        at < schema_fields(*s).len(),
    ensures
        nullable == schema_fields(*s)[at as int].nullable,
{
    s.field(at).is_nullable()
}

/// `ArrowError`'s `Display`: the message of the error.
#[verifier::external_body]
pub(crate) fn arrow_error_message(e: &ArrowError) -> (m: String)
    ensures
        m@ == error_text(*e),
{
    e.to_string()
}

/// The number of rows of a batch.
pub fn num_rows(b: &Batch) -> (n: usize)
    ensures
        n == batch_rows(*b).len(),
{
    batch_num_rows(b)
}

} // verus!
