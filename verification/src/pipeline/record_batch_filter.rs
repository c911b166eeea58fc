//! Column projection: a reader reduced to the requested fields, in the
//! requested order.
//!
//! The requested names are resolved against the schema once, before any batch
//! is pulled; a name that no field has, or more than one, is an error then and
//! there.

use arrow::datatypes::Schema;
use arrow::error::ArrowError;
use std::sync::Arc;
use vstd::prelude::*;

use crate::batch::Batch;
use crate::batch::BatchModel;
use crate::batch::FieldModel;
use crate::batch::Row;
use crate::batch::batch_project;
use crate::batch::first_named;
use crate::batch::indices_within;
use crate::batch::none_named;
use crate::batch::pick;
use crate::batch::project_failure_text;
use crate::batch::project_model;
use crate::batch::schema_field_name;
use crate::batch::schema_fields;
use crate::batch::schema_index_of;
use crate::batch::schema_len;
use crate::batch::schema_project;
use crate::errors::Error;
use crate::pipeline::ItemModel;
use crate::pipeline::RecordBatchReader;
use crate::pipeline::RecordBatchReaderSource;
use crate::pipeline::Step;
use crate::pipeline::item_rows;
use crate::pipeline::lemma_limit_rows;
use crate::pipeline::limit_items;
use crate::pipeline::limit_step;
use crate::pipeline::min_nat;
use crate::pipeline::one_pulled;
use crate::pipeline::pulled_model;
use crate::pipeline::rows_of;
use crate::text::texts;

verus! {

/// The names of the fields, in order.
pub open spec fn field_names(fields: Seq<FieldModel>) -> Seq<Seq<char>> {
    Seq::new(fields.len(), |i: int| fields[i].name)
}

/// `at` is the position of the only field that is called `name`.
pub open spec fn only_named(fields: Seq<FieldModel>, name: Seq<char>, at: int) -> bool {
    &&& first_named(fields, name, at)
    &&& forall|j: int| at < j < fields.len() ==> (#[trigger] fields[j]).name != name
}

/// More than one field is called `name`.
pub open spec fn several_named(fields: Seq<FieldModel>, name: Seq<char>) -> bool {
    exists|a: int, b: int|
        0 <= a < b < fields.len() && (#[trigger] fields[a]).name == name
            && (#[trigger] fields[b]).name == name
}

/// Exactly one field is called `name`.
pub open spec fn one_named(fields: Seq<FieldModel>, name: Seq<char>) -> bool {
    !none_named(fields, name) && !several_named(fields, name)
}

/// `indices` resolves `names` against `fields`: one index for each name, that
/// of the only field so called.
pub open spec fn resolved(fields: Seq<FieldModel>, names: Seq<Seq<char>>, indices: Seq<usize>) -> bool {
    &&& indices.len() == names.len()
    &&& forall|i: int|
        0 <= i < names.len() ==> only_named(fields, #[trigger] names[i], indices[i] as int)
}

/// `names[at]` is the first of the names that does not name exactly one
/// field.
pub open spec fn first_unresolved(fields: Seq<FieldModel>, names: Seq<Seq<char>>, at: int) -> bool {
    &&& 0 <= at < names.len()
    &&& !one_named(fields, names[at])
    &&& forall|j: int| 0 <= j < at ==> one_named(fields, #[trigger] names[j])
}

/// `e` is the error for the first of the names that does not name exactly
/// one field: it holds that name, and says that no field has it, or that
/// several have it.
pub open spec fn unresolved_error(fields: Seq<FieldModel>, names: Seq<Seq<char>>, e: Error) -> bool {
    match e {
        Error::ColumnNotFound(name) => none_named(fields, name@) && exists|at: int| #[trigger]
            first_unresolved(fields, names, at) && names[at] == name@,
        Error::AmbiguousColumn(name) => several_named(fields, name@) && exists|at: int|
            #[trigger] first_unresolved(fields, names, at) && names[at] == name@,
        _ => false,
    }
}

/// Every name is the name of exactly one field.
pub open spec fn all_resolvable(fields: Seq<FieldModel>, names: Seq<Seq<char>>) -> bool {
    forall|i: int| 0 <= i < names.len() ==> one_named(fields, #[trigger] names[i])
}

/// The index that each name resolves to.
pub open spec fn resolve(fields: Seq<FieldModel>, names: Seq<Seq<char>>) -> Seq<usize> {
    Seq::new(
        names.len(),
        |i: int| (choose|at: int| only_named(fields, names[i], at)) as usize,
    )
}

/// A name that resolves names exactly one field, and resolves to one index
/// only.
pub proof fn lemma_only_named(fields: Seq<FieldModel>, name: Seq<char>, a: int, b: int)
    requires
        only_named(fields, name, a),
    ensures
        one_named(fields, name),
        only_named(fields, name, b) ==> a == b,
{
    assert(fields[a].name == name);
    if only_named(fields, name, b) {
        if a < b {
            assert(fields[a].name != name);
        } else if b < a {
            assert(fields[b].name != name);
        }
    }
    if several_named(fields, name) {
        let (x, y) = choose|x: int, y: int|
            0 <= x < y < fields.len() && (#[trigger] fields[x]).name == name
                && (#[trigger] fields[y]).name == name;
        if x != a {
            assert(fields[x].name != name);
        } else {
            assert(fields[y].name != name);
        }
    }
}

/// Names resolve in one way only.
pub proof fn lemma_resolved_unique(
    fields: Seq<FieldModel>,
    names: Seq<Seq<char>>,
    indices: Seq<usize>,
)
    requires
        resolved(fields, names, indices),
    ensures
        indices == resolve(fields, names),
        indices_within(indices, fields.len()),
        all_resolvable(fields, names),
        field_names(pick(fields, indices)) == names,
{
    assert forall|i: int| 0 <= i < names.len() implies indices[i] == resolve(fields, names)[i] by {
        assert(only_named(fields, names[i], indices[i] as int));
        let at = choose|at: int| only_named(fields, names[i], at);
        lemma_only_named(fields, names[i], indices[i] as int, at);
    }
    assert(indices =~= resolve(fields, names));
    assert forall|i: int| 0 <= i < indices.len() implies (#[trigger] indices[i]) < fields.len() by {
        assert(only_named(fields, names[i], indices[i] as int));
    }
    assert forall|i: int| 0 <= i < names.len() implies one_named(fields, #[trigger] names[i]) by {
        assert(only_named(fields, names[i], indices[i] as int));
        lemma_only_named(fields, names[i], indices[i] as int, indices[i] as int);
    }
    assert forall|i: int| 0 <= i < names.len() implies field_names(pick(fields, indices))[i]
        == names[i] by {
        assert(only_named(fields, names[i], indices[i] as int));
    }
    assert(field_names(pick(fields, indices)) =~= names);
}

/// Whether a field after the one at `after` is called `name`.
fn named_again(schema: &Schema, name: &String, after: usize) -> (again: bool)
    requires
        after < schema_fields(*schema).len(),
    ensures
        again == exists|j: int|
            after < j < schema_fields(*schema).len() && (#[trigger] schema_fields(*schema)[j]).name
                == name@,
{
    let count: usize = schema_len(schema);
    let mut j: usize = after + 1;
    while j < count
        invariant
            after < j <= count,
            count == schema_fields(*schema).len(),
            forall|k: int| after < k < j ==> (#[trigger] schema_fields(*schema)[k]).name != name@,
        decreases count - j,
    {
        if schema_field_name(schema, j) == *name {
            return true;
        }
        j += 1;
    }
    false
}

/// Resolves each requested name to the index of the field of the schema with
/// that name, in the order of the request. A name resolves where exactly one
/// field has it. Where a name does not resolve, the error holds the first such
/// name, and says whether no field has it or more than one.
pub fn resolve_columns(schema: &Schema, columns: &Vec<String>) -> (r: Result<Vec<usize>, Error>)
    ensures
        r is Ok <==> all_resolvable(schema_fields(*schema), texts(columns@)),
        match r {
            Ok(indices) => resolved(schema_fields(*schema), texts(columns@), indices@),
            Err(e) => unresolved_error(schema_fields(*schema), texts(columns@), e),
        },
{
    let ghost fields = schema_fields(*schema);
    let ghost names = texts(columns@);
    let mut indices: Vec<usize> = Vec::new();
    let mut i: usize = 0;
    while i < columns.len()
        invariant
            i <= columns.len(),
            fields == schema_fields(*schema),
            names == texts(columns@),
            indices.len() == i,
            forall|j: int| 0 <= j < i ==> only_named(fields, #[trigger] names[j], indices[j] as int),
        decreases columns.len() - i,
    {
        proof {
            assert(names[i as int] == columns[i as int]@);
            assert forall|j: int| 0 <= j < i implies one_named(fields, #[trigger] names[j]) by {
                assert(only_named(fields, names[j], indices[j] as int));
                lemma_only_named(fields, names[j], indices[j] as int, indices[j] as int);
            }
        }
        match schema_index_of(schema, columns[i].as_str()) {
            Ok(at) => {
                if named_again(schema, &columns[i], at) {
                    let name = columns[i].clone();
                    proof {
                        assert(fields[at as int].name == names[i as int]);
                        assert(several_named(fields, names[i as int]));
                        assert(first_unresolved(fields, names, i as int));
                        assert(columns[i as int]@ == name@);
                    }
                    return Err(Error::AmbiguousColumn(name));
                }
                indices.push(at);
            },
            Err(_) => {
                let name = columns[i].clone();
                proof {
                    assert(first_unresolved(fields, names, i as int));
                    assert(columns[i as int]@ == name@);
                }
                return Err(Error::ColumnNotFound(name));
            },
        }
        i += 1;
    }
    proof {
        assert(resolved(fields, names, indices@));
        lemma_resolved_unique(fields, names, indices@);
    }
    Ok(indices)
}

/// What projecting to `indices` makes of an item: the batch reduced to those
/// columns, or the failure of `arrow` where the batch lacks one of them; a
/// failure stays the failure that it is.
pub open spec fn project_item(item: ItemModel, indices: Seq<usize>) -> ItemModel {
    match item {
        ItemModel::Batch(m) => if indices_within(indices, m.fields.len()) {
            ItemModel::Batch(project_model(m, indices))
        } else {
            ItemModel::Failure(project_failure_text(m.fields.len(), indices))
        },
        ItemModel::Failure(_) => item,
    }
}

/// What projecting to `indices` makes of a run of items: each item projected,
/// in the same order.
pub open spec fn project_items(items: Seq<ItemModel>, indices: Seq<usize>) -> Seq<ItemModel> {
    Seq::new(items.len(), |i: int| project_item(items[i], indices))
}

/// A batch in which every requested name resolves is projected without
/// failure: the result has the requested names in the requested order, as
/// many rows as before, and in every row the cells of the fields that the
/// names resolve to, so that a name requested twice stands twice with the
/// same cells.
pub proof fn lemma_selected_columns(m: BatchModel, names: Seq<Seq<char>>, indices: Seq<usize>)
    requires
        resolved(m.fields, names, indices),
    ensures
        project_item(ItemModel::Batch(m), indices) == ItemModel::Batch(project_model(m, indices)),
        field_names(project_model(m, indices).fields) == names,
        project_model(m, indices).rows.len() == m.rows.len(),
        forall|r: int, i: int|
            0 <= r < m.rows.len() && 0 <= i < names.len() ==> #[trigger] project_model(
                m,
                indices,
            ).rows[r][i] == m.rows[r][indices[i] as int],
        forall|r: int, i: int, j: int|
            0 <= r < m.rows.len() && 0 <= i < names.len() && 0 <= j < names.len() && names[i]
                == names[j] ==> #[trigger] project_model(m, indices).rows[r][i]
                == #[trigger] project_model(m, indices).rows[r][j],
{
    lemma_resolved_unique(m.fields, names, indices);
    assert forall|r: int, i: int, j: int|
        0 <= r < m.rows.len() && 0 <= i < names.len() && 0 <= j < names.len() && names[i]
            == names[j] implies #[trigger] project_model(m, indices).rows[r][i]
        == #[trigger] project_model(m, indices).rows[r][j] by {
        assert(only_named(m.fields, names[i], indices[i] as int));
        assert(only_named(m.fields, names[j], indices[j] as int));
        lemma_only_named(m.fields, names[i], indices[i] as int, indices[j] as int);
    }
}

/// The rows, each reduced to the cells at `indices`, in that order.
pub open spec fn project_rows(rows: Seq<Row>, indices: Seq<usize>) -> Seq<Row> {
    Seq::new(rows.len(), |r: int| pick(rows[r], indices))
}

/// Every item is a batch that has a column at every index.
pub open spec fn all_have(items: Seq<ItemModel>, indices: Seq<usize>) -> bool {
    forall|i: int|
        0 <= i < items.len() ==> (#[trigger] items[i] matches ItemModel::Batch(m)
            && indices_within(indices, m.fields.len()))
}

/// Projection goes through the rows of a dataset row by row, whatever its
/// batches: the rows of the projected items are the rows of the items, each
/// projected.
pub proof fn lemma_project_rows(items: Seq<ItemModel>, indices: Seq<usize>)
    requires
        all_have(items, indices),
    ensures
        rows_of(project_items(items, indices)) == project_rows(rows_of(items), indices),
    decreases items.len(),
{
    let projected = project_items(items, indices);
    if items.len() == 0 {
        assert(project_rows(rows_of(items), indices) == Seq::<Row>::empty());
    } else {
        let rest = items.skip(1);
        assert(projected.skip(1) == project_items(rest, indices));
        assert forall|i: int| 0 <= i < rest.len() implies (#[trigger] rest[i] matches ItemModel::Batch(
            m,
        ) && indices_within(indices, m.fields.len())) by {
            assert(rest[i] == items[i + 1]);
        }
        lemma_project_rows(rest, indices);
        let m = items[0]->Batch_0;
        assert(item_rows(projected[0]) == project_rows(m.rows, indices));
        assert(project_rows(m.rows, indices) + project_rows(rows_of(rest), indices)
            == project_rows(m.rows + rows_of(rest), indices));
    }
}

/// What a limit lets through of items that all have the columns has them as
/// well.
pub proof fn lemma_limit_keeps_columns(items: Seq<ItemModel>, indices: Seq<usize>, limit: nat)
    requires
        all_have(items, indices),
    ensures
        all_have(limit_items(items, limit), indices),
    decreases items.len(),
{
    if limit == 0 || items.len() == 0 {
    } else {
        let rest = items.skip(1);
        let (out, left) = limit_step(limit, items[0]);
        assert forall|i: int| 0 <= i < rest.len() implies (#[trigger] rest[i] matches ItemModel::Batch(
            m,
        ) && indices_within(indices, m.fields.len())) by {
            assert(rest[i] == items[i + 1]);
        }
        lemma_limit_keeps_columns(rest, indices, left);
        let through = limit_items(rest, left);
        let all = seq![out] + through;
        assert(items[0] is Batch);
        assert forall|i: int| 0 <= i < all.len() implies (#[trigger] all[i] matches ItemModel::Batch(
            m,
        ) && indices_within(indices, m.fields.len())) by {
            if i > 0 {
                assert(all[i] == through[i - 1]);
            }
        }
    }
}

/// The first rows of a selection: a limit of `limit` rows and a projection to
/// the columns at `indices`, in either order, yield the first
/// `min(limit, total)` rows of the dataset, each reduced to those columns, and
/// nothing of any later row.
pub proof fn lemma_head_of_selection(items: Seq<ItemModel>, indices: Seq<usize>, limit: nat)
    requires
        all_have(items, indices),
    ensures
        rows_of(limit_items(project_items(items, indices), limit)) == project_rows(
            rows_of(items).take(min_nat(limit, rows_of(items).len()) as int),
            indices,
        ),
        rows_of(project_items(limit_items(items, limit), indices)) == project_rows(
            rows_of(items).take(min_nat(limit, rows_of(items).len()) as int),
            indices,
        ),
{
    let rows = rows_of(items);
    let count = min_nat(limit, rows.len()) as int;
    lemma_project_rows(items, indices);
    lemma_limit_rows(project_items(items, indices), limit);
    assert(project_rows(rows, indices).take(count) == project_rows(rows.take(count), indices));
    lemma_limit_keeps_columns(items, indices, limit);
    lemma_project_rows(limit_items(items, limit), indices);
    lemma_limit_rows(items, limit);
}

/// A reader whose batches carry only the selected columns, in the order in
/// which they were selected.
pub struct SelectColumnRecordBatchReader<R: RecordBatchReader> {
    reader: R,
    schema: Arc<Schema>,
    indices: Vec<usize>,
}

impl<R: RecordBatchReader> SelectColumnRecordBatchReader<R> {
    /// The reader that is being projected.
    pub closed spec fn inner(&self) -> R {
        self.reader
    }

    /// The index, in the inner reader's schema, of each selected column.
    pub closed spec fn indices(&self) -> Seq<usize> {
        self.indices@
    }

    /// The fields of the projected schema.
    pub closed spec fn projected(&self) -> Seq<FieldModel> {
        schema_fields(*self.schema)
    }

    /// Takes what was pulled from the inner reader, and gives what goes out
    /// for it: a batch reduced to the selected columns, a failure as it is,
    /// and a failure for a batch that lacks one of the columns; nothing for an
    /// exhausted reader.
    pub fn project(&self, pulled: Option<Result<Batch, ArrowError>>) -> (item: Option<
        Result<Batch, ArrowError>,
    >)
        ensures
            pulled_model(item) == match pulled_model(pulled) {
                Some(model) => Some(project_item(model, self.indices())),
                None => None,
            },
            pulled matches Some(Err(e)) ==> item == Some(Err::<Batch, ArrowError>(e)),
    {
        match pulled {
            Some(Ok(batch)) => Some(batch_project(&batch, &self.indices)),
            Some(Err(e)) => Some(Err(e)),
            None => None,
        }
    }
}

impl<R: RecordBatchReader> RecordBatchReader for SelectColumnRecordBatchReader<R> {
    /// A projected reader foretells where its inner reader does.
    open spec fn foretells(&self) -> bool {
        self.inner().foretells()
    }

    /// The fields of the projected schema.
    open spec fn fields(&self) -> Seq<FieldModel> {
        self.projected()
    }

    /// What the inner reader has pending, each item projected.
    open spec fn pending(&self) -> Seq<ItemModel> {
        project_items(self.inner().pending(), self.indices())
    }

    /// The projected schema, which was made when the columns were resolved.
    fn schema(&self) -> (s: Arc<Schema>)
        ensures
            schema_fields(*s) == self.fields(),
    {
        self.schema.clone()
    }

    /// Pulls from the inner reader and hands what it pulled to `project`.
    /// Over a reader that foretells, it yields the items of that reader, each
    /// projected, one by one.
    fn next(&mut self) -> (item: Option<Result<Batch, ArrowError>>)
        ensures
            final(self).indices() == old(self).indices(),
            final(self).fields() == old(self).fields(),
            old(self).foretells() ==> one_pulled(
                old(self).inner().pending(),
                final(self).inner().pending(),
            ),
    {
        let ghost before = self.reader.pending();
        let pulled = self.reader.next();
        proof {
            if old(self).foretells() && before.len() > 0 {
                assert(project_items(before.skip(1), self.indices@) == project_items(
                    before,
                    self.indices@,
                ).skip(1));
            }
        }
        self.project(pulled)
    }
}

/// Projects a reader with the given schema to the requested columns. The
/// names are resolved against the schema, as `resolve_columns` says, and
/// nothing is pulled from the reader: where one of them does not resolve, the
/// error holds the first such name. Otherwise the result's schema has exactly
/// the requested names, in the requested order, a name requested twice
/// standing twice, and every batch will be reduced to those columns.
pub fn select_with_schema<R: RecordBatchReader>(
    reader: R,
    schema: &Schema,
    columns: &Vec<String>,
) -> (r: Result<SelectColumnRecordBatchReader<R>, Error>)
    ensures
        r is Ok <==> all_resolvable(schema_fields(*schema), texts(columns@)),
        match r {
            Ok(selected) => {
                &&& selected.inner() == reader
                &&& selected.indices() == resolve(schema_fields(*schema), texts(columns@))
                &&& selected.fields() == pick(schema_fields(*schema), selected.indices())
                &&& field_names(selected.fields()) == texts(columns@)
            },
            Err(e) => unresolved_error(schema_fields(*schema), texts(columns@), e),
        },
{
    let indices = match resolve_columns(schema, columns) {
        Ok(indices) => indices,
        Err(e) => {
            return Err(e);
        },
    };
    proof {
        lemma_resolved_unique(schema_fields(*schema), texts(columns@), indices@);
    }
    match schema_project(schema, &indices) {
        Ok(projected) => Ok(
            SelectColumnRecordBatchReader { reader, schema: Arc::new(projected), indices },
        ),
        Err(e) => Err(Error::ArrowError(e)),
    }
}

/// What projecting a reader with the given fields to the requested names
/// makes of it, where every name resolves: the reader is kept as it is, and
/// the columns are those that the names resolve to.
pub open spec fn selects<R: RecordBatchReader>(
    selected: SelectColumnRecordBatchReader<R>,
    reader: R,
    fields: Seq<FieldModel>,
    names: Seq<Seq<char>>,
) -> bool {
    &&& selected.inner() == reader
    &&& selected.indices() == resolve(fields, names)
    &&& selected.fields() == pick(fields, resolve(fields, names))
    &&& field_names(selected.fields()) == names
}

/// What projecting a reader with the given fields to the requested names
/// comes to: it succeeds exactly where every name resolves, and then gives
/// what `selects` says; where a name does not resolve, the error is the one
/// for the first such name.
pub open spec fn selection_of<R: RecordBatchReader>(
    r: Result<SelectColumnRecordBatchReader<R>, Error>,
    reader: R,
    fields: Seq<FieldModel>,
    names: Seq<Seq<char>>,
) -> bool {
    &&& r is Ok <==> all_resolvable(fields, names)
    &&& r matches Ok(selected) ==> selects(selected, reader, fields, names)
    &&& r matches Err(e) ==> unresolved_error(fields, names, e)
}

/// What projecting a reader to the requested columns comes to: what
/// `selection_of` says, for the fields of the schema that the reader gives,
/// which are its own fields where it foretells.
pub open spec fn selected_by<R: RecordBatchReader>(
    r: Result<SelectColumnRecordBatchReader<R>, Error>,
    reader: R,
    columns: Seq<String>,
) -> bool {
    &&& reader.foretells() ==> selection_of(r, reader, reader.fields(), texts(columns))
    &&& exists|schema: Arc<Schema>| #[trigger]
        call_ensures(R::schema, (&reader,), schema) && selection_of(
            r,
            reader,
            schema_fields(*schema),
            texts(columns),
        )
}

/// Projects a reader to the requested columns, resolved against the schema
/// that the reader gives, as `select_with_schema` says. A name that does not
/// resolve against that schema is an error before anything is pulled. Of a
/// reader that foretells, the schema is known: the projection succeeds exactly
/// where every name resolves against its fields.
pub fn select_columns<R: RecordBatchReader>(reader: R, columns: &Vec<String>) -> (r: Result<
    SelectColumnRecordBatchReader<R>,
    Error,
>)
    ensures
        selected_by(r, reader, columns@),
        r matches Ok(selected) ==> selected.inner() == reader && field_names(selected.fields())
            == texts(columns@),
{
    let schema = reader.schema();
    let r = select_with_schema(reader, &schema, columns);
    proof {
        assert(selection_of(r, reader, schema_fields(*schema), texts(columns@)));
    }
    r
}

/// A source whose reader is the reader of `prev`, projected to `columns`.
pub struct SelectColumnsStep<S: RecordBatchReaderSource> {
    pub prev: S,
    pub columns: Vec<String>,
}

impl<S: RecordBatchReaderSource> Step for SelectColumnsStep<S> {
    type Input = S;

    type Output = SelectColumnsStep<S>;

    fn execute(self) -> (r: Result<SelectColumnsStep<S>, Error>)
        ensures
            r == Ok::<SelectColumnsStep<S>, Error>(self),
    {
        Ok(self)
    }
}

impl<S: RecordBatchReaderSource> SelectColumnsStep<S> {
    /// The index, in the schema of the reader of `prev`, of each requested
    /// column.
    pub open spec fn selected(&self) -> Seq<usize> {
        resolve(self.prev.source_fields(), texts(self.columns@))
    }

    /// What the step makes of what `prev` answered when it was asked for its
    /// reader: an error is handed on as it is, and nothing is resolved; a
    /// reader is projected to the columns of the step, as `select_columns`
    /// says.
    pub fn select(&self, answer: Result<S::Reader, Error>) -> (r: Result<
        SelectColumnRecordBatchReader<S::Reader>,
        Error,
    >)
        ensures
            match answer {
                Ok(reader) => selected_by(r, reader, self.columns@) && (r matches Ok(selected)
                    ==> selected.inner() == reader && field_names(selected.fields()) == texts(
                    self.columns@,
                )),
                Err(e) => r == Err::<SelectColumnRecordBatchReader<S::Reader>, Error>(e),
            },
    {
        match answer {
            Ok(reader) => select_columns(reader, &self.columns),
            Err(e) => Err(e),
        }
    }
}

impl<S: RecordBatchReaderSource> RecordBatchReaderSource for SelectColumnsStep<S> {
    type Reader = SelectColumnRecordBatchReader<S::Reader>;

    /// The step foretells where `prev` does.
    open spec fn foretells(&self) -> bool {
        self.prev.foretells()
    }

    /// The step gives a reader where `prev` gives one and every requested
    /// column resolves against its schema.
    open spec fn gives(&self) -> bool {
        self.prev.gives() && all_resolvable(self.prev.source_fields(), texts(self.columns@))
    }

    /// The requested fields, in the requested order.
    open spec fn source_fields(&self) -> Seq<FieldModel> {
        pick(self.prev.source_fields(), self.selected())
    }

    /// The items of the reader of `prev`, each projected.
    open spec fn source_items(&self) -> Seq<ItemModel> {
        project_items(self.prev.source_items(), self.selected())
    }

    /// Where `prev` gives no reader, its own error; where it gives one, the
    /// error for the first requested column that does not resolve.
    open spec fn refuses_with(&self, e: Error) -> bool {
        if self.prev.gives() {
            unresolved_error(self.prev.source_fields(), texts(self.columns@), e)
        } else {
            self.prev.refuses_with(e)
        }
    }

    /// The projected reader of `prev`: `prev` is asked for its reader, once,
    /// and its answer is handed to `select`. Fails where `prev` hands out no
    /// reader, with its error, and where a requested column does not resolve
    /// against the schema of that reader, with the error for that column.
    fn get_record_batch_reader(&mut self) -> (r: Result<
        SelectColumnRecordBatchReader<S::Reader>,
        Error,
    >)
        ensures
            final(self).columns == old(self).columns,
            r matches Ok(selected) ==> field_names(selected.fields()) == texts(
                old(self).columns@,
            ),
    {
        let answer = self.prev.get_record_batch_reader();
        self.select(answer)
    }
}

} // verus!
