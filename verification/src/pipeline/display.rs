//! Rows for display: what is shown of each row of a batch.

use vstd::prelude::*;

use crate::batch::batch_cell_is_null;
use crate::batch::batch_cell_text;
use crate::batch::batch_fields;
use crate::batch::batch_num_rows;
use crate::batch::batch_rows;
use crate::batch::batch_schema;
use crate::batch::cell_text;
use crate::batch::has_text_form;
use crate::batch::schema_field_name;
use crate::batch::schema_fields;
use crate::batch::schema_len;
use crate::batch::Batch;
use crate::batch::Cell;
use crate::batch::FieldModel;
use crate::batch::Row;

verus! {

/// The columns that are shown of a row, among its first `columns` columns, in
/// order: all of them, or, where the display is sparse, those whose cell is
/// not null.
pub open spec fn shown_columns(row: Row, columns: nat, sparse: bool) -> Seq<int>
    decreases columns,
{
    if columns == 0 {
        Seq::empty()
    } else {
        let before = shown_columns(row, (columns - 1) as nat, sparse);
        if sparse && row[columns - 1] is None {
            before
        } else {
            before.push(columns - 1)
        }
    }
}

/// The text that stands for a value that has no text form.
pub open spec fn no_text() -> Seq<char> {
    "-"@
}

/// What is shown for a cell of the given field: its text, or a dash where the
/// type of the field has no text form.
pub open spec fn shown_cell(field: FieldModel, cell: Cell) -> Seq<char> {
    if has_text_form(field.data_type) {
        cell_text(cell)
    } else {
        no_text()
    }
}

/// `entries` is what is shown of the first `columns` columns of a row: for
/// each shown column, in order, the name of its field and the text of its
/// cell.
pub open spec fn shows_row(
    fields: Seq<FieldModel>,
    row: Row,
    columns: nat,
    sparse: bool,
    entries: Seq<(String, String)>,
) -> bool {
    let shown = shown_columns(row, columns, sparse);
    &&& entries.len() == shown.len()
    &&& forall|k: int|
        0 <= k < shown.len() ==> (#[trigger] entries[k]).0@ == fields[shown[k]].name
            && entries[k].1@ == shown_cell(fields[shown[k]], row[shown[k]])
}

/// The indices of the shown columns are indices of columns.
pub proof fn lemma_shown_columns_bounds(row: Row, columns: nat, sparse: bool)
    ensures
        shown_columns(row, columns, sparse).len() <= columns,
        forall|k: int|
            0 <= k < shown_columns(row, columns, sparse).len() ==> 0 <= #[trigger] shown_columns(
                row,
                columns,
                sparse,
            )[k] < columns,
        !sparse ==> shown_columns(row, columns, sparse).len() == columns,
    decreases columns,
{
    if columns > 0 {
        lemma_shown_columns_bounds(row, (columns - 1) as nat, sparse);
    }
}

fn yaml_row(batch: &Batch, row: usize, sparse: bool) -> (entries: Vec<(String, String)>)
    requires
        row < batch_rows(*batch).len(),
    ensures
        shows_row(
            batch_fields(*batch),
            batch_rows(*batch)[row as int],
            batch_fields(*batch).len(),
            sparse,
            entries@,
        ),
{
    let schema = batch_schema(batch);
    let columns: usize = schema_len(&schema);
    let ghost fields = batch_fields(*batch);
    let ghost cells = batch_rows(*batch)[row as int];
    let mut entries: Vec<(String, String)> = Vec::new();
    let mut column: usize = 0;
    while column < columns
        invariant
            column <= columns,
            columns == fields.len(),
            fields == batch_fields(*batch),
            fields == schema_fields(*schema),
            cells == batch_rows(*batch)[row as int],
            row < batch_rows(*batch).len(),
            shows_row(fields, cells, column as nat, sparse, entries@),
        decreases columns - column,
    {
        let ghost before = entries@;
        let ghost shown = shown_columns(cells, column as nat, sparse);
        if !(sparse && batch_cell_is_null(batch, column, row)) {
            let name = schema_field_name(&schema, column);
            let value = match batch_cell_text(batch, column, row) {
                Ok(text) => text,
                Err(_) => "-".to_string(),
            };
            entries.push((name, value));
            proof {
                let after = shown.push(column as int);
                assert forall|k: int| 0 <= k < after.len() implies (#[trigger] entries@[k]).0@
                    == fields[after[k]].name && entries@[k].1@ == shown_cell(
                    fields[after[k]],
                    cells[after[k]],
                ) by {
                    if k < shown.len() {
                        assert(entries@[k] == before[k]);
                    }
                }
            }
        }
        column += 1;
    }
    entries
}

/// What is shown of each row of a batch, in order: for each column, the name
/// of its field and the text of its cell, a dash standing for a value without
/// text form. Where the display is sparse, a column whose cell is null is left
/// out of the row.
pub fn record_batch_to_yaml_rows(batch: &Batch, sparse: bool) -> (rows: Vec<Vec<(String, String)>>)
    ensures
        rows.len() == batch_rows(*batch).len(),
        forall|r: int|
            0 <= r < rows.len() ==> shows_row(
                batch_fields(*batch),
                batch_rows(*batch)[r],
                batch_fields(*batch).len(),
                sparse,
                (#[trigger] rows[r])@,
            ),
{
    let num_rows: usize = batch_num_rows(batch);
    let mut rows: Vec<Vec<(String, String)>> = Vec::new();
    let mut row: usize = 0;
    while row < num_rows
        invariant
            row <= num_rows,
            num_rows == batch_rows(*batch).len(),
            rows.len() == row,
            forall|r: int|
                0 <= r < row ==> shows_row(
                    batch_fields(*batch),
                    batch_rows(*batch)[r],
                    batch_fields(*batch).len(),
                    sparse,
                    (#[trigger] rows[r])@,
                ),
        decreases num_rows - row,
    {
        rows.push(yaml_row(batch, row, sparse));
        row += 1;
    }
    rows
}

} // verus!
