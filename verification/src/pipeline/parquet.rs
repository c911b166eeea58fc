//! Reading and writing Parquet files: the requests.
//!
//! A Parquet file declares its row count in its footer, so a window of its
//! rows is asked for by offset and limit and the decoder skips what lies
//! before it.

use vstd::prelude::*;

use crate::batch::Row;
use crate::pipeline::window::declared_row_count;
use crate::pipeline::window::declared_rows;
use crate::pipeline::rows_of;
use crate::pipeline::window::last_rows;
use crate::pipeline::window::lemma_tail_rows;
use crate::pipeline::window::tail_items;
use crate::pipeline::ItemModel;
use crate::pipeline::window::tail_count;
use crate::pipeline::window::tail_offset;
use crate::pipeline::window::tail_window;

verus! {

/// Arguments for reading a parquet file
pub struct ReadParquetArgs {
    pub path: String,
    pub limit: Option<usize>,
    pub offset: Option<usize>,
}

/// A step in a pipeline that reads a parquet file
pub struct ReadParquetStep {
    pub args: ReadParquetArgs,
}

/// Arguments for writing a parquet file
pub struct WriteParquetArgs {
    pub path: String,
}

pub struct WriteParquetResult {}

/// The rows that a decoder yields of a dataset when it is given an offset and
/// a limit: it skips `offset` rows, where one is given, and then stops after
/// `limit` rows, where one is given.
pub open spec fn pushed_down_rows(rows: Seq<Row>, offset: Option<usize>, limit: Option<usize>) -> Seq<
    Row,
> {
    let start = match offset {
        Some(o) => if o <= rows.len() {
            o as int
        } else {
            rows.len() as int
        },
        None => 0,
    };
    let rest = rows.skip(start);
    match limit {
        Some(l) => if l <= rest.len() {
            rest.take(l as int)
        } else {
            rest
        },
        None => rest,
    }
}

/// The request for the last `number` rows of a Parquet file whose footer
/// declares `num_rows` rows: the window is handed to the decoder as offset and
/// limit.
pub fn tail_parquet_args(path: String, num_rows: i64, number: usize) -> (args: ReadParquetArgs)
    ensures
        args.path == path,
        args.limit == Some(
            tail_count(declared_rows(num_rows), number as nat) as usize,
        ),
        args.offset == Some(
            tail_offset(declared_rows(num_rows), number as nat) as usize,
        ),
{
    let total_rows = declared_row_count(num_rows);
    let window = tail_window(total_rows, number);
    ReadParquetArgs { path, limit: Some(window.count), offset: Some(window.offset) }
}

/// A decoder that is handed the window of the last `number` rows as offset and
/// limit yields exactly the last `number` rows of the dataset, or all of it
/// where it has no more rows than that.
pub proof fn lemma_pushed_down_tail(rows: Seq<Row>, number: usize)
    requires
        rows.len() <= usize::MAX,
    ensures
        pushed_down_rows(
            rows,
            Some(tail_offset(rows.len(), number as nat) as usize),
            Some(tail_count(rows.len(), number as nat) as usize),
        ) == last_rows(rows, number as nat),
{
    let offset = tail_offset(rows.len(), number as nat);
    let count = tail_count(rows.len(), number as nat);
    assert(rows.skip(offset as int).take(count as int) == rows.subrange(
        offset as int,
        (offset + count) as int,
    ));
    assert(rows.skip(offset as int).len() == count);
}

/// The two ways to the last rows agree: what the scan cuts out of a decoded
/// dataset, however it is divided into batches, has the rows that a decoder
/// yields when it is handed the window.
pub proof fn lemma_scan_agrees_with_pushdown(items: Seq<ItemModel>, number: usize)
    requires
        rows_of(items).len() <= usize::MAX,
    ensures
        rows_of(tail_items(items, number as nat)) == pushed_down_rows(
            rows_of(items),
            Some(tail_offset(rows_of(items).len(), number as nat) as usize),
            Some(tail_count(rows_of(items).len(), number as nat) as usize),
        ),
{
    lemma_tail_rows(items, items, number as nat);
    lemma_pushed_down_tail(rows_of(items), number);
}

} // verus!
