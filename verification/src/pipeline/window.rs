//! Row windows: the last rows of a dataset.
//!
//! A source that knows its row count from metadata is asked for the window
//! directly, by offset and count. A source that does not is decoded whole and
//! the window is cut out of its batches, whatever their sizes.

use arrow::error::ArrowError;
use vstd::prelude::*;

use crate::batch::batch_model;
use crate::batch::batch_num_rows;
use crate::batch::batch_rows;
use crate::batch::batch_slice;
use crate::batch::slice_model;
use crate::batch::Batch;
use crate::batch::Row;
use crate::errors::Error;
use crate::pipeline::batch_items;
use crate::pipeline::item_rows;
use crate::pipeline::lemma_rows_of_concat;
use crate::pipeline::lemma_rows_of_single;
use crate::pipeline::min_nat;
use crate::pipeline::rows_of;
use crate::pipeline::ItemModel;
use crate::pipeline::VecRecordBatchReaderSource;

verus! {

/// A half-open range `[offset, offset + count)` of row indices of a whole
/// dataset.
#[derive(Clone, Copy, Debug, PartialEq, Eq, Structural)]
pub struct RowWindow {
    pub offset: usize,
    pub count: usize,
}

/// The number of rows in the window of the last `number` rows of `total`.
pub open spec fn tail_count(total: nat, number: nat) -> nat {
    min_nat(number, total)
}

/// The index of the first row in the window of the last `number` rows of
/// `total`.
pub open spec fn tail_offset(total: nat, number: nat) -> nat {
    (total - tail_count(total, number)) as nat
}

/// The rows `[offset, offset + count)` of a dataset.
pub open spec fn window_rows(rows: Seq<Row>, offset: nat, count: nat) -> Seq<Row> {
    rows.subrange(offset as int, (offset + count) as int)
}

/// The last `number` rows of a dataset, or all of them where it has fewer.
pub open spec fn last_rows(rows: Seq<Row>, number: nat) -> Seq<Row> {
    window_rows(rows, tail_offset(rows.len(), number), tail_count(rows.len(), number))
}

/// The window of the last `number` rows of a dataset of `total_rows` rows: all
/// of it where it has no more than `number`.
pub fn tail_window(total_rows: usize, number: usize) -> (w: RowWindow)
    ensures
        w.count == tail_count(total_rows as nat, number as nat),
        w.offset == tail_offset(total_rows as nat, number as nat),
        w.offset + w.count == total_rows,
{
    let count: usize = if number <= total_rows {
        number
    } else {
        total_rows
    };
    RowWindow { offset: total_rows - count, count }
}

/// The row count that a file's metadata declares, as a count: a negative
/// number counts as zero, and one beyond the machine's range as the largest
/// count there is.
pub open spec fn declared_rows(num_rows: i64) -> nat {
    if num_rows <= 0 {
        0
    } else if num_rows <= usize::MAX {
        num_rows as nat
    } else {
        usize::MAX as nat
    }
}

/// The row count that a file's metadata declares, as a count of the machine.
pub fn declared_row_count(num_rows: i64) -> (n: usize)
    ensures
        n == declared_rows(num_rows),
{
    if num_rows <= 0 {
        0
    } else if num_rows as u64 <= usize::MAX as u64 {
        num_rows as usize
    } else {
        usize::MAX
    }
}

/// What the scan over the batches of a dataset emits for the window that
/// starts `skip` rows in and holds `count` rows: batches that end before the
/// window are dropped, the others are cut to the rows inside it, and nothing
/// follows once `count` rows are out.
pub open spec fn window_items(items: Seq<ItemModel>, skip: nat, count: nat) -> Seq<ItemModel>
    decreases items.len(),
{
    if items.len() == 0 || count == 0 {
        Seq::empty()
    } else {
        let rows = item_rows(items[0]);
        if rows.len() <= skip {
            window_items(items.skip(1), (skip - rows.len()) as nat, count)
        } else {
            let take = min_nat(count, (rows.len() - skip) as nat);
            match items[0] {
                ItemModel::Batch(m) => seq![
                    ItemModel::Batch(slice_model(m, skip as int, take as int)),
                ] + window_items(items.skip(1), 0, (count - take) as nat),
                ItemModel::Failure(_) => Seq::empty(),
            }
        }
    }
}

/// What the scan emits for the last `number` rows of a dataset.
pub open spec fn tail_items(items: Seq<ItemModel>, number: nat) -> Seq<ItemModel> {
    let total = rows_of(items).len();
    window_items(items, tail_offset(total, number), tail_count(total, number))
}

/// The rows that the scan emits are the rows of the window, whatever the sizes
/// of the batches.
pub proof fn lemma_window_rows(items: Seq<ItemModel>, skip: nat, count: nat)
    requires
        skip + count <= rows_of(items).len(),
    ensures
        rows_of(window_items(items, skip, count)) == window_rows(rows_of(items), skip, count),
    decreases items.len(),
{
    let all = rows_of(items);
    if items.len() == 0 || count == 0 {
        assert(window_rows(all, skip, count) == Seq::<Row>::empty());
    } else {
        let rest = items.skip(1);
        let rows = item_rows(items[0]);
        assert(all == rows + rows_of(rest));
        if rows.len() <= skip {
            let left = (skip - rows.len()) as nat;
            lemma_window_rows(rest, left, count);
            assert(window_rows(rows_of(rest), left, count) == window_rows(all, skip, count));
        } else {
            let take = min_nat(count, (rows.len() - skip) as nat);
            let m = items[0]->Batch_0;
            let cut = ItemModel::Batch(slice_model(m, skip as int, take as int));
            let after = window_items(rest, 0, (count - take) as nat);
            lemma_window_rows(rest, 0, (count - take) as nat);
            lemma_rows_of_concat(seq![cut], after);
            lemma_rows_of_single(cut);
            assert(rows.subrange(skip as int, (skip + take) as int) + window_rows(
                rows_of(rest),
                0,
                (count - take) as nat,
            ) == window_rows(all, skip, count));
        }
    }
}

/// The last rows of a dataset do not depend on how its rows are divided into
/// batches: two lists of batches with the same rows give the same rows, which
/// are those of the window that a source with a known row count is asked for.
pub proof fn lemma_tail_rows(a: Seq<ItemModel>, b: Seq<ItemModel>, number: nat)
    requires
        rows_of(a) == rows_of(b),
    ensures
        rows_of(tail_items(a, number)) == last_rows(rows_of(a), number),
        rows_of(tail_items(b, number)) == rows_of(tail_items(a, number)),
{
    let total = rows_of(a).len();
    lemma_window_rows(a, tail_offset(total, number), tail_count(total, number));
    lemma_window_rows(b, tail_offset(total, number), tail_count(total, number));
}

/// The last `number` rows are the whole dataset where it has no more rows than
/// that, and none at all where `number` is zero.
pub proof fn lemma_last_rows_bounds(rows: Seq<Row>, number: nat)
    ensures
        last_rows(rows, number).len() == min_nat(number, rows.len()),
        number >= rows.len() ==> last_rows(rows, number) == rows,
        number == 0 ==> last_rows(rows, number) == Seq::<Row>::empty(),
{
    if number >= rows.len() {
        assert(rows.subrange(0, rows.len() as int) == rows);
    }
}

/// The number of rows of all the batches, where it is a count of the machine.
pub fn total_rows(batches: &Vec<Batch>) -> (total: Option<usize>)
    ensures
        match total {
            Some(n) => n == rows_of(batch_items(batches@)).len(),
            None => rows_of(batch_items(batches@)).len() > usize::MAX,
        },
{
    let ghost items = batch_items(batches@);
    let mut total: usize = 0;
    let mut i: usize = 0;
    assert(items.skip(0) == items);
    while i < batches.len()
        invariant
            i <= batches.len(),
            items == batch_items(batches@),
            total + rows_of(items.skip(i as int)).len() == rows_of(items).len(),
        decreases batches.len() - i,
    {
        let rows: usize = batch_num_rows(&batches[i]);
        proof {
            assert(items.skip(i as int)[0] == items[i as int]);
            assert(items.skip(i as int).skip(1) == items.skip(i as int + 1));
        }
        match total.checked_add(rows) {
            Some(sum) => {
                total = sum;
            },
            None => {
                return None;
            },
        }
        i += 1;
    }
    assert(items.skip(i as int).len() == 0);
    Some(total)
}

/// Cuts the last `number` rows out of a dataset that was decoded into
/// `batches`: all of it where it has no more rows than that. The rows of the
/// result, one batch after the other, are exactly the last rows of the
/// dataset.
pub fn tail_batches(batches: Vec<Batch>, number: usize) -> (tail: Vec<Batch>)
    requires
        rows_of(batch_items(batches@)).len() <= usize::MAX,
    ensures
        batch_items(tail@) == tail_items(batch_items(batches@), number as nat),
        rows_of(batch_items(tail@)) == last_rows(rows_of(batch_items(batches@)), number as nat),
{
    let ghost items = batch_items(batches@);
    let counted = total_rows(&batches);
    let total_rows: usize = counted.unwrap();
    let window = tail_window(total_rows, number);
    let number: usize = window.count;
    let skip: usize = window.offset;

    let mut tail_batches: Vec<Batch> = Vec::new();
    let mut rows_emitted: usize = 0;
    let mut rows_skipped: usize = 0;
    let mut i: usize = 0;
    proof {
        assert(items.skip(0) == items);
        assert(batch_items(tail_batches@) + window_items(items, skip as nat, number as nat)
            == window_items(items, skip as nat, number as nat));
    }
    while i < batches.len()
        invariant
            i <= batches.len(),
            items == batch_items(batches@),
            rows_skipped <= skip,
            rows_emitted <= number,
            skip + number == total_rows,
            total_rows == rows_of(items).len(),
            rows_skipped + rows_emitted + rows_of(items.skip(i as int)).len() <= total_rows,
            batch_items(tail_batches@) + window_items(
                items.skip(i as int),
                (skip - rows_skipped) as nat,
                (number - rows_emitted) as nat,
            ) == window_items(items, skip as nat, number as nat),
        ensures
            batch_items(tail_batches@) == window_items(items, skip as nat, number as nat),
        decreases batches.len() - i,
    {
        let batch_rows: usize = batch_num_rows(&batches[i]);
        proof {
            assert(items.skip(i as int)[0] == items[i as int]);
            assert(items.skip(i as int).skip(1) == items.skip(i as int + 1));
            assert(item_rows(items[i as int]).len() == batch_rows);
        }
        if rows_skipped + batch_rows <= skip {
            rows_skipped += batch_rows;
            i += 1;
            continue ;
        }
        let start_in_batch: usize = skip - rows_skipped;
        rows_skipped += start_in_batch;
        let left: usize = number - rows_emitted;
        let available: usize = batch_rows - start_in_batch;
        let take: usize = if left <= available {
            left
        } else {
            available
        };
        if take == 0 {
            assert(batch_items(tail_batches@) + Seq::<ItemModel>::empty() == batch_items(
                tail_batches@,
            ));
            break ;
        }
        let slice = batch_slice(&batches[i], start_in_batch, take);
        let ghost before = tail_batches@;
        let ghost after = window_items(items.skip(i as int + 1), 0, (left - take) as nat);
        let ghost cut = ItemModel::Batch(
            slice_model(batch_model(batches[i as int]), start_in_batch as int, take as int),
        );
        tail_batches.push(slice);
        rows_emitted += take;
        i += 1;
        proof {
            assert(batch_items(tail_batches@) == batch_items(before) + seq![cut]);
            assert((batch_items(before) + seq![cut]) + after == batch_items(before) + (seq![cut]
                + after));
        }
    }
    proof {
        lemma_window_rows(items, skip as nat, number as nat);
    }
    tail_batches
}

/// The text of the error for a dataset with more rows than the machine can
/// count.
pub open spec fn too_many_rows_text() -> Seq<char> {
    "Row count exceeds the supported range"@
}

/// The last `number` rows of a dataset that was decoded whole into `batches`,
/// as a source of their own: the window is cut out of the batches, whatever
/// their sizes. Fails only where the dataset has more rows than the machine
/// can count.
pub fn tail_from_reader(batches: Vec<Batch>, number: usize) -> (r: Result<
    VecRecordBatchReaderSource,
    Error,
>)
    ensures
        match r {
            Ok(source) => {
                &&& rows_of(batch_items(batches@)).len() <= usize::MAX
                &&& source.held() matches Some(tail) && batch_items(tail) == tail_items(
                    batch_items(batches@),
                    number as nat,
                ) && rows_of(batch_items(tail)) == last_rows(
                    rows_of(batch_items(batches@)),
                    number as nat,
                )
            },
            Err(Error::GenericError(m)) => rows_of(batch_items(batches@)).len() > usize::MAX
                && m@ == too_many_rows_text(),
            Err(_) => false,
        },
{
    if total_rows(&batches).is_none() {
        return Err(
            Error::GenericError(String::from_str("Row count exceeds the supported range")),
        );
    }
    let tail = tail_batches(batches, number);
    Ok(VecRecordBatchReaderSource::new(tail))
}

/// Takes one more item of a reader that is being decoded whole: a batch is
/// put at the end of the list, and a failure ends the decoding with the
/// reader's error, the list being left as it was.
pub fn buffer_item(batches: &mut Vec<Batch>, item: Result<Batch, ArrowError>) -> (r: Result<
    (),
    Error,
>)
    ensures
        match item {
            Ok(batch) => r is Ok && final(batches)@ == old(batches)@.push(batch),
            Err(e) => r == Err::<(), Error>(Error::ArrowError(e)) && final(batches)@ == old(
                batches,
            )@,
        },
{
    match item {
        Ok(batch) => {
            batches.push(batch);
            Ok(())
        },
        Err(e) => Err(Error::from(e)),
    }
}

/// The number of rows counted so far, with those of one more item of the
/// reader: a failure ends the count with the reader's error.
pub fn count_item(total: usize, item: Result<Batch, ArrowError>) -> (r: Result<usize, Error>)
    ensures
        match item {
            Ok(batch) => match r {
                Ok(n) => n == total + batch_rows(batch).len(),
                Err(Error::GenericError(m)) => total + batch_rows(batch).len() > usize::MAX && m@
                    == too_many_rows_text(),
                Err(_) => false,
            },
            Err(e) => r == Err::<usize, Error>(Error::ArrowError(e)),
        },
{
    match item {
        Ok(batch) => add_rows(total, &batch),
        Err(e) => Err(Error::from(e)),
    }
}

/// The number of rows counted so far, with those of one more batch. Fails
/// where the count is beyond what the machine can hold.
pub fn add_rows(total: usize, batch: &Batch) -> (r: Result<usize, Error>)
    ensures
        match r {
            Ok(n) => n == total + batch_rows(*batch).len(),
            Err(Error::GenericError(m)) => total + batch_rows(*batch).len() > usize::MAX && m@
                == too_many_rows_text(),
            Err(_) => false,
        },
{
    match total.checked_add(batch_num_rows(batch)) {
        Some(sum) => Ok(sum),
        None => Err(
            Error::GenericError(String::from_str("Row count exceeds the supported range")),
        ),
    }
}

} // verus!
