use std::cell::Cell;
use std::rc::Rc;
use std::sync::Arc;

use arrow::array::Array;
use arrow::array::ArrayRef;
use arrow::array::Int32Array;
use arrow::array::StringArray;
use arrow::array::TimestampMillisecondArray;
use arrow::datatypes::DataType;
use arrow::datatypes::Field;
use arrow::datatypes::Schema;
use arrow::datatypes::TimeUnit;
use arrow::error::ArrowError;
use arrow::record_batch::RecordBatch;
use datu::batch::num_rows;
use datu::batch::Batch;
use datu::pipeline::limit_reader;
use datu::pipeline::parquet::tail_parquet_args;
use datu::pipeline::record_batch_filter::resolve_columns;
use datu::pipeline::record_batch_filter::select_columns;
use datu::pipeline::record_batch_filter::SelectColumnsStep;
use datu::pipeline::display::record_batch_to_yaml_rows;
use datu::pipeline::head_batches;
use datu::pipeline::record_batch_filter::select_with_schema;
use datu::pipeline::window::add_rows;
use datu::pipeline::window::buffer_item;
use datu::pipeline::window::count_item;
use datu::pipeline::xlsx::timestamp_instant;
use datu::pipeline::xlsx::unsigned_cell;
use datu::pipeline::xlsx::Instant;
use datu::pipeline::xlsx::TimestampUnit;
use datu::pipeline::window::declared_row_count;
use datu::pipeline::window::tail_batches;
use datu::pipeline::window::tail_from_reader;
use datu::pipeline::window::tail_window;
use datu::pipeline::window::total_rows;
use datu::pipeline::window::RowWindow;
use datu::pipeline::LimitingRecordBatchReader;
use datu::pipeline::RecordBatchReader;
use datu::pipeline::RecordBatchReaderSource;
use datu::pipeline::Step;
use datu::pipeline::VecRecordBatchReader;
use datu::pipeline::VecRecordBatchReaderSource;
use datu::Error;

/// A batch with the fields `[id: int, name: string]` and the rows
/// `first .. first + rows`, the name of row `i` being `n<i>`.
fn numbered(first: i32, rows: i32) -> Batch {
    let schema = Schema::new(vec![
        Field::new("id", DataType::Int32, false),
        Field::new("name", DataType::Utf8, true),
    ]);
    let ids: Vec<i32> = (first..first + rows).collect();
    let names: Vec<String> = ids.iter().map(|i| format!("n{i}")).collect();
    let columns: Vec<ArrayRef> =
        vec![Arc::new(Int32Array::from(ids)), Arc::new(StringArray::from(names))];
    Batch { inner: RecordBatch::try_new(Arc::new(schema), columns).unwrap() }
}

/// A dataset of consecutive rows, starting at 0, in batches of the given sizes.
fn chunked(sizes: &[i32]) -> Vec<Batch> {
    let mut first = 0;
    let mut batches = Vec::new();
    for size in sizes {
        batches.push(numbered(first, *size));
        first += *size;
    }
    batches
}

/// The table with three rows and the fields `one, two, three, four`.
fn table() -> Batch {
    let schema = Schema::new(vec![
        Field::new("one", DataType::Int32, true),
        Field::new("two", DataType::Utf8, true),
        Field::new("three", DataType::Utf8, true),
        Field::new("four", DataType::Utf8, true),
    ]);
    let columns: Vec<ArrayRef> = vec![
        Arc::new(Int32Array::from(vec![Some(1), None, Some(3)])),
        Arc::new(StringArray::from(vec!["foo", "bar", "baz"])),
        Arc::new(StringArray::from(vec![Some("x"), Some("y"), None])),
        Arc::new(StringArray::from(vec!["a", "b", "c"])),
    ];
    Batch { inner: RecordBatch::try_new(Arc::new(schema), columns).unwrap() }
}

fn reader_of(batches: Vec<Batch>) -> VecRecordBatchReader {
    VecRecordBatchReaderSource::new(batches).get_record_batch_reader().unwrap()
}

fn ids_of(batch: &Batch) -> Vec<i32> {
    let column = batch.inner.column_by_name("id").unwrap();
    let ids = column.as_any().downcast_ref::<Int32Array>().unwrap();
    (0..ids.len()).map(|i| ids.value(i)).collect()
}

fn texts_of(batch: &Batch, column: usize) -> Vec<Option<String>> {
    let array = batch.inner.column(column);
    let texts = array.as_any().downcast_ref::<StringArray>().unwrap();
    (0..texts.len())
        .map(|i| if texts.is_null(i) { None } else { Some(texts.value(i).to_string()) })
        .collect()
}

fn all_ids(batches: &[Batch]) -> Vec<i32> {
    batches.iter().flat_map(ids_of).collect()
}

fn sizes_of(batches: &[Batch]) -> Vec<usize> {
    batches.iter().map(num_rows).collect()
}

fn field_names(schema: &Schema) -> Vec<String> {
    schema.fields().iter().map(|f| f.name().clone()).collect()
}

fn drain<R: RecordBatchReader>(mut reader: R) -> Vec<Batch> {
    let mut batches = Vec::new();
    while let Some(item) = reader.next() {
        batches.push(item.unwrap());
    }
    batches
}

/// A reader that yields the given items, errors among them, and counts how
/// often it is pulled.
struct Scripted {
    items: Vec<Result<Batch, ArrowError>>,
    pulls: Rc<Cell<usize>>,
}

impl Scripted {
    fn new(mut items: Vec<Result<Batch, ArrowError>>) -> Self {
        items.reverse();
        Scripted { items, pulls: Rc::new(Cell::new(0)) }
    }
}

impl RecordBatchReader for Scripted {
    fn schema(&self) -> Arc<Schema> {
        numbered(0, 0).inner.schema()
    }

    fn next(&mut self) -> Option<Result<Batch, ArrowError>> {
        self.pulls.set(self.pulls.get() + 1);
        self.items.pop()
    }
}

fn broken() -> ArrowError {
    ArrowError::ComputeError("broken".to_string())
}

#[test]
fn test_select_columns() {
    let source = VecRecordBatchReaderSource::new(vec![table()]);
    let mut select_source =
        SelectColumnsStep { prev: source, columns: vec!["two".to_string(), "four".to_string()] };
    let mut projected_reader =
        select_source.get_record_batch_reader().expect("Failed to get record batch reader");

    let projected_schema = projected_reader.schema();
    assert_eq!(projected_schema.fields().len(), 2);
    assert_eq!(projected_schema.field(0).name(), "two");
    assert_eq!(projected_schema.field(1).name(), "four");

    let batch_result = projected_reader.next().unwrap();
    let projected_batch = batch_result.unwrap().inner;
    let batch_rows = projected_batch.num_rows();

    assert_eq!(projected_batch.num_columns(), 2);
    assert_eq!(projected_batch.column(0).len(), batch_rows);
    assert_eq!(projected_batch.column(1).len(), batch_rows);
}

#[test]
fn head_of_two_selected_columns() {
    let source = VecRecordBatchReaderSource::new(vec![table()]);
    let mut select = SelectColumnsStep {
        prev: source,
        columns: vec!["two".to_string(), "four".to_string()],
    };
    let reader = LimitingRecordBatchReader::new(select.get_record_batch_reader().unwrap(), 2);
    assert_eq!(field_names(&reader.schema()), vec!["two", "four"]);
    let batches = drain(reader);
    assert_eq!(sizes_of(&batches), vec![2]);
    assert_eq!(field_names(&batches[0].inner.schema()), vec!["two", "four"]);
    assert_eq!(batches[0].inner.num_columns(), 2);
    assert_eq!(texts_of(&batches[0], 0), vec![Some("foo".to_string()), Some("bar".to_string())]);
    assert_eq!(texts_of(&batches[0], 1), vec![Some("a".to_string()), Some("b".to_string())]);
}

#[test]
fn tail_ten_of_twelve_in_three_batches() {
    let tail = tail_batches(chunked(&[5, 4, 3]), 10);
    assert_eq!(all_ids(&tail), (2..12).collect::<Vec<i32>>());
    assert_eq!(sizes_of(&tail), vec![3, 4, 3]);
}

#[test]
fn tail_does_not_depend_on_the_batching() {
    let chunkings: [&[i32]; 7] = [
        &[12],
        &[5, 4, 3],
        &[1, 1, 1, 1, 1, 1, 1, 1, 1, 1, 1, 1],
        &[0, 6, 0, 6, 0],
        &[11, 1],
        &[1, 11],
        &[2, 10],
    ];
    for number in 0..15usize {
        let window = tail_window(12, number);
        let expected: Vec<i32> =
            (window.offset as i32..(window.offset + window.count) as i32).collect();
        for sizes in chunkings {
            let tail = tail_batches(chunked(sizes), number);
            assert_eq!(all_ids(&tail), expected, "last {number} of {sizes:?}");
            assert!(sizes_of(&tail).iter().all(|n| *n > 0));
        }
    }
}

#[test]
fn tail_keeps_names_with_their_rows() {
    let tail = tail_batches(chunked(&[5, 4, 3]), 4);
    assert_eq!(sizes_of(&tail), vec![1, 3]);
    assert_eq!(texts_of(&tail[0], 1), vec![Some("n8".to_string())]);
    assert_eq!(
        texts_of(&tail[1], 1),
        vec![Some("n9".to_string()), Some("n10".to_string()), Some("n11".to_string())]
    );
    assert_eq!(field_names(&tail[0].inner.schema()), vec!["id", "name"]);
}

#[test]
fn tail_of_nothing_and_of_everything() {
    assert!(tail_batches(chunked(&[5, 4, 3]), 0).is_empty());
    assert!(tail_batches(Vec::new(), 10).is_empty());
    assert!(tail_batches(chunked(&[0, 0]), 10).is_empty());
    let all = tail_batches(chunked(&[5, 4, 3]), 100);
    assert_eq!(all_ids(&all), (0..12).collect::<Vec<i32>>());
    assert_eq!(sizes_of(&all), vec![5, 4, 3]);
    let exact = tail_batches(chunked(&[5, 4, 3]), 12);
    assert_eq!(sizes_of(&exact), vec![5, 4, 3]);
}

#[test]
fn tail_window_values() {
    assert_eq!(tail_window(12, 10), RowWindow { offset: 2, count: 10 });
    assert_eq!(tail_window(3, 10), RowWindow { offset: 0, count: 3 });
    assert_eq!(tail_window(3, 3), RowWindow { offset: 0, count: 3 });
    assert_eq!(tail_window(12, 0), RowWindow { offset: 12, count: 0 });
    assert_eq!(tail_window(0, 0), RowWindow { offset: 0, count: 0 });
    assert_eq!(tail_window(usize::MAX, 1), RowWindow { offset: usize::MAX - 1, count: 1 });
}

#[test]
fn declared_row_counts() {
    assert_eq!(declared_row_count(12), 12);
    assert_eq!(declared_row_count(0), 0);
    assert_eq!(declared_row_count(-1), 0);
    assert_eq!(declared_row_count(i64::MIN), 0);
    assert_eq!(declared_row_count(i64::MAX) as u64, (i64::MAX as u64).min(usize::MAX as u64));
}

#[test]
fn parquet_window_is_offset_and_limit() {
    let args = tail_parquet_args("t.parquet".to_string(), 12, 10);
    assert_eq!(args.path, "t.parquet");
    assert_eq!(args.limit, Some(10));
    assert_eq!(args.offset, Some(2));
    let short = tail_parquet_args("t.parquet".to_string(), 3, 10);
    assert_eq!((short.limit, short.offset), (Some(3), Some(0)));
}

#[test]
fn seekable_and_scanned_tail_agree() {
    let rows: Vec<i32> = (0..12).collect();
    for number in [0usize, 1, 5, 10, 12, 13] {
        let args = tail_parquet_args("t.parquet".to_string(), 12, number);
        let offset = args.offset.unwrap();
        let limit = args.limit.unwrap();
        let pushed_down: Vec<i32> = rows.iter().skip(offset).take(limit).copied().collect();
        assert_eq!(all_ids(&tail_batches(chunked(&[5, 4, 3]), number)), pushed_down);
    }
}

#[test]
fn total_rows_adds_up() {
    assert_eq!(total_rows(&chunked(&[5, 4, 3])), Some(12));
    assert_eq!(total_rows(&Vec::new()), Some(0));
    assert_eq!(num_rows(&numbered(0, 7)), 7);
}

#[test]
fn limit_yields_a_prefix() {
    for limit in [0usize, 1, 5, 6, 9, 11, 12, 13, 100] {
        let reader = LimitingRecordBatchReader::new(reader_of(chunked(&[5, 4, 3])), limit);
        let batches = drain(reader);
        let expected: Vec<i32> = (0..limit.min(12) as i32).collect();
        assert_eq!(all_ids(&batches), expected, "limit {limit}");
    }
}

#[test]
fn limit_slices_the_batch_that_overshoots() {
    let reader = LimitingRecordBatchReader::new(reader_of(chunked(&[5, 4, 3])), 7);
    let batches = drain(reader);
    assert_eq!(sizes_of(&batches), vec![5, 2]);
    assert_eq!(texts_of(&batches[1], 1), vec![Some("n5".to_string()), Some("n6".to_string())]);
}

#[test]
fn limit_of_zero_pulls_nothing() {
    let inner = Scripted::new(vec![Ok(numbered(0, 3))]);
    let pulls = inner.pulls.clone();
    let mut reader = LimitingRecordBatchReader::new(inner, 0);
    assert_eq!(field_names(&reader.schema()), vec!["id", "name"]);
    assert!(!reader.wants_more());
    assert!(reader.next().is_none());
    assert!(reader.next().is_none());
    assert_eq!(pulls.get(), 0);
}

#[test]
fn limit_stops_pulling_once_it_is_reached() {
    let inner = Scripted::new(vec![Ok(numbered(0, 3)), Ok(numbered(3, 3)), Ok(numbered(6, 3))]);
    let pulls = inner.pulls.clone();
    let mut reader = LimitingRecordBatchReader::new(inner, 4);
    assert_eq!(num_rows(&reader.next().unwrap().unwrap()), 3);
    assert_eq!(num_rows(&reader.next().unwrap().unwrap()), 1);
    assert!(reader.next().is_none());
    assert!(reader.next().is_none());
    assert_eq!(pulls.get(), 2);
}

#[test]
fn limit_hands_failures_on() {
    let inner = Scripted::new(vec![
        Ok(numbered(0, 2)),
        Err(broken()),
        Ok(numbered(2, 5)),
    ]);
    let mut reader = LimitingRecordBatchReader::new(inner, 4);
    assert_eq!(num_rows(&reader.next().unwrap().unwrap()), 2);
    let failure = reader.next().unwrap().err().unwrap();
    assert_eq!(failure.to_string(), "Compute error: broken");
    assert_eq!(ids_of(&reader.next().unwrap().unwrap()), vec![2, 3]);
    assert!(reader.next().is_none());
}

#[test]
fn optional_limit() {
    let limited = drain(limit_reader(reader_of(chunked(&[5, 4, 3])), Some(6)));
    assert_eq!(sizes_of(&limited), vec![5, 1]);
    let whole = drain(limit_reader(reader_of(chunked(&[5, 4, 3])), None));
    assert_eq!(sizes_of(&whole), vec![5, 4, 3]);
    let reader = limit_reader(reader_of(chunked(&[2])), Some(1));
    assert_eq!(field_names(&reader.schema()), vec!["id", "name"]);
}

#[test]
fn vec_reader_yields_its_batches_once() {
    let mut source = VecRecordBatchReaderSource::new(chunked(&[2, 3]));
    let mut reader = source.get_record_batch_reader().unwrap();
    assert_eq!(field_names(&reader.schema()), vec!["id", "name"]);
    assert_eq!(ids_of(&reader.next().unwrap().unwrap()), vec![0, 1]);
    assert_eq!(ids_of(&reader.next().unwrap().unwrap()), vec![2, 3, 4]);
    assert!(reader.next().is_none());
    assert!(reader.next().is_none());
    assert_eq!(field_names(&reader.schema()), vec!["id", "name"]);
}

#[test]
fn vec_source_is_taken_once() {
    let mut source = VecRecordBatchReaderSource::new(chunked(&[2]));
    assert!(source.get_record_batch_reader().is_ok());
    let again = source.get_record_batch_reader();
    assert!(matches!(again, Err(Error::GenericError(m)) if m == "Reader already taken"));
}

#[test]
fn empty_vec_reader_has_the_empty_schema() {
    let mut reader = reader_of(Vec::new());
    assert_eq!(reader.schema().fields().len(), 0);
    assert!(reader.next().is_none());
}

#[test]
fn select_reorders_and_repeats() {
    let columns = vec!["four".to_string(), "one".to_string(), "four".to_string()];
    let mut reader = select_columns(reader_of(vec![table()]), &columns).unwrap();
    assert_eq!(field_names(&reader.schema()), vec!["four", "one", "four"]);
    let batch = reader.next().unwrap().unwrap();
    assert_eq!(field_names(&batch.inner.schema()), vec!["four", "one", "four"]);
    assert_eq!(num_rows(&batch), 3);
    let letters = vec![Some("a".to_string()), Some("b".to_string()), Some("c".to_string())];
    assert_eq!(texts_of(&batch, 0), letters);
    assert_eq!(texts_of(&batch, 2), letters);
    let ones = batch.inner.column(1).as_any().downcast_ref::<Int32Array>().unwrap().clone();
    assert_eq!((ones.value(0), ones.is_null(1), ones.value(2)), (1, true, 3));
    assert!(reader.next().is_none());
}

#[test]
fn select_keeps_nulls() {
    let columns = vec!["three".to_string()];
    let mut reader = select_columns(reader_of(vec![table()]), &columns).unwrap();
    let batch = reader.next().unwrap().unwrap();
    assert_eq!(texts_of(&batch, 0), vec![Some("x".to_string()), Some("y".to_string()), None]);
    assert!(batch.inner.schema().field(0).is_nullable());
}

#[test]
fn select_of_an_unknown_column_fails_before_any_pull() {
    let inner = Scripted::new(vec![Ok(numbered(0, 3))]);
    let pulls = inner.pulls.clone();
    let columns = vec!["id".to_string(), "nope".to_string(), "neither".to_string()];
    let result = select_columns(inner, &columns);
    assert!(matches!(result, Err(Error::ColumnNotFound(name)) if name == "nope"));
    assert_eq!(pulls.get(), 0);
}

#[test]
fn select_step_reports_the_unknown_column() {
    let source = VecRecordBatchReaderSource::new(vec![table()]);
    let mut step = SelectColumnsStep { prev: source, columns: vec!["five".to_string()] };
    assert!(matches!(
        step.get_record_batch_reader(),
        Err(Error::ColumnNotFound(name)) if name == "five"
    ));
}

#[test]
fn select_step_hands_the_error_of_its_source_on() {
    let mut source = VecRecordBatchReaderSource::new(vec![table()]);
    source.get_record_batch_reader().unwrap();
    let mut step = SelectColumnsStep { prev: source, columns: vec!["one".to_string()] };
    assert!(matches!(
        step.get_record_batch_reader(),
        Err(Error::GenericError(m)) if m == "Reader already taken"
    ));
}

#[test]
fn select_step_executes_to_itself() {
    let source = VecRecordBatchReaderSource::new(vec![table()]);
    let step = SelectColumnsStep { prev: source, columns: vec!["two".to_string()] };
    let mut executed = step.execute().unwrap();
    assert_eq!(executed.columns, vec!["two".to_string()]);
    let reader = executed.get_record_batch_reader().unwrap();
    assert_eq!(field_names(&reader.schema()), vec!["two"]);
}

#[test]
fn select_of_nothing_keeps_the_rows() {
    let mut reader = select_columns(reader_of(chunked(&[4])), &Vec::new()).unwrap();
    assert_eq!(reader.schema().fields().len(), 0);
    let batch = reader.next().unwrap().unwrap();
    assert_eq!(batch.inner.num_columns(), 0);
    assert_eq!(num_rows(&batch), 4);
}

#[test]
fn select_of_a_name_that_two_fields_have_fails() {
    let schema = Schema::new(vec![
        Field::new("a", DataType::Int32, false),
        Field::new("b", DataType::Int32, false),
        Field::new("a", DataType::Int32, false),
    ]);
    assert_eq!(resolve_columns(&schema, &vec!["b".to_string(), "b".to_string()]).unwrap(), vec![1, 1]);
    assert_eq!(resolve_columns(&schema, &Vec::new()).unwrap(), Vec::<usize>::new());
    assert!(matches!(
        resolve_columns(&schema, &vec!["b".to_string(), "a".to_string(), "c".to_string()]),
        Err(Error::AmbiguousColumn(name)) if name == "a"
    ));
    assert!(matches!(
        resolve_columns(&schema, &vec!["b".to_string(), "c".to_string(), "a".to_string()]),
        Err(Error::ColumnNotFound(name)) if name == "c"
    ));
    let last_twice = Schema::new(vec![
        Field::new("x", DataType::Int32, false),
        Field::new("y", DataType::Int32, false),
        Field::new("y", DataType::Int32, false),
    ]);
    assert_eq!(resolve_columns(&last_twice, &vec!["x".to_string()]).unwrap(), vec![0]);
    assert!(matches!(
        resolve_columns(&last_twice, &vec!["y".to_string()]),
        Err(Error::AmbiguousColumn(name)) if name == "y"
    ));
}

#[test]
fn select_fails_on_a_batch_that_lacks_the_column() {
    let narrow = Schema::new(vec![Field::new("id", DataType::Int32, false)]);
    let columns: Vec<ArrayRef> = vec![Arc::new(Int32Array::from(vec![7]))];
    let odd = Batch { inner: RecordBatch::try_new(Arc::new(narrow), columns).unwrap() };
    let inner = Scripted::new(vec![Ok(numbered(0, 2)), Ok(odd)]);
    let mut reader = select_columns(inner, &vec!["name".to_string()]).unwrap();
    assert_eq!(texts_of(&reader.next().unwrap().unwrap(), 0).len(), 2);
    assert!(reader.next().unwrap().is_err());
    assert!(reader.next().is_none());
}

#[test]
fn select_hands_failures_on() {
    let inner = Scripted::new(vec![Err(broken())]);
    let mut reader = select_columns(inner, &vec!["id".to_string()]).unwrap();
    assert_eq!(reader.next().unwrap().err().unwrap().to_string(), "Compute error: broken");
}

#[test]
fn select_resolves_against_the_schema_it_is_given() {
    let schema = Schema::new(vec![
        Field::new("name", DataType::Utf8, true),
        Field::new("id", DataType::Int32, false),
    ]);
    let columns = vec!["id".to_string()];
    let reader = select_with_schema(reader_of(Vec::new()), &schema, &columns).unwrap();
    assert_eq!(field_names(&reader.schema()), vec!["id"]);
    assert_eq!(reader.schema().field(0).data_type(), &DataType::Int32);
    assert!(matches!(
        select_with_schema(reader_of(Vec::new()), &schema, &vec!["x".to_string()]),
        Err(Error::ColumnNotFound(name)) if name == "x"
    ));
}

#[test]
fn project_of_what_was_pulled() {
    let reader = select_columns(reader_of(Vec::new()), &Vec::new()).unwrap();
    assert!(reader.project(None).is_none());
    assert_eq!(
        reader.project(Some(Err(broken()))).unwrap().err().unwrap().to_string(),
        "Compute error: broken"
    );
    let projected = reader.project(Some(Ok(numbered(0, 4)))).unwrap().unwrap();
    assert_eq!((projected.inner.num_columns(), num_rows(&projected)), (0, 4));
}

#[test]
fn accept_of_what_was_pulled() {
    let mut reader = LimitingRecordBatchReader::new(reader_of(Vec::new()), 5);
    assert!(reader.wants_more());
    assert!(reader.accept(None).is_none());
    assert!(reader.wants_more());
    assert_eq!(
        reader.accept(Some(Err(broken()))).unwrap().err().unwrap().to_string(),
        "Compute error: broken"
    );
    assert_eq!(ids_of(&reader.accept(Some(Ok(numbered(0, 3)))).unwrap().unwrap()), vec![0, 1, 2]);
    assert!(reader.wants_more());
    assert_eq!(ids_of(&reader.accept(Some(Ok(numbered(3, 3)))).unwrap().unwrap()), vec![3, 4]);
    assert!(!reader.wants_more());
    assert!(ids_of(&reader.accept(Some(Ok(numbered(6, 3)))).unwrap().unwrap()).is_empty());
    assert!(!reader.wants_more());
}

#[test]
fn head_of_batches() {
    for limit in [0usize, 1, 5, 6, 9, 11, 12, 13, 100] {
        let head = head_batches(chunked(&[5, 4, 3]), limit);
        let expected: Vec<i32> = (0..limit.min(12) as i32).collect();
        assert_eq!(all_ids(&head), expected, "limit {limit}");
    }
    assert_eq!(sizes_of(&head_batches(chunked(&[5, 4, 3]), 7)), vec![5, 2]);
    assert_eq!(sizes_of(&head_batches(chunked(&[5, 4, 3]), 9)), vec![5, 4]);
    assert_eq!(sizes_of(&head_batches(chunked(&[5, 0, 3]), 6)), vec![5, 0, 1]);
    assert!(head_batches(chunked(&[5, 4, 3]), 0).is_empty());
    assert!(head_batches(Vec::new(), 3).is_empty());
}

#[test]
fn head_and_limited_reader_agree() {
    for limit in 0..14usize {
        let head = head_batches(chunked(&[5, 4, 3]), limit);
        let read = drain(LimitingRecordBatchReader::new(reader_of(chunked(&[5, 4, 3])), limit));
        assert_eq!(sizes_of(&head), sizes_of(&read));
        assert_eq!(all_ids(&head), all_ids(&read));
    }
}

#[test]
fn rows_are_added_up() {
    assert_eq!(add_rows(0, &numbered(0, 5)).unwrap(), 5);
    assert_eq!(add_rows(7, &numbered(0, 0)).unwrap(), 7);
    assert_eq!(add_rows(usize::MAX - 5, &numbered(0, 5)).unwrap(), usize::MAX);
    assert!(matches!(
        add_rows(usize::MAX - 4, &numbered(0, 5)),
        Err(Error::GenericError(m)) if m == "Row count exceeds the supported range"
    ));
    let mut total = 0;
    let mut reader = reader_of(chunked(&[5, 4, 3]));
    while let Some(item) = reader.next() {
        total = add_rows(total, &item.unwrap()).unwrap();
    }
    assert_eq!(total, 12);
}

#[test]
fn tail_of_a_decoded_reader() {
    let batches = drain(reader_of(chunked(&[5, 4, 3])));
    let mut source = tail_from_reader(batches, 10).unwrap();
    let reader = source.get_record_batch_reader().unwrap();
    assert_eq!(field_names(&reader.schema()), vec!["id", "name"]);
    let tail = drain(reader);
    assert_eq!(all_ids(&tail), (2..12).collect::<Vec<i32>>());
    assert_eq!(sizes_of(&tail), vec![3, 4, 3]);
}

#[test]
fn tail_of_zero_rows_has_the_empty_schema() {
    let mut source = tail_from_reader(chunked(&[5, 4, 3]), 0).unwrap();
    let mut reader = source.get_record_batch_reader().unwrap();
    assert_eq!(reader.schema().fields().len(), 0);
    assert!(reader.next().is_none());
}

#[test]
fn tail_of_a_source_with_selection() {
    let source = VecRecordBatchReaderSource::new(chunked(&[5, 4, 3]));
    let mut step = SelectColumnsStep { prev: source, columns: vec!["name".to_string()] };
    let selected = drain(step.get_record_batch_reader().unwrap());
    let mut tail = tail_from_reader(selected, 2).unwrap();
    let batches = drain(tail.get_record_batch_reader().unwrap());
    assert_eq!(sizes_of(&batches), vec![2]);
    assert_eq!(field_names(&batches[0].inner.schema()), vec!["name"]);
    assert_eq!(texts_of(&batches[0], 0), vec![Some("n10".to_string()), Some("n11".to_string())]);
}

#[test]
fn items_are_buffered_until_one_fails() {
    let mut batches = Vec::new();
    assert!(buffer_item(&mut batches, Ok(numbered(0, 2))).is_ok());
    assert!(buffer_item(&mut batches, Ok(numbered(2, 3))).is_ok());
    assert_eq!(sizes_of(&batches), vec![2, 3]);
    let failed = buffer_item(&mut batches, Err(broken()));
    assert!(matches!(failed, Err(Error::ArrowError(e)) if e.to_string() == "Compute error: broken"));
    assert_eq!(all_ids(&batches), vec![0, 1, 2, 3, 4]);
}

#[test]
fn items_are_counted_until_one_fails() {
    assert_eq!(count_item(4, Ok(numbered(0, 3))).unwrap(), 7);
    assert!(matches!(
        count_item(4, Err(broken())),
        Err(Error::ArrowError(e)) if e.to_string() == "Compute error: broken"
    ));
    assert!(matches!(count_item(usize::MAX, Ok(numbered(0, 1))), Err(Error::GenericError(_))));
}

#[test]
fn arrow_errors_become_pipeline_errors() {
    let e = Error::from(broken());
    assert!(matches!(&e, Error::ArrowError(_)));
    assert_eq!(e.message(), "Compute error: broken");
}

#[test]
fn timestamps_become_instants() {
    assert_eq!(timestamp_instant(TimestampUnit::Second, 17), Instant::Seconds(17));
    assert_eq!(timestamp_instant(TimestampUnit::Second, -17), Instant::Seconds(-17));
    assert_eq!(timestamp_instant(TimestampUnit::Millisecond, 1_500), Instant::Millis(1_500));
    assert_eq!(timestamp_instant(TimestampUnit::Microsecond, 1_999), Instant::Millis(1));
    assert_eq!(timestamp_instant(TimestampUnit::Microsecond, 2_000), Instant::Millis(2));
    assert_eq!(timestamp_instant(TimestampUnit::Microsecond, 999), Instant::Millis(0));
    assert_eq!(timestamp_instant(TimestampUnit::Microsecond, -999), Instant::Millis(0));
    assert_eq!(timestamp_instant(TimestampUnit::Microsecond, -1_000), Instant::Millis(-1));
    assert_eq!(timestamp_instant(TimestampUnit::Microsecond, -1_999), Instant::Millis(-1));
    assert_eq!(timestamp_instant(TimestampUnit::Nanosecond, 3_999_999), Instant::Millis(3));
    assert_eq!(timestamp_instant(TimestampUnit::Nanosecond, -3_999_999), Instant::Millis(-3));
    for value in [i64::MIN, i64::MIN + 1, -1_000_001, -1, 0, 1, 1_000_001, i64::MAX] {
        assert_eq!(timestamp_instant(TimestampUnit::Microsecond, value), Instant::Millis(value / 1000));
        assert_eq!(
            timestamp_instant(TimestampUnit::Nanosecond, value),
            Instant::Millis(value / 1_000_000)
        );
    }
}

#[test]
fn unsigned_numbers_that_fit() {
    assert_eq!(unsigned_cell(0), Some(0));
    assert_eq!(unsigned_cell(42), Some(42));
    assert_eq!(unsigned_cell(i64::MAX as u64), Some(i64::MAX));
    assert_eq!(unsigned_cell(i64::MAX as u64 + 1), None);
    assert_eq!(unsigned_cell(u64::MAX), None);
}

fn entry(name: &str, text: &str) -> (String, String) {
    (name.to_string(), text.to_string())
}

#[test]
fn sparse_rows_leave_nulls_out() {
    let rows = record_batch_to_yaml_rows(&table(), true);
    assert_eq!(rows.len(), 3);
    assert_eq!(
        rows[0],
        vec![entry("one", "1"), entry("two", "foo"), entry("three", "x"), entry("four", "a")]
    );
    assert_eq!(rows[1], vec![entry("two", "bar"), entry("three", "y"), entry("four", "b")]);
    assert_eq!(rows[2], vec![entry("one", "3"), entry("two", "baz"), entry("four", "c")]);
}

#[test]
fn full_rows_show_nulls_as_empty_text() {
    let rows = record_batch_to_yaml_rows(&table(), false);
    assert_eq!(rows.len(), 3);
    assert_eq!(
        rows[1],
        vec![entry("one", ""), entry("two", "bar"), entry("three", "y"), entry("four", "b")]
    );
    assert_eq!(
        rows[2],
        vec![entry("one", "3"), entry("two", "baz"), entry("three", ""), entry("four", "c")]
    );
}

#[test]
fn rows_of_a_slice_are_the_rows_of_the_window() {
    let whole = record_batch_to_yaml_rows(&table(), false);
    let tail = tail_batches(vec![table()], 2);
    assert_eq!(record_batch_to_yaml_rows(&tail[0], false), whole[1..].to_vec());
    let head = head_batches(vec![table()], 1);
    assert_eq!(record_batch_to_yaml_rows(&head[0], true), vec![whole[0].clone()]);
    assert!(record_batch_to_yaml_rows(&numbered(0, 0), true).is_empty());
}

#[test]
fn select_step_gives_its_reader_once() {
    let source = VecRecordBatchReaderSource::new(vec![table()]);
    let mut step = SelectColumnsStep { prev: source, columns: vec!["two".to_string()] };
    let mut reader = step.get_record_batch_reader().unwrap();
    assert_eq!(texts_of(&reader.next().unwrap().unwrap(), 0).len(), 3);
    assert!(reader.next().is_none());
    assert!(matches!(
        step.get_record_batch_reader(),
        Err(Error::GenericError(m)) if m == "Reader already taken"
    ));
}

#[test]
fn limited_and_selected_readers_compose() {
    let source = VecRecordBatchReaderSource::new(chunked(&[5, 4, 3]));
    let mut step = SelectColumnsStep { prev: source, columns: vec!["name".to_string()] };
    let reader = limit_reader(step.get_record_batch_reader().unwrap(), Some(7));
    assert_eq!(field_names(&reader.schema()), vec!["name"]);
    let batches = drain(reader);
    assert_eq!(sizes_of(&batches), vec![5, 2]);
    assert_eq!(texts_of(&batches[1], 0), vec![Some("n5".to_string()), Some("n6".to_string())]);
    assert_eq!(batches[0].inner.num_columns(), 1);
}

#[test]
fn a_type_without_text_form_shows_a_dash() {
    let zone: Arc<str> = Arc::from("no such zone");
    let schema = Schema::new(vec![
        Field::new("id", DataType::Int32, false),
        Field::new("at", DataType::Timestamp(TimeUnit::Millisecond, Some(zone.clone())), true),
    ]);
    let columns: Vec<ArrayRef> = vec![
        Arc::new(Int32Array::from(vec![1, 2])),
        Arc::new(TimestampMillisecondArray::from(vec![Some(0), None]).with_timezone(zone)),
    ];
    let batch = Batch { inner: RecordBatch::try_new(Arc::new(schema), columns).unwrap() };
    let full = record_batch_to_yaml_rows(&batch, false);
    assert_eq!(full[0], vec![entry("id", "1"), entry("at", "-")]);
    assert_eq!(full[1], vec![entry("id", "2"), entry("at", "-")]);
    let sparse = record_batch_to_yaml_rows(&batch, true);
    assert_eq!(sparse[0], vec![entry("id", "1"), entry("at", "-")]);
    assert_eq!(sparse[1], vec![entry("id", "2")]);
}
