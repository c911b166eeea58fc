//! What each command decides before anything is read: which step reads the
//! input, which columns are selected, which window of rows is asked for, and
//! which step writes the output. Carrying the plan out is the caller's part.

use vstd::prelude::*;

use crate::cli::ConvertArgs;
use crate::cli::CountArgs;
use crate::cli::DisplayOutputFormat;
use crate::cli::HeadsOrTails;
use crate::errors::Error;
use crate::pipeline::avro::ReadAvroArgs;
use crate::pipeline::avro::ReadAvroStep;
use crate::pipeline::avro::WriteAvroArgs;
use crate::pipeline::orc::ReadOrcStep;
use crate::pipeline::parquet::tail_parquet_args;
use crate::pipeline::parquet::ReadParquetArgs;
use crate::pipeline::parquet::ReadParquetStep;
use crate::pipeline::parquet::WriteParquetArgs;
use crate::pipeline::window::declared_rows;
use crate::pipeline::window::tail_count;
use crate::pipeline::window::tail_offset;
use crate::pipeline::ReadArgs;
use crate::pipeline::WriteArgs;
use crate::pipeline::WriteJsonArgs;
use crate::pipeline::WriteYamlArgs;
use crate::text::texts;
use crate::utils::parse_select_columns;
use crate::utils::selected_columns;
use crate::utils::FileType;

verus! {

/// The step that reads the input of a command.
pub enum ReaderStep {
    Parquet(ReadParquetStep),
    Avro(ReadAvroStep),
    Orc(ReadOrcStep),
}

/// The step that writes the output of a conversion.
pub enum WriterStep {
    Csv(WriteArgs),
    Avro(WriteAvroArgs),
    Parquet(WriteParquetArgs),
    Orc(WriteArgs),
    Json(WriteJsonArgs),
    Xlsx(WriteArgs),
    Yaml(WriteYamlArgs),
}

/// The step that reads a file of the given type from its start, with a limit
/// on its rows where one is given. Only Parquet, Avro and ORC files can be
/// read.
pub open spec fn reader_step(file_type: FileType, path: String, limit: Option<usize>) -> Option<
    ReaderStep,
> {
    match file_type {
        FileType::Parquet => Some(
            ReaderStep::Parquet(
                ReadParquetStep { args: ReadParquetArgs { path, limit, offset: None } },
            ),
        ),
        FileType::Avro => Some(ReaderStep::Avro(ReadAvroStep { args: ReadAvroArgs { path, limit } })),
        FileType::Orc => Some(
            ReaderStep::Orc(ReadOrcStep { args: ReadArgs { path, limit, offset: None } }),
        ),
        _ => None,
    }
}

/// What a planning step returns: the plan, or the planning error with the
/// given text.
pub open spec fn planned<T>(r: Result<T, Error>, plan: Option<T>, text: Seq<char>) -> bool {
    match r {
        Ok(p) => plan == Some(p),
        Err(Error::PipelinePlanningError(m)) => plan is None && m@ == text,
        Err(_) => false,
    }
}

fn reader_step_for(file_type: FileType, path: &String, limit: Option<usize>) -> (step: Option<
    ReaderStep,
>)
    ensures
        step == reader_step(file_type, *path, limit),
{
    match file_type {
        FileType::Parquet => Some(
            ReaderStep::Parquet(
                ReadParquetStep {
                    args: ReadParquetArgs { path: path.clone(), limit, offset: None },
                },
            ),
        ),
        FileType::Avro => Some(
            ReaderStep::Avro(ReadAvroStep { args: ReadAvroArgs { path: path.clone(), limit } }),
        ),
        FileType::Orc => Some(
            ReaderStep::Orc(
                ReadOrcStep { args: ReadArgs { path: path.clone(), limit, offset: None } },
            ),
        ),
        _ => None,
    }
}

fn planning_error<T>(step: Option<T>, message: &str) -> (r: Result<T, Error>)
    ensures
        planned(r, step, message@),
{
    match step {
        Some(step) => Ok(step),
        None => Err(Error::PipelinePlanningError(String::from_str(message))),
    }
}

/// The columns that a command selects, where it selects any: the names that
/// its selection holds.
pub open spec fn selection(select: Option<Vec<String>>, columns: Option<Vec<String>>) -> bool {
    match select {
        Some(s) => columns is Some && texts(columns->0@) == selected_columns(s@),
        None => columns is None,
    }
}

/// The columns that a command selects.
pub fn select_of(select: &Option<Vec<String>>) -> (columns: Option<Vec<String>>)
    ensures
        selection(*select, columns),
{
    match select {
        Some(select) => Some(parse_select_columns(select.as_slice())),
        None => None,
    }
}

/// The plan of a command that shows rows: where they are read, which columns
/// are shown, and how.
pub struct DisplayPlan {
    pub reader: ReaderStep,
    pub columns: Option<Vec<String>>,
    pub output_format: DisplayOutputFormat,
    pub sparse: bool,
}

pub open spec fn head_unsupported_text() -> Seq<char> {
    "Only Parquet, Avro, and ORC are supported for head"@
}

pub open spec fn tail_unsupported_text() -> Seq<char> {
    "Only Parquet, Avro, and ORC are supported for tail"@
}

pub open spec fn count_unsupported_text() -> Seq<char> {
    "Only Parquet, Avro, and ORC are supported for count"@
}

pub open spec fn convert_unsupported_text() -> Seq<char> {
    "Only Parquet, Avro, and ORC are supported as input file types"@
}

pub open spec fn schema_unsupported_text() -> Seq<char> {
    "schema is only supported for Parquet, Avro, and ORC files"@
}

/// The step that reads the first `args.number` rows of the input of `head`.
pub fn head_reader_step(input_file_type: FileType, args: &HeadsOrTails) -> (r: Result<
    ReaderStep,
    Error,
>)
    ensures
        planned(
            r,
            reader_step(input_file_type, args.input, Some(args.number)),
            head_unsupported_text(),
        ),
{
    planning_error(
        reader_step_for(input_file_type, &args.input, Some(args.number)),
        "Only Parquet, Avro, and ORC are supported for head",
    )
}

/// head command: the first `args.number` rows of an Avro, Parquet, or ORC
/// file, reduced to the selected columns where some are selected.
pub fn head(input_file_type: FileType, args: &HeadsOrTails) -> (r: Result<DisplayPlan, Error>)
    ensures
        r is Ok <==> reader_step(input_file_type, args.input, Some(args.number)) is Some,
        r matches Ok(plan) ==> {
            &&& Some(plan.reader) == reader_step(input_file_type, args.input, Some(args.number))
            &&& selection(args.select, plan.columns)
            &&& plan.output_format == args.output
            &&& plan.sparse == args.sparse
        },
        r matches Err(e) ==> (e matches Error::PipelinePlanningError(m) && m@
            == head_unsupported_text()),
{
    let reader = match head_reader_step(input_file_type, args) {
        Ok(reader) => reader,
        Err(e) => {
            return Err(e);
        },
    };
    Ok(
        DisplayPlan {
            reader,
            columns: select_of(&args.select),
            output_format: args.output,
            sparse: args.sparse,
        },
    )
}

/// How the last rows of a file are had.
pub enum TailStrategy {
    /// The file declares its row count: it is read from the metadata, and the
    /// window is handed to the decoder.
    Metadata,
    /// The file is decoded whole by the given step, and the window is cut out
    /// of its batches.
    Scan(ReaderStep),
}

/// The strategy for the last rows of a file of the given type.
pub open spec fn tail_strategy(file_type: FileType, path: String) -> Option<TailStrategy> {
    match file_type {
        FileType::Parquet => Some(TailStrategy::Metadata),
        _ => match reader_step(file_type, path, None) {
            Some(step) => Some(TailStrategy::Scan(step)),
            None => None,
        },
    }
}

/// tail command: how the last rows of an Avro, Parquet, or ORC file are had.
pub fn tail(input_file_type: FileType, args: &HeadsOrTails) -> (r: Result<TailStrategy, Error>)
    ensures
        planned(r, tail_strategy(input_file_type, args.input), tail_unsupported_text()),
{
    let strategy = match input_file_type {
        FileType::Parquet => Some(TailStrategy::Metadata),
        _ => match reader_step_for(input_file_type, &args.input, None) {
            Some(step) => Some(TailStrategy::Scan(step)),
            None => None,
        },
    };
    planning_error(strategy, "Only Parquet, Avro, and ORC are supported for tail")
}

/// The plan for the last `args.number` rows of a Parquet file whose metadata
/// declares `num_rows` rows: the decoder is asked for the window itself.
pub fn tail_parquet(args: &HeadsOrTails, num_rows: i64) -> (plan: DisplayPlan)
    ensures
        plan.reader matches ReaderStep::Parquet(step) && step.args.path == args.input
            && step.args.limit == Some(
            tail_count(declared_rows(num_rows), args.number as nat) as usize,
        ) && step.args.offset == Some(
            tail_offset(declared_rows(num_rows), args.number as nat) as usize,
        ),
        selection(args.select, plan.columns),
        plan.output_format == args.output,
        plan.sparse == args.sparse,
{
    DisplayPlan {
        reader: ReaderStep::Parquet(
            ReadParquetStep { args: tail_parquet_args(args.input.clone(), num_rows, args.number) },
        ),
        columns: select_of(&args.select),
        output_format: args.output,
        sparse: args.sparse,
    }
}

/// count command: the step that reads the whole of an Avro, Parquet, or ORC
/// file, whose rows are then counted batch by batch.
pub fn count(file_type: FileType, args: &CountArgs) -> (r: Result<ReaderStep, Error>)
    ensures
        planned(r, reader_step(file_type, args.file, None), count_unsupported_text()),
{
    planning_error(
        reader_step_for(file_type, &args.file, None),
        "Only Parquet, Avro, and ORC are supported for count",
    )
}

/// The step that reads the input of `convert`, with the limit of the request.
pub fn convert_reader_step(input_file_type: FileType, args: &ConvertArgs) -> (r: Result<
    ReaderStep,
    Error,
>)
    ensures
        planned(
            r,
            reader_step(input_file_type, args.input, args.limit),
            convert_unsupported_text(),
        ),
{
    planning_error(
        reader_step_for(input_file_type, &args.input, args.limit),
        "Only Parquet, Avro, and ORC are supported as input file types",
    )
}

/// The step that writes a file of the given type for the request: a JSON
/// file takes the request's `sparse` and `json_pretty`, a YAML file its
/// `sparse`, every other only the path.
pub open spec fn writer_step(output_file_type: FileType, args: ConvertArgs) -> WriterStep {
    match output_file_type {
        FileType::Csv => WriterStep::Csv(WriteArgs { path: args.output }),
        FileType::Avro => WriterStep::Avro(WriteAvroArgs { path: args.output }),
        FileType::Parquet => WriterStep::Parquet(WriteParquetArgs { path: args.output }),
        FileType::Orc => WriterStep::Orc(WriteArgs { path: args.output }),
        FileType::Json => WriterStep::Json(
            WriteJsonArgs { path: args.output, sparse: args.sparse, pretty: args.json_pretty },
        ),
        FileType::Xlsx => WriterStep::Xlsx(WriteArgs { path: args.output }),
        FileType::Yaml => WriterStep::Yaml(WriteYamlArgs { path: args.output, sparse: args.sparse }),
    }
}

/// Pretty printing was asked for and is ignored, which is worth a warning:
/// the output is no JSON file.
pub open spec fn pretty_ignored(output_file_type: FileType, args: ConvertArgs) -> bool {
    output_file_type != FileType::Json && args.json_pretty
}

/// How the output of a conversion is written.
pub struct WriterPlan {
    pub writer: WriterStep,
    /// The request asks for pretty printing, which only JSON output has; the
    /// request is carried out without it, with a warning.
    pub warn_pretty_ignored: bool,
}

/// The step that writes the output of `convert`, and whether to warn that
/// pretty printing was asked for in vain.
pub fn execute_writer(output_file_type: FileType, args: &ConvertArgs) -> (plan: WriterPlan)
    ensures
        plan.writer == writer_step(output_file_type, *args),
        plan.warn_pretty_ignored == pretty_ignored(output_file_type, *args),
{
    let is_json = match output_file_type {
        FileType::Json => true,
        _ => false,
    };
    let writer = match output_file_type {
        FileType::Csv => WriterStep::Csv(WriteArgs { path: args.output.clone() }),
        FileType::Avro => WriterStep::Avro(WriteAvroArgs { path: args.output.clone() }),
        FileType::Parquet => WriterStep::Parquet(WriteParquetArgs { path: args.output.clone() }),
        FileType::Orc => WriterStep::Orc(WriteArgs { path: args.output.clone() }),
        FileType::Json => WriterStep::Json(
            WriteJsonArgs {
                path: args.output.clone(),
                sparse: args.sparse,
                pretty: args.json_pretty,
            },
        ),
        FileType::Xlsx => WriterStep::Xlsx(WriteArgs { path: args.output.clone() }),
        FileType::Yaml => WriterStep::Yaml(
            WriteYamlArgs { path: args.output.clone(), sparse: args.sparse },
        ),
    };
    WriterPlan { writer, warn_pretty_ignored: !is_json && args.json_pretty }
}

/// The plan of a conversion: where the rows are read, which columns are
/// kept, and how they are written.
pub struct ConvertPlan {
    pub reader: ReaderStep,
    pub columns: Option<Vec<String>>,
    pub writer: WriterPlan,
}

/// convert command: reads an Avro, Parquet, or ORC file, up to the limit of
/// the request, keeps the selected columns where some are selected, and
/// writes a file of the output type.
pub fn convert(input_file_type: FileType, output_file_type: FileType, args: &ConvertArgs) -> (r:
    Result<ConvertPlan, Error>)
    ensures
        r is Ok <==> reader_step(input_file_type, args.input, args.limit) is Some,
        r matches Ok(plan) ==> {
            &&& Some(plan.reader) == reader_step(input_file_type, args.input, args.limit)
            &&& selection(args.select, plan.columns)
            &&& plan.writer.writer == writer_step(output_file_type, *args)
            &&& plan.writer.warn_pretty_ignored == pretty_ignored(output_file_type, *args)
        },
        r matches Err(e) ==> (e matches Error::PipelinePlanningError(m) && m@
            == convert_unsupported_text()),
{
    let reader = match convert_reader_step(input_file_type, args) {
        Ok(reader) => reader,
        Err(e) => {
            return Err(e);
        },
    };
    Ok(
        ConvertPlan {
            reader,
            columns: select_of(&args.select),
            writer: execute_writer(output_file_type, args),
        },
    )
}

/// Where the schema of a file is read from.
#[derive(Clone, Copy, Debug, PartialEq, Eq, Structural)]
pub enum SchemaSource {
    Parquet,
    Avro,
    Orc,
}

/// Where the schema of a file of the given type is read from.
pub open spec fn schema_source(file_type: FileType) -> Option<SchemaSource> {
    match file_type {
        FileType::Parquet => Some(SchemaSource::Parquet),
        FileType::Avro => Some(SchemaSource::Avro),
        FileType::Orc => Some(SchemaSource::Orc),
        _ => None,
    }
}

/// schema command: where the schema of an Avro, Parquet, or ORC file is read
/// from.
pub fn schema(file_type: FileType) -> (r: Result<SchemaSource, Error>)
    ensures
        planned(r, schema_source(file_type), schema_unsupported_text()),
{
    let source = match file_type {
        FileType::Parquet => Some(SchemaSource::Parquet),
        FileType::Avro => Some(SchemaSource::Avro),
        FileType::Orc => Some(SchemaSource::Orc),
        _ => None,
    };
    planning_error(source, "schema is only supported for Parquet, Avro, and ORC files")
}

} // verus!
