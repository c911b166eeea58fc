//! The requests that the commands take.

use vstd::prelude::*;

use crate::text::lowercase;
use crate::text::str_to_lowercase;
use crate::text::text_is;

verus! {

/// Output format for the schema command
#[derive(Clone, Copy, Debug, Eq, PartialEq, Structural)]
pub enum DisplayOutputFormat {
    Csv,
    Json,
    JsonPretty,
    Yaml,
}

impl Default for DisplayOutputFormat {
    fn default() -> (f: Self)
        ensures
            f == DisplayOutputFormat::Csv,
    {
        DisplayOutputFormat::Csv
    }
}

/// The output format that a name in lower case stands for, if it stands for
/// one.
pub open spec fn format_of(lowered: Seq<char>) -> Option<DisplayOutputFormat> {
    if lowered == "csv"@ {
        Some(DisplayOutputFormat::Csv)
    } else if lowered == "json"@ {
        Some(DisplayOutputFormat::Json)
    } else if lowered == "json-pretty"@ {
        Some(DisplayOutputFormat::JsonPretty)
    } else if lowered == "yaml"@ {
        Some(DisplayOutputFormat::Yaml)
    } else {
        None
    }
}

/// The text of the error for a name that stands for no output format.
pub open spec fn unknown_format_text(s: Seq<char>) -> Seq<char> {
    "unknown output type '"@ + s + "', expected csv, json, json-pretty, or yaml"@
}

impl DisplayOutputFormat {
    /// The name of the format.
    pub open spec fn name(self) -> Seq<char> {
        match self {
            DisplayOutputFormat::Csv => "csv"@,
            DisplayOutputFormat::Json => "json"@,
            DisplayOutputFormat::JsonPretty => "json-pretty"@,
            DisplayOutputFormat::Yaml => "yaml"@,
        }
    }

    /// The name of the format, as it is written in a request.
    pub fn to_string(&self) -> (s: String)
        ensures
            s@ == self.name(),
    {
        match self {
            DisplayOutputFormat::Csv => String::from_str("csv"),
            DisplayOutputFormat::Json => String::from_str("json"),
            DisplayOutputFormat::JsonPretty => String::from_str("json-pretty"),
            DisplayOutputFormat::Yaml => String::from_str("yaml"),
        }
    }

    /// The output format that a name in lower case stands for.
    pub fn of_lowercase_name(lowered: &String) -> (f: Option<DisplayOutputFormat>)
        ensures
            f == format_of(lowered@),
    {
        if text_is(lowered, "csv") {
            Some(DisplayOutputFormat::Csv)
        } else if text_is(lowered, "json") {
            Some(DisplayOutputFormat::Json)
        } else if text_is(lowered, "json-pretty") {
            Some(DisplayOutputFormat::JsonPretty)
        } else if text_is(lowered, "yaml") {
            Some(DisplayOutputFormat::Yaml)
        } else {
            None
        }
    }

    /// The output format that a name stands for, whatever its case; for any
    /// other text an error that quotes it.
    pub fn try_from(s: &str) -> (r: Result<DisplayOutputFormat, String>)
        ensures
            match r {
                Ok(f) => format_of(lowercase(s@)) == Some(f),
                Err(e) => format_of(lowercase(s@)) is None && e@ == unknown_format_text(s@),
            },
    {
        let lowered = str_to_lowercase(s);
        match DisplayOutputFormat::of_lowercase_name(&lowered) {
            Some(f) => Ok(f),
            None => Err(
                String::from_str("unknown output type '").concat(s).concat(
                    "', expected csv, json, json-pretty, or yaml",
                ),
            ),
        }
    }

    /// The same as `try_from`.
    pub fn from_str(s: &str) -> (r: Result<DisplayOutputFormat, String>)
        ensures
            match r {
                Ok(f) => format_of(lowercase(s@)) == Some(f),
                Err(e) => format_of(lowercase(s@)) is None && e@ == unknown_format_text(s@),
            },
    {
        DisplayOutputFormat::try_from(s)
    }
}

/// schema command arguments
pub struct SchemaArgs {
    /// Path to the Parquet or Avro file
    pub file: String,
    /// Output format: csv, json, json-pretty, or yaml
    pub output: DisplayOutputFormat,
    /// For JSON/YAML: omit keys with null/missing values.
    pub sparse: bool,
}

/// count command arguments
pub struct CountArgs {
    /// Path to the Parquet, Avro, or ORC file
    pub file: String,
}

/// head and tail command arguments
pub struct HeadsOrTails {
    pub input: String,
    /// Number of lines to print.
    pub number: usize,
    /// Output format: csv, json, json-pretty, or yaml
    pub output: DisplayOutputFormat,
    /// For JSON/YAML: omit keys with null/missing values.
    pub sparse: bool,
    /// Columns to select. If not specified, all columns will be printed.
    pub select: Option<Vec<String>>,
}

/// convert command arguments
pub struct ConvertArgs {
    pub input: String,
    pub output: String,
    /// Columns to select. If not specified, all columns will be selected.
    pub select: Option<Vec<String>>,
    /// Maximum number of records to read from the input.
    pub limit: Option<usize>,
    /// For JSON/YAML: omit keys with null/missing values. If false, output
    /// default values (e.g. empty string).
    pub sparse: bool,
    /// When converting to JSON, format output with indentation and newlines.
    /// Ignored for other output formats.
    pub json_pretty: bool,
}

} // verus!
