//! The errors of the pipeline, and of the codecs around it.
//!
//! The errors of the codecs are values of their crates and are held as they
//! come; of each, the library knows its message, through a wrapper whose
//! contract is believed, not proved.

use arrow::error::ArrowError;
use vstd::prelude::*;

use crate::batch::arrow_error_message;
use crate::batch::error_text;

verus! {

/// `std::io::Error`, taken as it is.
#[verifier::external_type_specification]
#[verifier::external_body]
pub struct ExIoError(std::io::Error);

/// `Display` of `std::io::Error`: the message of the error. For a failure of
/// the operating system the message is the platform's, in its language, so
/// nothing is said of it.
#[verifier::external_body]
pub(crate) fn io_error_message(e: &std::io::Error) -> (m: String) {
    e.to_string()
}

/// `parquet::errors::ParquetError`, taken as it is.
#[verifier::external_type_specification]
#[verifier::external_body]
pub struct ExParquetError(parquet::errors::ParquetError);

/// The message of such an error, as its `Display` shows it.
pub uninterp spec fn parquet_error_text(e: parquet::errors::ParquetError) -> Seq<char>;

/// `Display` of `parquet::errors::ParquetError`: the message of the error.
#[verifier::external_body]
pub(crate) fn parquet_error_message(e: &parquet::errors::ParquetError) -> (m: String)
    ensures
        m@ == parquet_error_text(*e),
{
    e.to_string()
}

/// `rust_xlsxwriter::XlsxError`, taken as it is.
#[verifier::external_type_specification]
#[verifier::external_body]
pub struct ExXlsxError(rust_xlsxwriter::XlsxError);

/// The message of such an error, as its `Display` shows it.
pub uninterp spec fn xlsx_error_text(e: rust_xlsxwriter::XlsxError) -> Seq<char>;

/// `Display` of `rust_xlsxwriter::XlsxError`: the message of the error.
#[verifier::external_body]
pub(crate) fn xlsx_error_message(e: &rust_xlsxwriter::XlsxError) -> (m: String)
    ensures
        m@ == xlsx_error_text(*e),
{
    e.to_string()
}

/// `orc_rust::error::OrcError`, taken as it is.
#[verifier::external_type_specification]
#[verifier::external_body]
pub struct ExOrcError(orc_rust::error::OrcError);

/// The message of such an error, as its `Display` shows it.
pub uninterp spec fn orc_error_text(e: orc_rust::error::OrcError) -> Seq<char>;

/// `Display` of `orc_rust::error::OrcError`: the message of the error.
#[verifier::external_body]
pub(crate) fn orc_error_message(e: &orc_rust::error::OrcError) -> (m: String)
    ensures
        m@ == orc_error_text(*e),
{
    e.to_string()
}

/// What can go wrong in the pipeline, and in the reading and writing around
/// it: the failures of the codecs are held as they come, and shown as they
/// show themselves.
#[derive(Debug)]
pub enum Error {
    /// A violated contract of the pipeline, such as a reader taken twice.
    GenericError(String),
    /// A path whose extension names no supported file type; holds the extension,
    /// or the whole path where it has none.
    UnknownFileType(String),
    /// A pipeline that cannot be assembled from the request.
    PipelinePlanningError(String),
    /// A requested column that the source schema does not have; holds its name.
    ColumnNotFound(String),
    /// A requested column that the source schema has more than once; holds
    /// its name.
    AmbiguousColumn(String),
    /// A failure reported by `arrow`.
    ArrowError(ArrowError),
    /// A failure to open, read or write a file.
    IoError(std::io::Error),
    /// A failure reported by the Parquet codec.
    ParquetError(parquet::errors::ParquetError),
    /// A failure reported by the spreadsheet writer.
    XlsxError(rust_xlsxwriter::XlsxError),
    /// A failure reported by the ORC codec.
    OrcError(orc_rust::error::OrcError),
}

impl From<ArrowError> for Error {
    fn from(e: ArrowError) -> (r: Error) {
        Error::ArrowError(e)
    }
}

impl vstd::std_specs::convert::FromSpecImpl<ArrowError> for Error {
    open spec fn obeys_from_spec() -> bool {
        true
    }

    open spec fn from_spec(e: ArrowError) -> Error {
        Error::ArrowError(e)
    }
}

impl From<std::io::Error> for Error {
    fn from(e: std::io::Error) -> (r: Error) {
        Error::IoError(e)
    }
}

impl vstd::std_specs::convert::FromSpecImpl<std::io::Error> for Error {
    open spec fn obeys_from_spec() -> bool {
        true
    }

    open spec fn from_spec(e: std::io::Error) -> Error {
        Error::IoError(e)
    }
}

impl From<parquet::errors::ParquetError> for Error {
    fn from(e: parquet::errors::ParquetError) -> (r: Error) {
        Error::ParquetError(e)
    }
}

impl vstd::std_specs::convert::FromSpecImpl<parquet::errors::ParquetError> for Error {
    open spec fn obeys_from_spec() -> bool {
        true
    }

    open spec fn from_spec(e: parquet::errors::ParquetError) -> Error {
        Error::ParquetError(e)
    }
}

impl From<rust_xlsxwriter::XlsxError> for Error {
    fn from(e: rust_xlsxwriter::XlsxError) -> (r: Error) {
        Error::XlsxError(e)
    }
}

impl vstd::std_specs::convert::FromSpecImpl<rust_xlsxwriter::XlsxError> for Error {
    open spec fn obeys_from_spec() -> bool {
        true
    }

    open spec fn from_spec(e: rust_xlsxwriter::XlsxError) -> Error {
        Error::XlsxError(e)
    }
}

impl From<orc_rust::error::OrcError> for Error {
    fn from(e: orc_rust::error::OrcError) -> (r: Error) {
        Error::OrcError(e)
    }
}

impl vstd::std_specs::convert::FromSpecImpl<orc_rust::error::OrcError> for Error {
    open spec fn obeys_from_spec() -> bool {
        true
    }

    open spec fn from_spec(e: orc_rust::error::OrcError) -> Error {
        Error::OrcError(e)
    }
}

impl Error {
    /// The text shown for the error, where the library knows it: the message
    /// of a failure to open, read or write a file is the platform's.
    pub open spec fn message_spec(self) -> Option<Seq<char>> {
        match self {
            Error::GenericError(s) => Some("An error occurred: "@ + s@),
            Error::UnknownFileType(s) => Some("Unknown or unsupported file type: '"@ + s@ + "'"@),
            Error::PipelinePlanningError(s) => Some("Pipeline planning error: "@ + s@),
            Error::ColumnNotFound(s) => Some("Column not found: '"@ + s@ + "'"@),
            Error::AmbiguousColumn(s) => Some("Ambiguous column: '"@ + s@ + "'"@),
            Error::ArrowError(e) => Some(error_text(e)),
            Error::IoError(_) => None,
            Error::ParquetError(e) => Some(parquet_error_text(e)),
            Error::XlsxError(e) => Some(xlsx_error_text(e)),
            Error::OrcError(e) => Some(orc_error_text(e)),
        }
    }

    /// The text shown for the error: for an error of the pipeline its own
    /// text with what the error holds, for an error of a codec the message of
    /// that error as it is.
    pub fn message(&self) -> (m: String)
        ensures
            self.message_spec() matches Some(text) ==> m@ == text,
    {
        match self {
            Error::GenericError(s) => String::from_str("An error occurred: ").concat(s.as_str()),
            Error::UnknownFileType(s) => String::from_str(
                "Unknown or unsupported file type: '",
            ).concat(s.as_str()).concat("'"),
            Error::PipelinePlanningError(s) => String::from_str("Pipeline planning error: ").concat(
                s.as_str(),
            ),
            Error::ColumnNotFound(s) => String::from_str("Column not found: '").concat(
                s.as_str(),
            ).concat("'"),
            Error::AmbiguousColumn(s) => String::from_str("Ambiguous column: '").concat(
                s.as_str(),
            ).concat("'"),
            Error::ArrowError(e) => arrow_error_message(e),
            Error::IoError(e) => io_error_message(e),
            Error::ParquetError(e) => parquet_error_message(e),
            Error::XlsxError(e) => xlsx_error_message(e),
            Error::OrcError(e) => orc_error_message(e),
        }
    }
}

} // verus!
