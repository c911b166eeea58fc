use datu::cli::DisplayOutputFormat;
use datu::text::is_white_space;
use datu::utils::parse_select_columns;
use datu::Error;
use datu::FileType;

#[test]
fn test_parse_select_columns() {
    assert_eq!(parse_select_columns(&[]), Vec::<String>::new());
    assert_eq!(
        parse_select_columns(&["a".to_string(), "b".to_string()]),
        vec!["a".to_string(), "b".to_string()]
    );
    assert_eq!(
        parse_select_columns(&["a, b".to_string(), "c".to_string()]),
        vec!["a".to_string(), "b".to_string(), "c".to_string()]
    );
    assert_eq!(
        parse_select_columns(&[" one ,  two  ".to_string()]),
        vec!["one".to_string(), "two".to_string()]
    );
}

#[test]
fn test_valid_extensions() {
    assert_eq!(FileType::try_from("test.csv").unwrap(), FileType::Csv);
    assert_eq!(FileType::try_from("data.json").unwrap(), FileType::Json);
    assert_eq!(FileType::try_from("file.parq").unwrap(), FileType::Parquet);
    assert_eq!(FileType::try_from("data.orc").unwrap(), FileType::Orc);
    assert_eq!(FileType::try_from("schema.avro").unwrap(), FileType::Avro);
    assert_eq!(FileType::try_from("data.xlsx").unwrap(), FileType::Xlsx);
    assert_eq!(FileType::try_from("data.yaml").unwrap(), FileType::Yaml);
    assert_eq!(FileType::try_from("data.yml").unwrap(), FileType::Yaml);
}

#[test]
fn test_case_insensitive() {
    assert_eq!(FileType::try_from("test.CSV").unwrap(), FileType::Csv);
    assert_eq!(FileType::try_from("data.Json").unwrap(), FileType::Json);
    assert_eq!(FileType::try_from("file.PARQ").unwrap(), FileType::Parquet);
    assert_eq!(FileType::try_from("data.ORC").unwrap(), FileType::Orc);
    assert_eq!(FileType::try_from("schema.Avro").unwrap(), FileType::Avro);
    assert_eq!(FileType::try_from("report.XLSX").unwrap(), FileType::Xlsx);
    assert_eq!(FileType::try_from("config.YAML").unwrap(), FileType::Yaml);
    assert_eq!(FileType::try_from("config.YML").unwrap(), FileType::Yaml);
}

#[test]
fn test_unknown_extension() {
    let result = FileType::try_from("image.png");
    assert!(matches!(result, Err(Error::UnknownFileType(s)) if s == "png"));
}

#[test]
fn test_no_extension() {
    let result = FileType::try_from("README");
    assert!(matches!(result, Err(Error::UnknownFileType(s)) if s == "README"));
}

#[test]
fn parquet_has_two_extensions() {
    assert_eq!(FileType::try_from("a/b/table.parquet").unwrap(), FileType::Parquet);
    assert_eq!(FileType::try_from("table.parq").unwrap(), FileType::Parquet);
}

#[test]
fn unknown_extension_keeps_its_case_in_the_error() {
    let result = FileType::try_from("image.PNG");
    assert!(matches!(result, Err(Error::UnknownFileType(s)) if s == "PNG"));
}

#[test]
fn hidden_file_without_extension_is_unknown() {
    let result = FileType::try_from(".parquet");
    assert!(matches!(result, Err(Error::UnknownFileType(s)) if s == ".parquet"));
}

#[test]
fn extension_is_taken_from_the_file_name_only() {
    let result = FileType::try_from("dir.csv/README");
    assert!(matches!(result, Err(Error::UnknownFileType(s)) if s == "dir.csv/README"));
    assert_eq!(FileType::try_from("archive.tar.csv").unwrap(), FileType::Csv);
}

#[test]
fn from_extension_classifies_what_it_is_given() {
    assert_eq!(FileType::from_extension("x.orc", Some("orc")).unwrap(), FileType::Orc);
    assert_eq!(FileType::from_extension("x", Some("YML")).unwrap(), FileType::Yaml);
    assert!(matches!(
        FileType::from_extension("x.txt", Some("Txt")),
        Err(Error::UnknownFileType(s)) if s == "Txt"
    ));
    assert!(matches!(
        FileType::from_extension("plain", None),
        Err(Error::UnknownFileType(s)) if s == "plain"
    ));
}

#[test]
fn lowercase_extension_names() {
    assert_eq!(FileType::of_lowercase_extension(&"json".to_string()), Some(FileType::Json));
    assert_eq!(FileType::of_lowercase_extension(&"csv".to_string()), Some(FileType::Csv));
    assert_eq!(FileType::of_lowercase_extension(&"parq".to_string()), Some(FileType::Parquet));
    assert_eq!(FileType::of_lowercase_extension(&"parquet".to_string()), Some(FileType::Parquet));
    assert_eq!(FileType::of_lowercase_extension(&"orc".to_string()), Some(FileType::Orc));
    assert_eq!(FileType::of_lowercase_extension(&"avro".to_string()), Some(FileType::Avro));
    assert_eq!(FileType::of_lowercase_extension(&"xlsx".to_string()), Some(FileType::Xlsx));
    assert_eq!(FileType::of_lowercase_extension(&"yaml".to_string()), Some(FileType::Yaml));
    assert_eq!(FileType::of_lowercase_extension(&"yml".to_string()), Some(FileType::Yaml));
    assert_eq!(FileType::of_lowercase_extension(&"JSON".to_string()), None);
    assert_eq!(FileType::of_lowercase_extension(&"".to_string()), None);
}

#[test]
fn select_columns_drops_empty_parts() {
    assert_eq!(
        parse_select_columns(&[",a,,b,".to_string(), " , ".to_string(), "".to_string()]),
        vec!["a".to_string(), "b".to_string()]
    );
}

#[test]
fn select_columns_keeps_order_and_repeats() {
    assert_eq!(
        parse_select_columns(&["b,a".to_string(), "a".to_string()]),
        vec!["b".to_string(), "a".to_string(), "a".to_string()]
    );
}

#[test]
fn select_columns_trims_all_white_space() {
    assert_eq!(
        parse_select_columns(&["\ta b\n,\u{a0}c\u{2003}".to_string()]),
        vec!["a b".to_string(), "c".to_string()]
    );
}

#[test]
fn output_format_names() {
    assert_eq!(DisplayOutputFormat::try_from("csv"), Ok(DisplayOutputFormat::Csv));
    assert_eq!(DisplayOutputFormat::try_from("JSON"), Ok(DisplayOutputFormat::Json));
    assert_eq!(DisplayOutputFormat::try_from("Json-Pretty"), Ok(DisplayOutputFormat::JsonPretty));
    assert_eq!(DisplayOutputFormat::try_from("yaml"), Ok(DisplayOutputFormat::Yaml));
    assert_eq!(DisplayOutputFormat::from_str("yaml"), Ok(DisplayOutputFormat::Yaml));
    assert_eq!(DisplayOutputFormat::default(), DisplayOutputFormat::Csv);
}

#[test]
fn output_format_unknown_name() {
    assert_eq!(
        DisplayOutputFormat::try_from("Xml"),
        Err("unknown output type 'Xml', expected csv, json, json-pretty, or yaml".to_string())
    );
}

#[test]
fn output_format_to_string_round_trips() {
    for f in [
        DisplayOutputFormat::Csv,
        DisplayOutputFormat::Json,
        DisplayOutputFormat::JsonPretty,
        DisplayOutputFormat::Yaml,
    ] {
        assert_eq!(DisplayOutputFormat::try_from(f.to_string().as_str()), Ok(f));
    }
    assert_eq!(DisplayOutputFormat::JsonPretty.to_string(), "json-pretty");
}

#[test]
fn error_messages() {
    assert_eq!(Error::GenericError("boom".to_string()).message(), "An error occurred: boom");
    assert_eq!(
        Error::UnknownFileType("png".to_string()).message(),
        "Unknown or unsupported file type: 'png'"
    );
    assert_eq!(
        Error::PipelinePlanningError("no".to_string()).message(),
        "Pipeline planning error: no"
    );
    assert_eq!(Error::ColumnNotFound("x".to_string()).message(), "Column not found: 'x'");
    assert_eq!(Error::AmbiguousColumn("x".to_string()).message(), "Ambiguous column: 'x'");
    let io = std::io::Error::new(std::io::ErrorKind::NotFound, "no such file");
    let expected = io.to_string();
    assert_eq!(Error::from(io).message(), expected);
    assert_eq!(expected, "no such file");
    let parquet = parquet::errors::ParquetError::General("bad footer".to_string());
    let expected = parquet.to_string();
    assert!(matches!(Error::from(parquet), Error::ParquetError(e) if e.to_string() == expected));
    let parquet = parquet::errors::ParquetError::General("bad footer".to_string());
    assert_eq!(Error::ParquetError(parquet).message(), expected);
    let xlsx = rust_xlsxwriter::XlsxError::ParameterError("bad cell".to_string());
    let expected = xlsx.to_string();
    assert_eq!(Error::from(xlsx).message(), expected);
    let orc = orc_rust::error::OutOfSpecSnafu { msg: "short file" }.build();
    let expected = orc.to_string();
    assert_eq!(expected, "Out of spec, message: short file");
    assert_eq!(Error::from(orc).message(), expected);
    let arrow = arrow::error::ArrowError::SchemaError("bad".to_string());
    let expected = arrow.to_string();
    assert_eq!(Error::ArrowError(arrow).message(), expected);
    assert_eq!(expected, "Schema error: bad");
}

#[test]
fn plain_names_have_the_text_after_their_last_dot() {
    assert_eq!(FileType::try_from("data.csv").unwrap(), FileType::Csv);
    assert_eq!(FileType::try_from("x.tar.Json").unwrap(), FileType::Json);
    assert_eq!(FileType::try_from("..avro").unwrap(), FileType::Avro);
    assert!(matches!(FileType::try_from("..a"), Err(Error::UnknownFileType(s)) if s == "a"));
    assert!(matches!(FileType::try_from("a."), Err(Error::UnknownFileType(s)) if s == ""));
    assert!(matches!(FileType::try_from("..."), Err(Error::UnknownFileType(s)) if s == ""));
    assert!(matches!(FileType::try_from("."), Err(Error::UnknownFileType(s)) if s == "."));
    assert!(matches!(FileType::try_from(""), Err(Error::UnknownFileType(s)) if s == ""));
    assert!(matches!(FileType::try_from(".csv"), Err(Error::UnknownFileType(s)) if s == ".csv"));
    assert!(matches!(FileType::try_from("csv"), Err(Error::UnknownFileType(s)) if s == "csv"));
}

#[test]
fn white_space_is_what_the_standard_library_says() {
    for n in 0..=0x10FFFFu32 {
        if let Some(c) = char::from_u32(n) {
            assert_eq!(is_white_space(c), c.is_whitespace(), "U+{n:04X}");
        }
    }
}

#[test]
fn select_columns_agree_with_split_and_trim() {
    let texts = [
        "a, b",
        " one ,  two  ",
        ",,a,, b ,",
        "",
        " ",
        "\u{3000}x\u{85},\u{2028}y z\u{205f}",
        "no comma",
        "a,b,c,d,e",
    ];
    for text in texts {
        let expected: Vec<String> = text
            .split(',')
            .map(|part| part.trim())
            .filter(|part| !part.is_empty())
            .map(|part| part.to_string())
            .collect();
        assert_eq!(parse_select_columns(&[text.to_string()]), expected, "{text:?}");
    }
}
