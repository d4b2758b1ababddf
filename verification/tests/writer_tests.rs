use csv_cat::error::CsvError;
use csv_cat::reader::{from_str, ReaderConfig};
use csv_cat::row::Row;
use csv_cat::writer::{text_from_bytes, to_bytes, to_string, WriterConfig};

fn sample_rows() -> Vec<Row> {
    vec![
        Row::from_record(csv::StringRecord::from(vec!["alice", "30"])),
        Row::from_record(csv::StringRecord::from(vec!["bob", "25"])),
    ]
}

#[test]
fn to_string_writes_csv() -> Result<(), CsvError> {
    let output = to_string(
        WriterConfig::new(),
        Some(vec!["name".into(), "age".into()]),
        sample_rows(),
    )?;
    assert!(output.contains("name,age"));
    assert!(output.contains("alice,30"));
    assert!(output.contains("bob,25"));
    Ok(())
}

#[test]
fn to_string_without_headers() -> Result<(), CsvError> {
    let output = to_string(WriterConfig::new(), None, sample_rows())?;
    assert!(!output.contains("name"));
    assert!(output.contains("alice,30"));
    Ok(())
}

#[test]
fn to_string_with_tab_delimiter() -> Result<(), CsvError> {
    let output = to_string(WriterConfig::new().delimiter(b'\t'), None, sample_rows())?;
    assert!(output.contains("alice\t30"));
    Ok(())
}

#[test]
fn to_string_exact_output() -> Result<(), CsvError> {
    let output = to_string(
        WriterConfig::new(),
        Some(vec!["name".into(), "age".into()]),
        sample_rows(),
    )?;
    assert_eq!(output, "name,age\nalice,30\nbob,25\n");
    Ok(())
}

#[test]
fn header_row_comes_first_then_rows_unchanged() -> Result<(), CsvError> {
    let with = to_string(
        WriterConfig::new(),
        Some(vec!["name".into(), "age".into()]),
        sample_rows(),
    )?;
    let without = to_string(WriterConfig::new(), None, sample_rows())?;
    assert_eq!(with, format!("name,age\n{}", without));
    Ok(())
}

#[test]
fn read_then_write_gives_back_the_text() -> Result<(), CsvError> {
    let text = "name,age\nalice,30\nbob,25\n";
    let rows = from_str(text, ReaderConfig::new())?;
    let output = to_string(
        WriterConfig::new(),
        Some(vec!["name".into(), "age".into()]),
        rows,
    )?;
    assert_eq!(output, text);
    Ok(())
}

#[test]
fn to_string_quotes_fields_that_need_it() -> Result<(), CsvError> {
    let rows = vec![Row::from_record(csv::StringRecord::from(vec!["a,b", "c\"d"]))];
    let output = to_string(WriterConfig::new(), None, rows)?;
    assert_eq!(output, "\"a,b\",\"c\"\"d\"\n");
    Ok(())
}

#[test]
fn to_string_unequal_lengths_is_csv_error() {
    let rows = vec![
        Row::from_record(csv::StringRecord::from(vec!["alice", "30"])),
        Row::from_record(csv::StringRecord::from(vec!["bob"])),
    ];
    assert!(matches!(to_string(WriterConfig::new(), None, rows), Err(CsvError::Csv(_))));
}

#[test]
fn to_string_header_width_mismatch_is_csv_error() {
    let result = to_string(WriterConfig::new(), Some(vec!["name".into()]), sample_rows());
    assert!(matches!(result, Err(CsvError::Csv(_))));
}

#[test]
fn to_string_non_utf8_delimiter_is_deserialize_error() {
    let result = to_string(WriterConfig::new().delimiter(0xff), None, sample_rows());
    assert!(matches!(result, Err(CsvError::Deserialize(_))));
}

#[test]
fn to_string_empty_input_is_empty_text() -> Result<(), CsvError> {
    let output = to_string(WriterConfig::new(), None, Vec::new())?;
    assert_eq!(output, "");
    Ok(())
}

#[test]
fn to_bytes_matches_to_string() -> Result<(), CsvError> {
    let bytes = to_bytes(WriterConfig::new(), None, &sample_rows())?;
    let text = to_string(WriterConfig::new(), None, sample_rows())?;
    assert_eq!(bytes, text.into_bytes());
    Ok(())
}

#[test]
fn writer_config_defaults_and_setters() {
    let c = WriterConfig::new();
    assert_eq!(c.delimiter_byte(), b',');
    assert!(c.headers_enabled());
    let c = WriterConfig::default().delimiter(b';').has_headers(false);
    assert_eq!(c.delimiter_byte(), b';');
    assert!(!c.headers_enabled());
}

#[test]
fn writer_has_headers_false_skips_the_header_row() -> Result<(), CsvError> {
    let output = to_string(
        WriterConfig::new().has_headers(false),
        Some(vec!["name".into(), "age".into()]),
        sample_rows(),
    )?;
    assert_eq!(output, "alice,30\nbob,25\n");
    let bytes = to_bytes(
        WriterConfig::new().has_headers(false),
        Some(vec!["name".into(), "age".into()]),
        &sample_rows(),
    )?;
    assert_eq!(bytes, b"alice,30\nbob,25\n".to_vec());
    Ok(())
}

#[test]
fn skipped_header_row_is_not_counted_for_widths() -> Result<(), CsvError> {
    let output = to_string(WriterConfig::new().has_headers(false), Some(vec!["name".into()]), sample_rows())?;
    assert_eq!(output, "alice,30\nbob,25\n");
    Ok(())
}

#[test]
fn empty_records_are_written_as_two_quotes() -> Result<(), CsvError> {
    let rows = vec![Row::from_fields(&[""])];
    assert_eq!(to_string(WriterConfig::new(), None, rows)?, "\"\"\n");
    let rows = vec![Row::from_fields(&["", ""])];
    assert_eq!(to_string(WriterConfig::new(), None, rows)?, ",\n");
    Ok(())
}

#[test]
fn fields_with_line_breaks_are_quoted() -> Result<(), CsvError> {
    let rows = vec![Row::from_fields(&["a\nb", "c\rd", "e;f"])];
    assert_eq!(to_string(WriterConfig::new(), None, rows)?, "\"a\nb\",\"c\rd\",e;f\n");
    let rows = vec![Row::from_fields(&["e;f", "g"])];
    assert_eq!(to_string(WriterConfig::new().delimiter(b';'), None, rows)?, "\"e;f\";g\n");
    Ok(())
}

#[test]
fn text_from_bytes_reads_utf8() -> Result<(), CsvError> {
    assert_eq!(text_from_bytes("h\u{e9},1\n".as_bytes().to_vec())?, "h\u{e9},1\n");
    assert!(matches!(text_from_bytes(vec![0x61, 0xff]), Err(CsvError::Deserialize(_))));
    Ok(())
}
