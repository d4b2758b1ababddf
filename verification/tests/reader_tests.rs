use csv_cat::error::CsvError;
use csv_cat::reader::{collect_rows, from_bytes, from_str, ReaderConfig};

const SAMPLE_CSV: &str = "name,age,city\nalice,30,seattle\nbob,25,portland\n";

#[test]
fn from_str_reads_all_rows() -> Result<(), CsvError> {
    let rows = from_str(SAMPLE_CSV, ReaderConfig::new())?;
    assert_eq!(rows.len(), 2);
    assert_eq!(rows[0].get(0)?, "alice");
    assert_eq!(rows[1].get(0)?, "bob");
    Ok(())
}

#[test]
fn from_str_with_no_headers() -> Result<(), CsvError> {
    let data = "alice,30\nbob,25\n";
    let rows = from_str(data, ReaderConfig::new().has_headers(false))?;
    assert_eq!(rows.len(), 2);
    Ok(())
}

#[test]
fn from_str_with_tab_delimiter() -> Result<(), CsvError> {
    let data = "name\tage\nalice\t30\n";
    let rows = from_str(data, ReaderConfig::new().delimiter(b'\t'))?;
    assert_eq!(rows.len(), 1);
    assert_eq!(rows[0].get(0)?, "alice");
    assert_eq!(rows[0].get(1)?, "30");
    Ok(())
}

#[test]
fn config_defaults() {
    let config = ReaderConfig::new();
    assert!(config.headers_enabled());
    assert_eq!(config.delimiter_byte(), b',');
    assert!(!config.is_flexible());
}

#[test]
fn config_setters_change_one_setting() {
    let config = ReaderConfig::new().has_headers(false);
    assert!(!config.headers_enabled());
    assert_eq!(config.delimiter_byte(), b',');
    assert!(!config.is_flexible());

    let config = ReaderConfig::new().delimiter(b';');
    assert!(config.headers_enabled());
    assert_eq!(config.delimiter_byte(), b';');
    assert!(!config.is_flexible());

    let config = ReaderConfig::new().flexible(true);
    assert!(config.headers_enabled());
    assert_eq!(config.delimiter_byte(), b',');
    assert!(config.is_flexible());
}

#[test]
fn default_reader_config_is_new() {
    let config = ReaderConfig::default();
    assert!(config.headers_enabled());
    assert_eq!(config.delimiter_byte(), b',');
    assert!(!config.is_flexible());
}

#[test]
fn from_str_keeps_header_row_when_headers_disabled() -> Result<(), CsvError> {
    let rows = from_str(SAMPLE_CSV, ReaderConfig::new().has_headers(false))?;
    assert_eq!(rows.len(), 3);
    assert_eq!(rows[0].to_vec(), vec!["name", "age", "city"]);
    assert_eq!(rows[2].to_vec(), vec!["bob", "25", "portland"]);
    Ok(())
}

#[test]
fn from_str_empty_input_gives_no_rows() -> Result<(), CsvError> {
    let rows = from_str("", ReaderConfig::new())?;
    assert!(rows.is_empty());
    let rows = from_str("a,b\n", ReaderConfig::new())?;
    assert!(rows.is_empty());
    Ok(())
}

#[test]
fn from_str_unequal_lengths_is_csv_error() {
    let data = "a,b\n1,2\n3\n";
    match from_str(data, ReaderConfig::new()) {
        Err(CsvError::Csv(_)) => {}
        other => panic!("expected a csv error, got {:?}", other),
    }
}

#[test]
fn from_str_flexible_accepts_unequal_lengths() -> Result<(), CsvError> {
    let data = "a,b\n1,2\n3\n";
    let rows = from_str(data, ReaderConfig::new().flexible(true))?;
    assert_eq!(rows.len(), 2);
    assert_eq!(rows[1].len(), 1);
    assert_eq!(rows[1].get(0)?, "3");
    Ok(())
}

#[test]
fn from_str_handles_quoted_fields() -> Result<(), CsvError> {
    let data = "name,quote\nalice,\"hello, world\"\n";
    let rows = from_str(data, ReaderConfig::new())?;
    assert_eq!(rows.len(), 1);
    assert_eq!(rows[0].get(1)?, "hello, world");
    Ok(())
}

#[test]
fn from_bytes_matches_from_str() -> Result<(), CsvError> {
    let a = from_str(SAMPLE_CSV, ReaderConfig::new())?;
    let b = from_bytes(SAMPLE_CSV.as_bytes(), ReaderConfig::new())?;
    assert_eq!(a.len(), b.len());
    for (x, y) in a.iter().zip(b.iter()) {
        assert_eq!(x.to_vec(), y.to_vec());
    }
    Ok(())
}

#[test]
fn from_bytes_invalid_utf8_is_csv_error() {
    let data: &[u8] = b"a,b\n\xff,1\n";
    assert!(matches!(from_bytes(data, ReaderConfig::new()), Err(CsvError::Csv(_))));
}

#[test]
fn collect_rows_takes_the_remaining_records() -> Result<(), CsvError> {
    let reader = csv::ReaderBuilder::new().has_headers(false).from_reader("x,y\n1,2\n".as_bytes());
    let rows = collect_rows(reader)?;
    assert_eq!(rows.len(), 2);
    assert_eq!(rows[0].to_vec(), vec!["x", "y"]);
    assert_eq!(rows[1].to_vec(), vec!["1", "2"]);
    Ok(())
}

#[test]
fn collect_rows_stops_at_the_first_error() {
    let reader = csv::ReaderBuilder::new().from_reader("x,y\n1\n2,3\n".as_bytes());
    assert!(matches!(collect_rows(reader), Err(CsvError::Csv(_))));
}

#[test]
fn strict_rows_have_the_header_width() -> Result<(), CsvError> {
    let rows = from_str(SAMPLE_CSV, ReaderConfig::new())?;
    assert!(rows.iter().all(|r| r.len() == 3));
    let data = "a,b\n1,2,3\n";
    assert!(matches!(from_str(data, ReaderConfig::new()), Err(CsvError::Csv(_))));
    let data = "a,b\n1,2,3\n";
    assert_eq!(from_str(data, ReaderConfig::new().flexible(true))?[0].len(), 3);
    Ok(())
}

#[test]
fn cloned_config_reads_the_same() -> Result<(), CsvError> {
    let config = ReaderConfig::new().delimiter(b'\t').has_headers(false);
    let copy = config.clone();
    assert_eq!(copy.delimiter_byte(), b'\t');
    assert!(!copy.headers_enabled());
    assert_eq!(from_str("x\ty\n", copy)?.len(), 1);
    Ok(())
}
