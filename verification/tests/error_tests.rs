use csv_cat::error::CsvError;

#[test]
fn missing_field_message() {
    let e = CsvError::MissingField { index: 99 };
    assert_eq!(e.message(), "missing field at index 99");
    let e = CsvError::MissingField { index: 0 };
    assert_eq!(e.message(), "missing field at index 0");
    let e = CsvError::MissingField { index: 1203 };
    assert_eq!(e.message(), "missing field at index 1203");
}

#[test]
fn deserialize_message() {
    let e = CsvError::Deserialize("bad value".to_string());
    assert_eq!(e.message(), "deserialization error: bad value");
}

#[test]
fn io_message_and_conversion() {
    let io = std::io::Error::new(std::io::ErrorKind::NotFound, "no such file");
    let e = CsvError::from(io);
    assert!(matches!(e, CsvError::Io(_)));
    assert_eq!(e.message(), "IO error: no such file");
}

#[test]
fn csv_error_message_and_conversion() {
    let mut rdr = csv::ReaderBuilder::new()
        .has_headers(false)
        .from_reader("a,b\nc\n".as_bytes());
    let err = rdr.records().nth(1).unwrap().unwrap_err();
    let text = err.to_string();
    let e = CsvError::from(err);
    assert!(matches!(e, CsvError::Csv(_)));
    assert_eq!(e.message(), format!("CSV error: {}", text));
}

#[test]
fn message_parts() {
    assert_eq!(csv_cat::error::missing_field_message(7), "missing field at index 7");
    assert_eq!(csv_cat::error::deserialize_message("x"), "deserialization error: x");
}
