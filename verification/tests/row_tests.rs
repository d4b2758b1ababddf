use csv_cat::error::CsvError;
use csv_cat::row::Row;

fn sample_row() -> Row {
    let record = csv::StringRecord::from(vec!["alice", "30", "seattle"]);
    Row::from_record(record)
}

#[test]
fn get_returns_field_by_index() -> Result<(), CsvError> {
    let row = sample_row();
    assert_eq!(row.get(0)?, "alice");
    assert_eq!(row.get(1)?, "30");
    assert_eq!(row.get(2)?, "seattle");
    Ok(())
}

#[test]
fn get_out_of_bounds_returns_error() {
    let row = sample_row();
    assert!(row.get(99).is_err());
}

#[test]
fn len_and_is_empty() {
    let row = sample_row();
    assert_eq!(row.len(), 3);
    assert!(!row.is_empty());

    let empty = Row::from_record(csv::StringRecord::new());
    assert!(empty.is_empty());
}

#[test]
fn to_vec_collects_all_fields() {
    let row = sample_row();
    assert_eq!(row.to_vec(), vec!["alice", "30", "seattle"]);
}

#[test]
fn get_out_of_bounds_names_the_index() {
    let row = sample_row();
    assert!(matches!(row.get(3), Err(CsvError::MissingField { index: 3 })));
    assert!(matches!(row.get(99), Err(CsvError::MissingField { index: 99 })));
}

#[test]
fn fields_lists_fields_in_order() {
    let row = sample_row();
    assert_eq!(row.fields(), vec!["alice", "30", "seattle"]);
    let empty = Row::from_record(csv::StringRecord::new());
    assert!(empty.fields().is_empty());
    assert_eq!(empty.len(), 0);
}

#[test]
fn clone_keeps_fields() {
    let row = sample_row();
    let copy = row.clone();
    assert_eq!(copy.to_vec(), row.to_vec());
}

#[test]
fn as_record_gives_the_record() {
    let row = sample_row();
    assert_eq!(row.as_record(), &csv::StringRecord::from(vec!["alice", "30", "seattle"]));
}

#[test]
fn from_fields_builds_the_row() {
    let row = Row::from_fields(&["alice", "30", "seattle"]);
    assert_eq!(row.to_vec(), sample_row().to_vec());
    assert_eq!(Row::from_fields(&[]).len(), 0);
}
