//! Row: one CSV record with field accessors.

use vstd::prelude::*;

use crate::bindings::{new_record, record_fields, record_get, record_is_empty, record_iter, record_len, record_push_field};
use crate::error::CsvError;

verus! {

/// A single row of CSV data, holding a `csv::StringRecord`.
#[derive(Debug)]
pub struct Row {
    record: csv::StringRecord,
}

impl View for Row {
    type V = Seq<Seq<char>>;

    /// The fields of the row, in order.
    closed spec fn view(&self) -> Seq<Seq<char>> {
        record_fields(self.record)
    }
}

/// The fields of each row, in order.
pub open spec fn rows_view(rows: Seq<Row>) -> Seq<Seq<Seq<char>>> {
    rows.map_values(|r: Row| r@)
}

impl Clone for Row {
    fn clone(&self) -> (r: Row)
        ensures
            r@ == self@,
    {
        Row { record: self.record.clone() }
    }
}

impl Row {
    /// Wrap a raw `csv::StringRecord`.
    pub fn from_record(record: csv::StringRecord) -> (row: Row)
        ensures
            row@ == record_fields(record),
    {
        Row { record }
    }

    /// A row with the given fields, in order.
    pub fn from_fields(fields: &[&str]) -> (row: Row)
        ensures
            row@ == fields@.map_values(|f: &str| f@),
    {
        let mut record = new_record();
        let n = fields.len();
        for i in 0..n
            invariant
                n == fields@.len(),
                record_fields(record) == fields@.take(i as int).map_values(|f: &str| f@),
        {
            record_push_field(&mut record, fields[i]);
            assert(fields@.take(i + 1) =~= fields@.take(i as int).push(fields@[i as int]));
        }
        assert(fields@.take(n as int) =~= fields@);
        Row { record }
    }

    /// The record this row holds.
    pub fn as_record(&self) -> (r: &csv::StringRecord)
        ensures
            record_fields(*r) == self@,
    {
        &self.record
    }

    /// Get a field by index; `MissingField` when the index is out of bounds.
    pub fn get(&self, index: usize) -> (res: Result<&str, CsvError>)
        ensures
            index < self@.len() ==> (res matches Ok(f) && f@ == self@[index as int]),
            index >= self@.len() ==> res == Err::<&str, CsvError>(CsvError::MissingField { index }),
    {
        match record_get(&self.record, index) {
            Some(f) => Ok(f),
            None => Err(CsvError::MissingField { index }),
        }
    }

    /// Number of fields in this row.
    pub fn len(&self) -> (n: usize)
        ensures
            n == self@.len(),
    {
        record_len(&self.record)
    }

    /// Whether this row has zero fields.
    pub fn is_empty(&self) -> (b: bool)
        ensures
            b <==> self@.len() == 0,
    {
        record_is_empty(&self.record)
    }

    /// All fields as string slices, in order.
    pub fn fields(&self) -> (v: Vec<&str>)
        ensures
            v@.len() == self@.len(),
            forall|i: int| 0 <= i < v@.len() ==> #[trigger] v@[i]@ == self@[i],
    {
        record_iter(&self.record)
    }

    /// All fields as owned strings, in order.
    pub fn to_vec(&self) -> (v: Vec<String>)
        ensures
            v@.len() == self@.len(),
            forall|i: int| 0 <= i < v@.len() ==> #[trigger] v@[i]@ == self@[i],
    {
        let fields = self.fields();
        let mut out: Vec<String> = Vec::new();
        let n = fields.len();
        for i in 0..n
            invariant
                n == fields@.len(),
                fields@.len() == self@.len(),
                forall|j: int| 0 <= j < n ==> #[trigger] fields@[j]@ == self@[j],
                out@.len() == i,
                forall|j: int| 0 <= j < i ==> #[trigger] out@[j]@ == self@[j],
        {
            out.push(fields[i].to_owned());
        }
        out
    }
}

} // verus!
