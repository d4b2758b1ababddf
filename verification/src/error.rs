//! The library's error type.

use vstd::prelude::*;
use vstd::string::{to_string_from_display_ensures, StringExecFns};

use crate::bindings::string_push;

verus! {

/// All errors of this library.
#[derive(Debug)]
pub enum CsvError {
    /// An error from the `csv` crate.
    Csv(csv::Error),
    /// An I/O error.
    Io(std::io::Error),
    /// A field was missing or could not be accessed.
    MissingField { index: usize },
    /// Conversion of CSV data into a typed or textual value failed.
    Deserialize(String),
}

/// The character of the decimal digit `d`.
pub open spec fn digit_char(d: nat) -> char {
    (48 + d) as char
}

/// The decimal notation of `n`, most significant digit first, without
/// leading zeros.
pub open spec fn decimal(n: nat) -> Seq<char>
    decreases n,
{
    if n < 10 {
        seq![digit_char(n)]
    } else {
        decimal(n / 10).push(digit_char(n % 10))
    }
}

/// The character of a decimal digit.
fn digit(d: usize) -> (c: char)
    requires
        d < 10,
    ensures
        c == digit_char(d as nat),
{
    let b: u8 = 48u8 + d as u8;
    b as char
}

/// Append the decimal notation of `n` to `s`.
fn push_decimal(s: &mut String, n: usize)
    ensures
        final(s)@ == old(s)@ + decimal(n as nat),
    decreases n,
{
    if n >= 10 {
        push_decimal(s, n / 10);
    }
    let c = digit(n % 10);
    string_push(s, c);
    proof {
        if n >= 10 {
            assert(decimal(n as nat) == decimal((n / 10) as nat).push(digit_char((n % 10) as nat)));
        }
    }
}

/// The message for an error of the `csv` crate: `CSV error: ` and the
/// error's own text.
pub fn csv_error_message(e: &csv::Error) -> (s: String)
    ensures
        exists|t: String| #[trigger] to_string_from_display_ensures::<csv::Error>(e, t) && s@ == "CSV error: "@ + t@,
{
    let t = e.to_string();
    let mut s = "CSV error: ".to_owned();
    s.append(t.as_str());
    s
}

/// The message for an I/O error: `IO error: ` and the error's own text.
pub fn io_error_message(e: &std::io::Error) -> (s: String)
    ensures
        exists|t: String| #[trigger] to_string_from_display_ensures::<std::io::Error>(e, t) && s@ == "IO error: "@ + t@,
{
    let t = e.to_string();
    let mut s = "IO error: ".to_owned();
    s.append(t.as_str());
    s
}

/// The message for a missing field: `missing field at index ` and the index
/// in decimal.
pub fn missing_field_message(index: usize) -> (s: String)
    ensures
        s@ == "missing field at index "@ + decimal(index as nat),
{
    let mut s = "missing field at index ".to_owned();
    push_decimal(&mut s, index);
    s
}

/// The message for a failed conversion: `deserialization error: ` and the
/// reason.
pub fn deserialize_message(msg: &str) -> (s: String)
    ensures
        s@ == "deserialization error: "@ + msg@,
{
    let mut s = "deserialization error: ".to_owned();
    s.append(msg);
    s
}

impl CsvError {
    /// The message that describes this error.
    pub fn message(&self) -> (s: String)
        ensures
            self matches CsvError::Csv(e) ==> exists|t: String|
                #[trigger] to_string_from_display_ensures::<csv::Error>(&e, t) && s@ == "CSV error: "@ + t@,
            self matches CsvError::Io(e) ==> exists|t: String|
                #[trigger] to_string_from_display_ensures::<std::io::Error>(&e, t) && s@ == "IO error: "@ + t@,
            self matches CsvError::MissingField { index } ==> s@ == "missing field at index "@ + decimal(index as nat),
            self matches CsvError::Deserialize(msg) ==> s@ == "deserialization error: "@ + msg@,
    {
        match self {
            CsvError::Csv(e) => csv_error_message(e),
            CsvError::Io(e) => io_error_message(e),
            CsvError::MissingField { index } => missing_field_message(*index),
            CsvError::Deserialize(msg) => deserialize_message(msg.as_str()),
        }
    }
}

impl From<csv::Error> for CsvError {
    fn from(e: csv::Error) -> (r: Self) {
        CsvError::Csv(e)
    }
}

impl vstd::std_specs::convert::FromSpecImpl<csv::Error> for CsvError {
    open spec fn obeys_from_spec() -> bool {
        true
    }

    open spec fn from_spec(v: csv::Error) -> Self {
        CsvError::Csv(v)
    }
}

impl From<std::io::Error> for CsvError {
    fn from(e: std::io::Error) -> (r: Self) {
        CsvError::Io(e)
    }
}

impl vstd::std_specs::convert::FromSpecImpl<std::io::Error> for CsvError {
    open spec fn obeys_from_spec() -> bool {
        true
    }

    open spec fn from_spec(v: std::io::Error) -> Self {
        CsvError::Io(v)
    }
}

} // verus!
