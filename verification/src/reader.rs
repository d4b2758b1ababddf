//! Reading CSV data into rows.

use vstd::prelude::*;

use crate::bindings::{
    csv_parse, drop_first_record, new_record, uniform_width, new_reader_builder, reader_builder_delimiter, reader_builder_flexible,
    reader_builder_has_headers, reader_builder_settings, reader_builder_extras, default_reader_extras, reader_from_bytes, reader_pending,
    reader_read_record,
};
use crate::error::CsvError;
use crate::row::{rows_view, Row};

verus! {

/// The ASCII comma, the default field delimiter.
pub const COMMA: u8 = 44;

/// Configuration for reading CSV data.
#[derive(Debug)]
pub struct ReaderConfig {
    has_headers: bool,
    delimiter: u8,
    flexible: bool,
}

impl ReaderConfig {
    /// Whether the first record is a header row (not returned as data).
    pub closed spec fn spec_has_headers(&self) -> bool {
        self.has_headers
    }

    /// The field delimiter byte.
    pub closed spec fn spec_delimiter(&self) -> u8 {
        self.delimiter
    }

    /// Whether records may have varying numbers of fields.
    pub closed spec fn spec_flexible(&self) -> bool {
        self.flexible
    }

    /// This configuration with the header setting replaced.
    pub closed spec fn spec_with_headers(self, v: bool) -> ReaderConfig {
        ReaderConfig { has_headers: v, ..self }
    }

    /// Default config: headers enabled, comma delimiter, strict column count.
    pub fn new() -> (c: Self)
        ensures
            c.spec_has_headers(),
            c.spec_delimiter() == COMMA,
            !c.spec_flexible(),
    {
        ReaderConfig { has_headers: true, delimiter: COMMA, flexible: false }
    }

    /// Set whether the first row is a header.
    pub fn has_headers(self, v: bool) -> (c: Self)
        ensures
            c.spec_has_headers() == v,
            c.spec_delimiter() == self.spec_delimiter(),
            c.spec_flexible() == self.spec_flexible(),
    {
        ReaderConfig { has_headers: v, ..self }
    }

    /// Set the field delimiter byte.
    pub fn delimiter(self, d: u8) -> (c: Self)
        ensures
            c.spec_has_headers() == self.spec_has_headers(),
            c.spec_delimiter() == d,
            c.spec_flexible() == self.spec_flexible(),
    {
        ReaderConfig { delimiter: d, ..self }
    }

    /// Allow rows with varying numbers of fields.
    pub fn flexible(self, v: bool) -> (c: Self)
        ensures
            c.spec_has_headers() == self.spec_has_headers(),
            c.spec_delimiter() == self.spec_delimiter(),
            c.spec_flexible() == v,
    {
        ReaderConfig { flexible: v, ..self }
    }

    /// Whether the first row is a header.
    pub fn headers_enabled(&self) -> (b: bool)
        ensures
            b == self.spec_has_headers(),
    {
        self.has_headers
    }

    /// The field delimiter byte.
    pub fn delimiter_byte(&self) -> (d: u8)
        ensures
            d == self.spec_delimiter(),
    {
        self.delimiter
    }

    /// Whether records may have varying numbers of fields.
    pub fn is_flexible(&self) -> (b: bool)
        ensures
            b == self.spec_flexible(),
    {
        self.flexible
    }
}

impl ReaderConfig {
    /// A `csv::ReaderBuilder` carrying this configuration.
    fn to_csv_builder(&self) -> (b: csv::ReaderBuilder)
        ensures
            reader_builder_settings(b) == (self.spec_has_headers(), self.spec_delimiter(), self.spec_flexible()),
            reader_builder_extras(b) == default_reader_extras(),
    {
        let builder = new_reader_builder();
        build_csv_reader(builder, self.has_headers, self.delimiter, self.flexible)
    }
}

/// Configure a `csv::ReaderBuilder` with the three settings of this library,
/// keeping every other setting it has.
fn build_csv_reader(builder: csv::ReaderBuilder, has_headers: bool, delimiter: u8, flexible: bool) -> (b: csv::ReaderBuilder)
    ensures
        reader_builder_settings(b) == (has_headers, delimiter, flexible),
        reader_builder_extras(b) == reader_builder_extras(builder),
{
    let mut b = builder;
    reader_builder_has_headers(&mut b, has_headers);
    reader_builder_delimiter(&mut b, delimiter);
    reader_builder_flexible(&mut b, flexible);
    b
}

/// What the `csv` crate reads from `data` under `config`: the records before
/// the first failure, and whether a failure follows them.
pub open spec fn parsed(data: Seq<u8>, config: ReaderConfig) -> (Seq<Seq<Seq<char>>>, bool) {
    csv_parse(data, config.spec_has_headers(), config.spec_delimiter(), config.spec_flexible())
}

/// Reading under a configuration parses with exactly its three settings:
/// the header setting, the configured delimiter and the configured
/// field-count setting, each whatever the others are.
pub proof fn lemma_read_uses_every_setting(data: Seq<u8>, config: ReaderConfig)
    ensures
        parsed(data, config) == csv_parse(data, config.spec_has_headers(), config.spec_delimiter(), config.spec_flexible()),
        parsed(data, config.spec_with_headers(false)) == csv_parse(data, false, config.spec_delimiter(), config.spec_flexible()),
        parsed(data, config.spec_with_headers(true)) == csv_parse(data, true, config.spec_delimiter(), config.spec_flexible()),
{
}

/// Read the remaining records of a reader as rows.
///
/// The result is the records in order when the reader yields them all, and
/// the reader's first error otherwise.
pub fn collect_rows(source: csv::Reader<&[u8]>) -> (res: Result<Vec<Row>, CsvError>)
    ensures
        res is Ok <==> !reader_pending(source).1,
        res matches Ok(rows) ==> rows_view(rows@) == reader_pending(source).0,
        res matches Err(e) ==> e is Csv,
{
    let ghost start = reader_pending(source);
    let mut reader = source;
    let mut rows: Vec<Row> = Vec::new();
    loop
        invariant
            start == reader_pending(source),
            rows_view(rows@) + reader_pending(reader).0 == start.0,
            reader_pending(reader).1 == start.1,
        decreases reader_pending(reader).0.len(),
    {
        let ghost before = reader_pending(reader);
        let mut rec = new_record();
        match reader_read_record(&mut reader, &mut rec) {
            Ok(true) => {
                let ghost old_rows = rows@;
                let row = Row::from_record(rec);
                rows.push(row);
                assert(rows_view(rows@) =~= rows_view(old_rows).push(row@));
                assert(before.0 =~= seq![row@] + reader_pending(reader).0);
            },
            Ok(false) => {
                assert(reader_pending(reader).0 =~= Seq::<Seq<Seq<char>>>::empty());
                return Ok(rows);
            },
            Err(e) => {
                return Err(CsvError::from(e));
            },
        }
    }
}

/// Read every record of `data` as a row.
///
/// The result is the records in order when the `csv` crate reads them all,
/// and the `csv` crate's first error otherwise. With headers on, the first
/// record is the header row: the outcome is that of reading without
/// headers, less the first record (unless that first record itself fails
/// to read without headers).
pub fn from_bytes(data: &[u8], config: ReaderConfig) -> (res: Result<Vec<Row>, CsvError>)
    ensures
        res is Ok <==> !csv_parse(data@, config.spec_has_headers(), config.spec_delimiter(), config.spec_flexible()).1,
        res matches Ok(rows) ==> rows@.len() == csv_parse(
            data@,
            config.spec_has_headers(),
            config.spec_delimiter(),
            config.spec_flexible(),
        ).0.len(),
        res matches Ok(rows) ==> forall|i: int|
            0 <= i < rows@.len() ==> #[trigger] rows@[i]@ == csv_parse(
                data@,
                config.spec_has_headers(),
                config.spec_delimiter(),
                config.spec_flexible(),
            ).0[i],
        res is Ok <==> !parsed(data@, config).1,
        res matches Ok(rows) ==> rows_view(rows@) == parsed(data@, config).0,
        res matches Err(e) ==> e is Csv,
        ({
            let plain = csv_parse(data@, false, config.spec_delimiter(), config.spec_flexible());
            (config.spec_has_headers() && (plain.0.len() > 0 || !plain.1)) ==> parsed(data@, config)
                == drop_first_record(plain)
        }),
        !config.spec_flexible() ==> (res matches Ok(rows) ==> uniform_width(rows_view(rows@))),
        ({
            let plain = csv_parse(data@, false, config.spec_delimiter(), config.spec_flexible());
            (!config.spec_flexible() && config.spec_has_headers() && plain.0.len() > 0) ==> (res matches Ok(rows)
                ==> forall|i: int| 0 <= i < rows@.len() ==> #[trigger] rows@[i]@.len() == plain.0[0].len())
        }),
{
    let builder = config.to_csv_builder();
    let reader = reader_from_bytes(&builder, data);
    let ghost pending = reader_pending(reader);
    let res = collect_rows(reader);
    proof {
        if res is Ok {
            let rows = res->Ok_0;
            assert forall|i: int| 0 <= i < rows@.len() implies #[trigger] rows@[i]@.len() == pending.0[i].len() by {
                assert(rows_view(rows@)[i] == rows@[i]@);
            }
        }
    }
    res
}

/// Read every record of the text `data` as a row (see `from_bytes`).
pub fn from_str(data: &str, config: ReaderConfig) -> (res: Result<Vec<Row>, CsvError>)
    ensures
        res is Ok <==> !csv_parse(vstd::utf8::encode_utf8(data@), config.spec_has_headers(), config.spec_delimiter(), config.spec_flexible()).1,
        res matches Ok(rows) ==> rows@.len() == csv_parse(
            vstd::utf8::encode_utf8(data@),
            config.spec_has_headers(),
            config.spec_delimiter(),
            config.spec_flexible(),
        ).0.len(),
        res matches Ok(rows) ==> forall|i: int|
            0 <= i < rows@.len() ==> #[trigger] rows@[i]@ == csv_parse(
                vstd::utf8::encode_utf8(data@),
                config.spec_has_headers(),
                config.spec_delimiter(),
                config.spec_flexible(),
            ).0[i],
        res is Ok <==> !parsed(vstd::utf8::encode_utf8(data@), config).1,
        res matches Ok(rows) ==> rows_view(rows@) == parsed(vstd::utf8::encode_utf8(data@), config).0,
        res matches Err(e) ==> e is Csv,
        ({
            let plain = csv_parse(vstd::utf8::encode_utf8(data@), false, config.spec_delimiter(), config.spec_flexible());
            (config.spec_has_headers() && (plain.0.len() > 0 || !plain.1)) ==> parsed(
                vstd::utf8::encode_utf8(data@),
                config,
            ) == drop_first_record(plain)
        }),
        !config.spec_flexible() ==> (res matches Ok(rows) ==> uniform_width(rows_view(rows@))),
        ({
            let plain = csv_parse(vstd::utf8::encode_utf8(data@), false, config.spec_delimiter(), config.spec_flexible());
            (!config.spec_flexible() && config.spec_has_headers() && plain.0.len() > 0) ==> (res matches Ok(rows)
                ==> forall|i: int| 0 <= i < rows@.len() ==> #[trigger] rows@[i]@.len() == plain.0[0].len())
        }),
{
    from_bytes(data.as_bytes(), config)
}

impl Clone for ReaderConfig {
    fn clone(&self) -> (c: Self)
        ensures
            c == *self,
    {
        ReaderConfig { has_headers: self.has_headers, delimiter: self.delimiter, flexible: self.flexible }
    }
}

impl Default for ReaderConfig {
    fn default() -> (c: Self)
        ensures
            c.spec_has_headers(),
            c.spec_delimiter() == COMMA,
            !c.spec_flexible(),
    {
        ReaderConfig::new()
    }
}

} // verus!
