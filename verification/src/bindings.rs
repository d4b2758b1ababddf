//! Trusted declarations for the parts of the `csv` crate and of std that the
//! library calls. Each function here is taken on its contract; the contracts
//! restate what the called code does, as its source and documentation show.

use vstd::prelude::*;

verus! {

// ---------------------------------------------------------------------------
// Outside types
// ---------------------------------------------------------------------------

/// `csv::StringRecord`: one record, a sequence of UTF-8 fields.
#[verifier::external_type_specification]
#[verifier::external_body]
pub struct ExStringRecord(csv::StringRecord);

/// `csv::Error`: an error from reading or writing CSV data.
#[verifier::external_type_specification]
#[verifier::external_body]
pub struct ExCsvError(csv::Error);

/// `csv::ReaderBuilder`: settings for building a CSV reader.
#[verifier::external_type_specification]
#[verifier::external_body]
pub struct ExReaderBuilder(csv::ReaderBuilder);

/// `csv::Reader`: a CSV parser over a byte source.
#[verifier::external_type_specification]
#[verifier::external_body]
#[verifier::reject_recursive_types(R)]
pub struct ExReader<R>(csv::Reader<R>);

/// `csv::WriterBuilder`: settings for building a CSV writer.
#[verifier::external_type_specification]
#[verifier::external_body]
pub struct ExWriterBuilder(csv::WriterBuilder);

/// A `csv::Writer` into a vector of bytes. Verus cannot declare
/// `csv::Writer` itself (its bound `std::io::Write` is unknown to Verus), so
/// the writer is held here, out of Verus's sight, and reached only through
/// the functions below.
#[verifier::external_body]
pub struct VecWriter {
    inner: csv::Writer<Vec<u8>>,
}

/// `std::string::FromUtf8Error`.
#[verifier::external_type_specification]
#[verifier::external_body]
pub struct ExFromUtf8Error(std::string::FromUtf8Error);

/// `std::io::Error`.
#[verifier::external_type_specification]
#[verifier::external_body]
pub struct ExIoError(std::io::Error);

// ---------------------------------------------------------------------------
// csv::StringRecord
// ---------------------------------------------------------------------------

/// The fields that a `csv::StringRecord` holds, in order.
pub uninterp spec fn record_fields(r: csv::StringRecord) -> Seq<Seq<char>>;

/// `csv::StringRecord::new`: a record with no fields.
#[verifier::external_body]
pub(crate) fn new_record() -> (r: csv::StringRecord)
    ensures
        record_fields(r) == Seq::<Seq<char>>::empty(),
{
    csv::StringRecord::new()
}

/// `csv::StringRecord::get`: the field at index `i`, or `None` when the
/// record has no field there.
#[verifier::external_body]
pub(crate) fn record_get(r: &csv::StringRecord, i: usize) -> (res: Option<&str>)
    ensures
        res is Some <==> i < record_fields(*r).len(),
        res matches Some(f) ==> f@ == record_fields(*r)[i as int],
{
    r.get(i)
}

/// `csv::StringRecord::len`: the number of fields.
#[verifier::external_body]
pub(crate) fn record_len(r: &csv::StringRecord) -> (n: usize)
    ensures
        n == record_fields(*r).len(),
{
    r.len()
}

/// `csv::StringRecord::is_empty`: whether the record has no fields.
#[verifier::external_body]
pub(crate) fn record_is_empty(r: &csv::StringRecord) -> (b: bool)
    ensures
        b <==> record_fields(*r).len() == 0,
{
    r.is_empty()
}

/// `csv::StringRecord::iter`: the fields in order, handed out as string
/// slices and gathered into a vector.
#[verifier::external_body]
pub(crate) fn record_iter(r: &csv::StringRecord) -> (v: Vec<&str>)
    ensures
        v@.len() == record_fields(*r).len(),
        forall|i: int| 0 <= i < v@.len() ==> #[trigger] v@[i]@ == record_fields(*r)[i],
{
    r.iter().collect()
}

/// `csv::StringRecord::push_field`: appends one field.
#[verifier::external_body]
pub(crate) fn record_push_field(r: &mut csv::StringRecord, field: &str)
    ensures
        record_fields(*final(r)) == record_fields(*old(r)).push(field@),
{
    r.push_field(field);
}

/// `Clone` for `csv::StringRecord`: a record with the same fields.
pub assume_specification[ <csv::StringRecord as Clone>::clone ](r: &csv::StringRecord) -> (res: csv::StringRecord)
    ensures
        record_fields(res) == record_fields(*r),
;


// ---------------------------------------------------------------------------
// csv::ReaderBuilder and csv::Reader
// ---------------------------------------------------------------------------

/// The three settings of a `csv::ReaderBuilder` that this library sets:
/// `(has_headers, delimiter, flexible)`.
pub uninterp spec fn reader_builder_settings(b: csv::ReaderBuilder) -> (bool, u8, bool);

/// How a `csv::ReaderBuilder` trims whitespace (`csv::Trim`).
pub enum TrimSetting {
    /// `Trim::None`.
    Nothing,
    /// `Trim::Headers`.
    Headers,
    /// `Trim::Fields`.
    Fields,
    /// `Trim::All`.
    All,
}

/// The settings of a `csv::ReaderBuilder` other than `has_headers`,
/// `delimiter` and `flexible`.
pub struct ReaderExtraSettings {
    /// The record terminator: `None` for `Terminator::CRLF`, `Some(b)` for
    /// `Terminator::Any(b)`.
    pub terminator: Option<u8>,
    /// The quote byte.
    pub quote: u8,
    /// The escape byte, if any.
    pub escape: Option<u8>,
    /// Whether doubled quotes are read as one quote.
    pub double_quote: bool,
    /// The comment byte, if any.
    pub comment: Option<u8>,
    /// Whether quotes are treated specially.
    pub quoting: bool,
    /// Whether the NFA parser is used.
    pub nfa: bool,
    /// How whitespace is trimmed.
    pub trim: TrimSetting,
    /// The buffer capacity in bytes.
    pub capacity: usize,
}

/// The default values of those settings, as `csv::ReaderBuilder::new`
/// (`Default`, and `csv_core::Reader::default`) sets them.
pub open spec fn default_reader_extras() -> ReaderExtraSettings {
    ReaderExtraSettings {
        terminator: None,
        quote: 34,
        escape: None,
        double_quote: true,
        comment: None,
        quoting: true,
        nfa: false,
        trim: TrimSetting::Nothing,
        capacity: 8192,
    }
}

/// The settings of a `csv::ReaderBuilder` other than the three this library
/// sets.
pub uninterp spec fn reader_builder_extras(b: csv::ReaderBuilder) -> ReaderExtraSettings;

/// What `csv::Reader::read_record` yields, call after call, for a reader built
/// with the default settings except `has_headers`, `delimiter` and `flexible`
/// over the bytes `data`: the records returned before the first call that
/// fails, and whether such a failing call follows them (rather than the end
/// of the data). With `has_headers`, the first record of the data is the
/// header row and is not among the records returned.
pub uninterp spec fn csv_parse(data: Seq<u8>, has_headers: bool, delimiter: u8, flexible: bool) -> (
    Seq<Seq<Seq<char>>>,
    bool,
);

/// Every record has as many fields as the first.
pub open spec fn uniform_width(recs: Seq<Seq<Seq<char>>>) -> bool {
    forall|i: int| 0 <= i < recs.len() ==> #[trigger] recs[i].len() == recs[0].len()
}

/// A reading outcome less its first record, when it has one.
pub open spec fn drop_first_record(p: (Seq<Seq<Seq<char>>>, bool)) -> (Seq<Seq<Seq<char>>>, bool) {
    if p.0.len() > 0 {
        (p.0.drop_first(), p.1)
    } else {
        p
    }
}

/// What the remaining calls of `csv::Reader::read_record` on this reader
/// yield: the records returned before the first call that fails, and whether
/// such a failing call follows them.
pub uninterp spec fn reader_pending(r: csv::Reader<&[u8]>) -> (Seq<Seq<Seq<char>>>, bool);

/// `csv::ReaderBuilder::new`: headers on, comma delimiter, strict field
/// counts, every other setting at its default.
#[verifier::external_body]
pub(crate) fn new_reader_builder() -> (b: csv::ReaderBuilder)
    ensures
        reader_builder_settings(b) == (true, 44u8, false),
        reader_builder_extras(b) == default_reader_extras(),
{
    csv::ReaderBuilder::new()
}

/// `csv::ReaderBuilder::has_headers`: changes the header setting only.
#[verifier::external_body]
pub(crate) fn reader_builder_has_headers(b: &mut csv::ReaderBuilder, yes: bool)
    ensures
        reader_builder_settings(*final(b)) == (yes, reader_builder_settings(*old(b)).1, reader_builder_settings(*old(b)).2),
        reader_builder_extras(*final(b)) == reader_builder_extras(*old(b)),
{
    b.has_headers(yes);
}

/// `csv::ReaderBuilder::delimiter`: changes the delimiter only.
#[verifier::external_body]
pub(crate) fn reader_builder_delimiter(b: &mut csv::ReaderBuilder, delimiter: u8)
    ensures
        reader_builder_settings(*final(b)) == (reader_builder_settings(*old(b)).0, delimiter, reader_builder_settings(*old(b)).2),
        reader_builder_extras(*final(b)) == reader_builder_extras(*old(b)),
{
    b.delimiter(delimiter);
}

/// `csv::ReaderBuilder::flexible`: changes the field-count setting only.
#[verifier::external_body]
pub(crate) fn reader_builder_flexible(b: &mut csv::ReaderBuilder, yes: bool)
    ensures
        reader_builder_settings(*final(b)) == (reader_builder_settings(*old(b)).0, reader_builder_settings(*old(b)).1, yes),
        reader_builder_extras(*final(b)) == reader_builder_extras(*old(b)),
{
    b.flexible(yes);
}

/// `csv::ReaderBuilder::from_reader`: a reader over `data` that parses it
/// with the builder's settings.
///
/// With `has_headers`, the reader takes the first record as the header row
/// and never returns it (as `read_record`'s documentation states); the
/// records after it are read and checked exactly as without headers, the
/// first record still setting the expected field count. Only the header row
/// itself is not checked for valid UTF-8, so when reading without headers
/// fails on the very first record, nothing is stated of reading with them.
///
/// Without `flexible` (strict field counts), a record whose number of
/// fields differs from the first record's (the header row, with headers) is
/// an error, so the records returned before a failure all have the first
/// record's width, with or without headers.
#[verifier::external_body]
pub(crate) fn reader_from_bytes<'a>(b: &csv::ReaderBuilder, data: &'a [u8]) -> (r: csv::Reader<&'a [u8]>)
    requires
        reader_builder_extras(*b) == default_reader_extras(),
    ensures
        ({
            let (h, d, f) = reader_builder_settings(*b);
            reader_pending(r) == csv_parse(data@, h, d, f)
        }),
        ({
            let (h, d, f) = reader_builder_settings(*b);
            let plain = csv_parse(data@, false, d, f);
            (h && (plain.0.len() > 0 || !plain.1)) ==> reader_pending(r) == drop_first_record(plain)
        }),
        ({
            let (h, d, f) = reader_builder_settings(*b);
            let plain = csv_parse(data@, false, d, f);
            !f ==> uniform_width(reader_pending(r).0)
        }),
        ({
            let (h, d, f) = reader_builder_settings(*b);
            let plain = csv_parse(data@, false, d, f);
            (!f && h && plain.0.len() > 0) ==> forall|i: int|
                0 <= i < reader_pending(r).0.len() ==> #[trigger] reader_pending(r).0[i].len() == plain.0[0].len()
        }),
{
    b.from_reader(data)
}

/// `csv::Reader::read_record`: reads the next record into `rec`. It returns
/// `Ok(true)` with the next record, `Ok(false)` at the end of the data, or
/// an error. After an error nothing is stated of the reader or the record.
#[verifier::external_body]
pub(crate) fn reader_read_record(r: &mut csv::Reader<&[u8]>, rec: &mut csv::StringRecord) -> (res: Result<bool, csv::Error>)
    ensures
        ({
            let (recs, fails) = reader_pending(*old(r));
            &&& recs.len() > 0 ==> {
                &&& res == Ok::<bool, csv::Error>(true)
                &&& record_fields(*final(rec)) == recs[0]
                &&& reader_pending(*final(r)) == (recs.drop_first(), fails)
            }
            &&& (recs.len() == 0 && !fails) ==> {
                &&& res == Ok::<bool, csv::Error>(false)
                &&& reader_pending(*final(r)) == (recs, fails)
            }
            &&& (recs.len() == 0 && fails) ==> res is Err
        }),
{
    r.read_record(rec)
}


// ---------------------------------------------------------------------------
// csv::WriterBuilder and csv::Writer
// ---------------------------------------------------------------------------

/// The delimiter of a `csv::WriterBuilder`: `Some(delimiter)` when every
/// other setting of the builder still has its default value, `None`
/// otherwise.
pub uninterp spec fn writer_builder_delimiter(b: csv::WriterBuilder) -> Option<u8>;

/// Whether a field's bytes need quotes in a writer with the default
/// settings (`QuoteStyle::Necessary`) and the given delimiter: when they
/// hold the delimiter, a quote, `\r` or `\n`.
pub open spec fn field_needs_quotes(f: Seq<u8>, delimiter: u8) -> bool {
    exists|i: int| 0 <= i < f.len() && (f[i] == delimiter || f[i] == 34u8 || f[i] == 13u8 || f[i] == 10u8)
}

/// The characters of a field with each quote doubled.
pub open spec fn double_quotes(f: Seq<char>) -> Seq<char>
    decreases f.len(),
{
    if f.len() == 0 {
        Seq::empty()
    } else {
        (if f[0] == '"' {
            seq!['"', '"']
        } else {
            seq![f[0]]
        }) + double_quotes(f.drop_first())
    }
}

/// The bytes written for one field: its UTF-8 bytes, or, when they need
/// quotes, the field with its quotes doubled between two quotes.
pub open spec fn encode_field(f: Seq<char>, delimiter: u8) -> Seq<u8> {
    if field_needs_quotes(vstd::utf8::encode_utf8(f), delimiter) {
        seq![34u8] + vstd::utf8::encode_utf8(double_quotes(f)) + seq![34u8]
    } else {
        vstd::utf8::encode_utf8(f)
    }
}

/// The written fields of a record joined by the delimiter.
pub open spec fn join_fields(fields: Seq<Seq<char>>, delimiter: u8) -> Seq<u8>
    decreases fields.len(),
{
    if fields.len() == 0 {
        Seq::empty()
    } else if fields.len() == 1 {
        encode_field(fields[0], delimiter)
    } else {
        join_fields(fields.drop_last(), delimiter) + seq![delimiter] + encode_field(fields.last(), delimiter)
    }
}

/// The bytes that `csv::Writer::write_record` emits for one record, for a
/// writer with the default settings except its delimiter: the joined fields
/// (or `""` when they give no byte at all, that is for no field or one empty
/// field), then the terminator `\n`.
pub open spec fn csv_encode_record(fields: Seq<Seq<char>>, delimiter: u8) -> Seq<u8> {
    let body = join_fields(fields, delimiter);
    (if body.len() == 0 {
        seq![34u8, 34u8]
    } else {
        body
    }) + seq![10u8]
}

/// The bytes a writer into a vector has accepted so far: the vector's
/// contents followed by what the writer still holds in its buffer.
pub uninterp spec fn writer_output(w: VecWriter) -> Seq<u8>;

/// The number of fields of the first record a writer has written, `None`
/// before any record.
pub uninterp spec fn writer_width(w: VecWriter) -> Option<nat>;

/// The delimiter of a writer: `Some(delimiter)` when every other setting of
/// the writer has its default value, `None` otherwise.
pub uninterp spec fn writer_delimiter(w: VecWriter) -> Option<u8>;

/// `csv::WriterBuilder::new`: comma delimiter, every other setting at its
/// default.
#[verifier::external_body]
pub(crate) fn new_writer_builder() -> (b: csv::WriterBuilder)
    ensures
        writer_builder_delimiter(b) == Some(44u8),
{
    csv::WriterBuilder::new()
}

/// `csv::WriterBuilder::delimiter`: changes the delimiter only.
#[verifier::external_body]
pub(crate) fn writer_builder_set_delimiter(b: &mut csv::WriterBuilder, delimiter: u8)
    ensures
        writer_builder_delimiter(*final(b)) == (match writer_builder_delimiter(*old(b)) {
            Some(_) => Some(delimiter),
            None => None,
        }),
{
    b.delimiter(delimiter);
}

/// `csv::WriterBuilder::from_writer`, into a new empty vector: a writer that
/// has written nothing yet, with the builder's settings.
#[verifier::external_body]
pub(crate) fn writer_into_vec(b: &csv::WriterBuilder) -> (w: VecWriter)
    ensures
        writer_output(w) == Seq::<u8>::empty(),
        writer_width(w) == None::<nat>,
        writer_delimiter(w) == writer_builder_delimiter(*b),
{
    VecWriter { inner: b.from_writer(Vec::new()) }
}

/// `csv::Writer::write_record` with the fields of `fields`. With the default
/// (strict) field counts, a record whose number of fields differs from the
/// first record's is refused with an error; otherwise its encoding
/// (`csv_encode_record`) is appended. Writing into a vector does not fail otherwise: the writer's
/// buffer is flushed into the vector, whose writes always succeed. After an
/// error nothing is stated of the writer.
#[verifier::external_body]
pub(crate) fn writer_write_record(w: &mut VecWriter, fields: &Vec<String>) -> (res: Result<(), csv::Error>)
    requires
        writer_delimiter(*old(w)) is Some,
    ensures
        ({
            let n = fields@.len();
            let values = fields@.map_values(|f: String| f@);
            match writer_width(*old(w)) {
                Some(m) if m != n => res is Err,
                _ => {
                    &&& res is Ok
                    &&& writer_output(*final(w)) == writer_output(*old(w)) + csv_encode_record(
                        values,
                        writer_delimiter(*old(w)).unwrap(),
                    )
                    &&& writer_width(*final(w)) == Some(n)
                    &&& writer_delimiter(*final(w)) == writer_delimiter(*old(w))
                },
            }
        }),
{
    w.inner.write_record(fields)
}

/// `csv::Writer::into_inner` for a writer into a vector: flushes the buffer
/// and hands back the vector, which then holds every byte the writer
/// accepted. Flushing into a vector does not fail. The error of a failed
/// flush would be handed on as the I/O error it carries
/// (`csv::IntoInnerError::into_error`).
#[verifier::external_body]
pub(crate) fn writer_into_inner(w: VecWriter) -> (res: Result<Vec<u8>, std::io::Error>)
    ensures
        res is Ok,
        res.unwrap()@ == writer_output(w),
{
    match w.inner.into_inner() {
        Ok(v) => Ok(v),
        Err(e) => Err(e.into_error()),
    }
}

// ---------------------------------------------------------------------------
// std
// ---------------------------------------------------------------------------

/// `String::from_utf8`: the text the bytes encode when they are valid
/// UTF-8, an error otherwise.
#[verifier::external_body]
pub(crate) fn string_from_utf8(v: Vec<u8>) -> (res: Result<String, std::string::FromUtf8Error>)
    ensures
        res is Ok <==> vstd::utf8::valid_utf8(v@),
        res matches Ok(s) ==> s@ == vstd::utf8::decode_utf8(v@),
{
    String::from_utf8(v)
}

/// `String::push`: appends one character.
#[verifier::external_body]
pub(crate) fn string_push(s: &mut String, c: char)
    ensures
        final(s)@ == old(s)@.push(c),
{
    s.push(c);
}

} // verus!
