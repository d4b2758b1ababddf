//! Writing rows as CSV data.

use vstd::prelude::*;
use vstd::utf8::{encode_utf8, encode_utf8_valid_utf8, valid_utf8, valid_utf8_concat};

use crate::bindings::{
    csv_encode_record, encode_field, uniform_width, join_fields, new_writer_builder, string_from_utf8, writer_builder_delimiter,
    writer_builder_set_delimiter, writer_delimiter, writer_into_inner, writer_into_vec,
    writer_output, writer_width, writer_write_record, VecWriter,
};
use crate::error::CsvError;
use crate::reader::COMMA;
use crate::row::{rows_view, Row};

verus! {

/// Configuration for writing CSV data.
#[derive(Debug, Clone, Copy)]
pub struct WriterConfig {
    delimiter: u8,
    has_headers: bool,
}

impl WriterConfig {
    /// The field delimiter byte.
    pub closed spec fn spec_delimiter(&self) -> u8 {
        self.delimiter
    }

    /// Whether a header row is written: a header row handed over is written
    /// first when this is on, and skipped when it is off.
    pub closed spec fn spec_has_headers(&self) -> bool {
        self.has_headers
    }

    /// Default config: comma delimiter, headers enabled.
    pub fn new() -> (c: Self)
        ensures
            c.spec_delimiter() == COMMA,
            c.spec_has_headers(),
    {
        WriterConfig { delimiter: COMMA, has_headers: true }
    }

    /// Set the field delimiter byte.
    pub fn delimiter(self, d: u8) -> (c: Self)
        ensures
            c.spec_delimiter() == d,
            c.spec_has_headers() == self.spec_has_headers(),
    {
        WriterConfig { delimiter: d, ..self }
    }

    /// Set whether to write a header row.
    pub fn has_headers(self, v: bool) -> (c: Self)
        ensures
            c.spec_delimiter() == self.spec_delimiter(),
            c.spec_has_headers() == v,
    {
        WriterConfig { has_headers: v, ..self }
    }

    /// The field delimiter byte.
    pub fn delimiter_byte(&self) -> (d: u8)
        ensures
            d == self.spec_delimiter(),
    {
        self.delimiter
    }

    /// The header setting.
    pub fn headers_enabled(&self) -> (b: bool)
        ensures
            b == self.spec_has_headers(),
    {
        self.has_headers
    }
}

impl Default for WriterConfig {
    fn default() -> (c: Self)
        ensures
            c.spec_delimiter() == COMMA,
            c.spec_has_headers(),
    {
        WriterConfig::new()
    }
}

/// The text of each string, in order.
pub open spec fn strings_view(v: Seq<String>) -> Seq<Seq<char>> {
    v.map_values(|s: String| s@)
}

/// The records written for an optional header row and the rows: the header
/// row first when there is one, then the rows in order.
pub open spec fn output_records(headers: Option<Seq<Seq<char>>>, rows: Seq<Seq<Seq<char>>>) -> Seq<Seq<Seq<char>>> {
    match headers {
        Some(h) => seq![h] + rows,
        None => rows,
    }
}

/// The text of the optional header row.
pub open spec fn headers_view(headers: Option<Vec<String>>) -> Option<Seq<Seq<char>>> {
    match headers {
        Some(h) => Some(strings_view(h@)),
        None => None,
    }
}

/// The header row that is written: the one handed over, when the
/// configuration writes headers.
pub open spec fn written_headers(config: WriterConfig, headers: Option<Vec<String>>) -> Option<Seq<Seq<char>>> {
    if config.spec_has_headers() {
        headers_view(headers)
    } else {
        None
    }
}

/// The encodings of the records, one after the other.
pub open spec fn encode_records(recs: Seq<Seq<Seq<char>>>, delimiter: u8) -> Seq<u8>
    decreases recs.len(),
{
    if recs.len() == 0 {
        Seq::empty()
    } else {
        encode_records(recs.drop_last(), delimiter) + csv_encode_record(recs.last(), delimiter)
    }
}

/// No record gives no byte.
pub proof fn lemma_encode_none(delimiter: u8)
    ensures
        encode_records(Seq::empty(), delimiter) == Seq::<u8>::empty(),
{
}

/// One record gives exactly that record's encoding.
pub proof fn lemma_encode_one(rec: Seq<Seq<char>>, delimiter: u8)
    ensures
        encode_records(seq![rec], delimiter) == csv_encode_record(rec, delimiter),
{
    let one = seq![rec];
    assert(one.drop_last() =~= Seq::<Seq<Seq<char>>>::empty());
    assert(encode_records(one.drop_last(), delimiter) =~= Seq::<u8>::empty());
    assert(encode_records(one, delimiter) =~= csv_encode_record(rec, delimiter));
}

/// Every row handed over is one record written, in order: the records are
/// the header row, when there is one, then each row, none left out,
/// merged or reordered.
pub proof fn lemma_every_row_written(header: Option<Seq<Seq<char>>>, rows: Seq<Seq<Seq<char>>>)
    ensures
        output_records(header, rows).len() == rows.len() + (if header is Some { 1int } else { 0int }),
        header matches Some(h) ==> output_records(header, rows)[0] == h,
        header is None ==> forall|i: int| 0 <= i < rows.len() ==> #[trigger] output_records(header, rows)[i] == rows[i],
        header is Some ==> forall|i: int| 0 <= i < rows.len() ==> output_records(header, rows)[i + 1] == #[trigger] rows[i],
{
}

/// Encoding the records of two parts, one after the other, gives the
/// encoding of the first part followed by that of the second.
pub proof fn lemma_encode_concat(a: Seq<Seq<Seq<char>>>, b: Seq<Seq<Seq<char>>>, delimiter: u8)
    ensures
        encode_records(a + b, delimiter) == encode_records(a, delimiter) + encode_records(b, delimiter),
    decreases b.len(),
{
    if b.len() == 0 {
        assert(a + b =~= a);
        assert(encode_records(a, delimiter) + Seq::<u8>::empty() =~= encode_records(a, delimiter));
    } else {
        lemma_encode_concat(a, b.drop_last(), delimiter);
        assert((a + b).drop_last() =~= a + b.drop_last());
        assert((a + b).last() == b.last());
    }
}

/// With a header row, the output is the header row's encoding followed by
/// exactly the output for the rows alone: the rows are written the same way
/// whether or not a header row comes first.
pub proof fn lemma_header_first(h: Seq<Seq<char>>, rows: Seq<Seq<Seq<char>>>, delimiter: u8)
    ensures
        encode_records(output_records(Some(h), rows), delimiter) == csv_encode_record(h, delimiter)
            + encode_records(output_records(None, rows), delimiter),
{
    lemma_encode_concat(seq![h], rows, delimiter);
    let one = seq![h];
    assert(one.drop_last() =~= Seq::<Seq<Seq<char>>>::empty());
    assert(one.last() == h);
    assert(encode_records(one.drop_last(), delimiter) =~= Seq::<u8>::empty());
    assert(encode_records(one, delimiter) =~= csv_encode_record(h, delimiter));
}

/// A single ASCII byte is valid UTF-8.
proof fn lemma_ascii_byte_valid(b: u8)
    requires
        b < 128,
    ensures
        valid_utf8(seq![b]),
{
    let s = seq![b];
    assert(vstd::utf8::codepoint_width_1(b) < 128) by (bit_vector)
        requires
            b < 128,
    ;
    assert(vstd::utf8::pop_first_scalar(s) =~= Seq::<u8>::empty());
    assert(valid_utf8(Seq::<u8>::empty()));
}

/// The bytes written for a field are valid UTF-8.
proof fn lemma_field_valid(f: Seq<char>, delimiter: u8)
    ensures
        valid_utf8(encode_field(f, delimiter)),
{
    encode_utf8_valid_utf8(f);
    encode_utf8_valid_utf8(crate::bindings::double_quotes(f));
    lemma_ascii_byte_valid(34u8);
    valid_utf8_concat(seq![34u8], encode_utf8(crate::bindings::double_quotes(f)));
    valid_utf8_concat(seq![34u8] + encode_utf8(crate::bindings::double_quotes(f)), seq![34u8]);
}

/// With an ASCII delimiter, the joined fields of a record are valid UTF-8.
proof fn lemma_join_valid(fields: Seq<Seq<char>>, delimiter: u8)
    requires
        delimiter < 128,
    ensures
        valid_utf8(join_fields(fields, delimiter)),
    decreases fields.len(),
{
    if fields.len() == 0 {
        assert(valid_utf8(Seq::<u8>::empty()));
    } else if fields.len() == 1 {
        lemma_field_valid(fields[0], delimiter);
    } else {
        lemma_join_valid(fields.drop_last(), delimiter);
        lemma_field_valid(fields.last(), delimiter);
        lemma_ascii_byte_valid(delimiter);
        let a = join_fields(fields.drop_last(), delimiter);
        valid_utf8_concat(a, seq![delimiter]);
        valid_utf8_concat(a + seq![delimiter], encode_field(fields.last(), delimiter));
    }
}

/// With an ASCII delimiter, every encoding of records is valid UTF-8: the
/// CSV bytes written are always text.
pub proof fn lemma_ascii_delimiter_gives_text(recs: Seq<Seq<Seq<char>>>, delimiter: u8)
    requires
        delimiter < 128,
    ensures
        valid_utf8(encode_records(recs, delimiter)),
    decreases recs.len(),
{
    if recs.len() == 0 {
        assert(valid_utf8(Seq::<u8>::empty()));
    } else {
        lemma_ascii_delimiter_gives_text(recs.drop_last(), delimiter);
        let fields = recs.last();
        lemma_join_valid(fields, delimiter);
        lemma_ascii_byte_valid(34u8);
        lemma_ascii_byte_valid(10u8);
        valid_utf8_concat(seq![34u8], seq![34u8]);
        assert(seq![34u8] + seq![34u8] =~= seq![34u8, 34u8]);
        let body = join_fields(fields, delimiter);
        let head = if body.len() == 0 {
            seq![34u8, 34u8]
        } else {
            body
        };
        valid_utf8_concat(head, seq![10u8]);
        valid_utf8_concat(encode_records(recs.drop_last(), delimiter), csv_encode_record(fields, delimiter));
    }
}

/// The state of a writer after it wrote `written`: its output is their
/// encoding, its width that of the first of them.
spec fn wrote(w: VecWriter, written: Seq<Seq<Seq<char>>>, delimiter: u8) -> bool {
    &&& writer_output(w) == encode_records(written, delimiter)
    &&& writer_delimiter(w) == Some(delimiter)
    &&& uniform_width(written)
    &&& writer_width(w) == (if written.len() == 0 {
        None
    } else {
        Some(written[0].len())
    })
}

/// Write one record; on success the writer has written `written` and `fields`.
fn write_one(w: &mut VecWriter, fields: &Vec<String>, Ghost(written): Ghost<Seq<Seq<Seq<char>>>>, Ghost(delimiter): Ghost<u8>) -> (res: Result<(), CsvError>)
    requires
        wrote(*old(w), written, delimiter),
    ensures
        res is Ok <==> uniform_width(written.push(strings_view(fields@))),
        res is Ok ==> wrote(*final(w), written.push(strings_view(fields@)), delimiter),
        res matches Err(e) ==> e is Csv,
{
    let ghost next = written.push(strings_view(fields@));
    let r = writer_write_record(w, fields);
    proof {
        assert(next.drop_last() =~= written);
        if written.len() > 0 {
            assert(next[0] == written[0]);
            if uniform_width(next) {
                assert(next[next.len() - 1].len() == next[0].len());
            }
        }
    }
    match r {
        Ok(()) => Ok(()),
        Err(e) => Err(CsvError::from(e)),
    }
}

/// Encode an optional header row and the rows as CSV bytes.
///
/// The bytes are the encodings of the header row, when there is one and the
/// configuration writes headers, and of each row in order. The `csv` crate refuses records whose number of
/// fields differs from the first record's.
pub fn to_bytes(config: WriterConfig, headers: Option<Vec<String>>, rows: &Vec<Row>) -> (res: Result<Vec<u8>, CsvError>)
    ensures
        ({
            let d = config.spec_delimiter();
            let rows_text = rows@.map_values(|r: Row| r@);
            let header = if config.spec_has_headers() && headers is Some {
                Some(headers.unwrap()@.map_values(|f: String| f@))
            } else {
                None::<Seq<Seq<char>>>
            };
            &&& res is Ok <==> uniform_width(
                if header is Some { seq![header.unwrap()] + rows_text } else { rows_text },
            )
            &&& res matches Ok(b) ==> b@ == (if header is Some {
                csv_encode_record(header.unwrap(), d)
            } else {
                Seq::<u8>::empty()
            }) + encode_records(rows_text, d)
        }),
        res is Ok <==> uniform_width(output_records(written_headers(config, headers), rows_view(rows@))),
        res matches Ok(b) ==> b@ == encode_records(
            output_records(written_headers(config, headers), rows_view(rows@)),
            config.spec_delimiter(),
        ),
        res matches Err(e) ==> e is Csv,
{
    let ghost recs = output_records(written_headers(config, headers), rows_view(rows@));
    let ghost d = config.spec_delimiter();
    let mut builder = new_writer_builder();
    writer_builder_set_delimiter(&mut builder, config.delimiter);
    let mut writer = writer_into_vec(&builder);
    let ghost mut written: Seq<Seq<Seq<char>>> = Seq::empty();
    assert(wrote(writer, written, d));
    let header_row: Option<&Vec<String>> = if config.has_headers {
        match &headers {
            Some(h) => Some(h),
            None => None,
        }
    } else {
        None
    };
    match header_row {
        Some(h) => {
            let r = write_one(&mut writer, h, Ghost(written), Ghost(d));
            match r {
                Ok(()) => {},
                Err(e) => {
                    // A first record always has the width of the first record.
                    assert(uniform_width(written.push(strings_view(h@))));
                    return Err(e);
                },
            }
            proof {
                written = written.push(strings_view(h@));
            }
        },
        None => {},
    }
    let ghost base = written;
    assert(base + rows_view(rows@) =~= recs);
    let n = rows.len();
    for i in 0..n
        invariant
            n == rows@.len(),
            recs == output_records(written_headers(config, headers), rows_view(rows@)),
            d == config.spec_delimiter(),
            base + rows_view(rows@) == recs,
            written == base + rows_view(rows@).take(i as int),
            wrote(writer, written, d),
    {
        let fields = rows[i].to_vec();
        let r = write_one(&mut writer, &fields, Ghost(written), Ghost(d));
        assert(strings_view(fields@) =~= rows@[i as int]@);
        assert(base + rows_view(rows@).take(i + 1) =~= written.push(strings_view(fields@)));
        match r {
            Ok(()) => {},
            Err(e) => {
                proof {
                    let p = written.push(strings_view(fields@));
                    assert(p == base + rows_view(rows@).take(i + 1));
                    assert(p.len() <= recs.len());
                    assert forall|j: int| 0 <= j < p.len() implies #[trigger] p[j] == recs[j] by {
                        if j < base.len() {
                            assert(p[j] == base[j]);
                        } else {
                            assert(p[j] == rows_view(rows@)[j - base.len()]);
                        }
                    }
                    if uniform_width(recs) {
                        assert forall|j: int| 0 <= j < p.len() implies #[trigger] p[j].len() == p[0].len() by {
                            assert(p[j] == recs[j]);
                            assert(p[0] == recs[0]);
                            assert(recs[j].len() == recs[0].len());
                        }
                        assert(uniform_width(p));
                    }
                }
                return Err(e);
            },
        }
        proof {
            written = written.push(strings_view(fields@));
        }
    }
    assert(rows_view(rows@).take(n as int) =~= rows_view(rows@));
    proof {
        assert(rows_view(rows@) =~= rows@.map_values(|r: Row| r@));
        match written_headers(config, headers) {
            Some(h) => {
                lemma_encode_concat(seq![h], rows_view(rows@), d);
                lemma_encode_one(h, d);
            },
            None => {
                lemma_encode_none(d);
                assert(Seq::<u8>::empty() + encode_records(rows_view(rows@), d) =~= encode_records(rows_view(rows@), d));
            },
        }
    }
    match writer_into_inner(writer) {
        Ok(bytes) => Ok(bytes),
        Err(e) => Err(CsvError::from(e)),
    }
}

/// The text that CSV bytes encode: `Deserialize` when they are not valid
/// UTF-8.
pub fn text_from_bytes(bytes: Vec<u8>) -> (res: Result<String, CsvError>)
    ensures
        res is Ok <==> vstd::utf8::valid_utf8(bytes@),
        res matches Ok(s) ==> s@ == vstd::utf8::decode_utf8(bytes@),
        res matches Ok(s) ==> vstd::utf8::encode_utf8(s@) == bytes@,
        res matches Err(e) ==> e is Deserialize,
{
    let ghost b = bytes@;
    match string_from_utf8(bytes) {
        Ok(s) => {
            proof {
                vstd::utf8::decode_utf8_encode_utf8(b);
            }
            Ok(s)
        },
        Err(e) => Err(CsvError::Deserialize(e.to_string())),
    }
}

/// Write an optional header row and the rows as CSV text.
///
/// The text is the UTF-8 reading of `to_bytes`'s output; when that output
/// is not valid UTF-8 (possible with a delimiter byte outside ASCII) the
/// result is a `Deserialize` error.
pub fn to_string(config: WriterConfig, headers: Option<Vec<String>>, rows: Vec<Row>) -> (res: Result<String, CsvError>)
    ensures
        ({
            let d = config.spec_delimiter();
            let rows_text = rows@.map_values(|r: Row| r@);
            let header = if config.spec_has_headers() && headers is Some {
                Some(headers.unwrap()@.map_values(|f: String| f@))
            } else {
                None::<Seq<Seq<char>>>
            };
            let all = if header is Some { seq![header.unwrap()] + rows_text } else { rows_text };
            let bytes = (if header is Some {
                csv_encode_record(header.unwrap(), d)
            } else {
                Seq::<u8>::empty()
            }) + encode_records(rows_text, d);
            &&& (d < 128 ==> (res is Ok <==> uniform_width(all)))
            &&& (res matches Ok(s) ==> vstd::utf8::encode_utf8(s@) == bytes)
        }),
        ({
            let recs = output_records(written_headers(config, headers), rows_view(rows@));
            let bytes = encode_records(recs, config.spec_delimiter());
            &&& res is Ok <==> uniform_width(recs) && vstd::utf8::valid_utf8(bytes)
            &&& (config.spec_delimiter() < 128 ==> (res is Ok <==> uniform_width(recs)))
            &&& (res matches Ok(s) ==> s@ == vstd::utf8::decode_utf8(bytes))
            &&& (res matches Ok(s) ==> vstd::utf8::encode_utf8(s@) == bytes)
            &&& (!uniform_width(recs) ==> (res matches Err(e) && e is Csv))
            &&& ((uniform_width(recs) && !vstd::utf8::valid_utf8(bytes)) ==> (res matches Err(e) && e is Deserialize))
        }),
{
    proof {
        if config.spec_delimiter() < 128 {
            lemma_ascii_delimiter_gives_text(
                output_records(written_headers(config, headers), rows_view(rows@)),
                config.spec_delimiter(),
            );
        }
    }
    let bytes = to_bytes(config, headers, &rows)?;
    text_from_bytes(bytes)
}

} // verus!
