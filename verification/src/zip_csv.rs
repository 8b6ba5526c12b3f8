//! The downloadable CSV lists: their header lines, the records of published
//! works, the CSV body (UTF-8 with a byte-order mark), its Shift_JIS
//! re-encoding and the zip archives that hold them.
use vstd::prelude::*;
use vstd::utf8::{decode_utf8, encode_utf8, encode_utf8_decode_utf8, is_ascii_chars, valid_utf8};
use crate::json::{Json, get_index, get_key};
use crate::models::{Date, DateTime, date_text, date_time_text, date_to_text, date_time_to_text};
use crate::text::{int_text, int_to_text, int_zero_padded, owned, push_int_zero_padded, views};

verus! {

/// Header of the basic list of works in progress (13 columns).
pub const INP_BASIC: &'static str = "人物ID,著者名,作品ID,作品名,仮名遣い種別,翻訳者名等,入力者名,校正者名,状態,状態の開始日,底本名,出版社名,入力に使用した版\r\n";

/// Header of the basic list of published works (14 columns).
pub const FINISHED_BASIC: &'static str = "人物ID,著者名,作品ID,作品名,仮名遣い種別,翻訳者名等,入力者名,校正者名,状態,状態の開始日,底本名,出版社名,入力に使用した版,校正に使用した版\r\n";

/// Header of the extended list of published works (55 columns).
pub const FINISHED_EXTENDED: &'static str = "作品ID,作品名,作品名読み,ソート用読み,副題,副題読み,原題,初出,分類番号,文字遣い種別,作品著作権フラグ,公開日,最終更新日,図書カードURL,人物ID,姓,名,姓読み,名読み,姓読みソート用,名読みソート用,姓ローマ字,名ローマ字,役割フラグ,生年月日,没年月日,人物著作権フラグ,底本名1,底本出版社名1,底本初版発行年1,入力に使用した版1,校正に使用した版1,底本の親本名1,底本の親本出版社名1,底本の親本初版発行年1,底本名2,底本出版社名2,底本初版発行年2,入力に使用した版2,校正に使用した版2,底本の親本名2,底本の親本出版社名2,底本の親本初版発行年2,入力者,校正者,テキストファイルURL,テキストファイル最終更新日,テキストファイル符号化方式,テキストファイル文字集合,テキストファイル修正回数,XHTML/HTMLファイルURL,XHTML/HTMLファイル最終更新日,XHTML/HTMLファイル符号化方式,XHTML/HTMLファイル文字集合,XHTML/HTMLファイル修正回数\r\n";

/// The UTF-8 byte-order mark.
pub open spec fn bom() -> Seq<u8> {
    seq![0xEFu8, 0xBBu8, 0xBFu8]
}

/// Appends the byte-order mark and the header line, as they are.
pub fn write_header(buf: &mut Vec<u8>, header_line: &str) -> (r: Result<(), String>)
    ensures
        r is Ok,
        final(buf)@ == old(buf)@ + bom() + encode_utf8(header_line@),
{
    let ghost b0 = buf@;
    buf.push(0xEFu8);
    buf.push(0xBBu8);
    buf.push(0xBFu8);
    let bytes = header_line.as_bytes();
    let mut i: usize = 0;
    while i < bytes.len()
        invariant
            i <= bytes@.len(),
            bytes@ == encode_utf8(header_line@),
            buf@ == b0 + bom() + bytes@.take(i as int),
        decreases bytes.len() - i,
    {
        buf.push(bytes[i]);
        assert(bytes@.take(i + 1) =~= bytes@.take(i as int).push(bytes@[i as int]));
        i = i + 1;
    }
    assert(bytes@.take(bytes@.len() as int) =~= bytes@);
    Ok(())
}

/// `b` without a leading byte-order mark.
pub open spec fn without_bom(b: Seq<u8>) -> Seq<u8> {
    if b.len() >= 3 && b.take(3) == bom() {
        b.skip(3)
    } else {
        b
    }
}

/// What follows a written byte-order mark is what the Shift_JIS
/// re-encoding reads: the mark, and only the mark, is dropped.
pub proof fn lemma_without_bom(rest: Seq<u8>)
    ensures
        without_bom(bom() + rest) == rest,
{
    assert((bom() + rest).take(3) =~= bom());
    assert((bom() + rest).skip(3) =~= rest);
}

/// The text that `bytes` encode in UTF-8, when they are valid UTF-8.
///
/// Calls `std::str::from_utf8`, whose documentation says that it fails
/// exactly when the bytes are not valid UTF-8 and otherwise gives the text
/// of those very bytes.
#[verifier::external_body]
fn utf8_text(bytes: &[u8]) -> (r: Option<&str>)
    ensures
        match r {
            Some(s) => encode_utf8(s@) == bytes@,
            None => !valid_utf8(bytes@),
        },
{
    match std::str::from_utf8(bytes) {
        Ok(s) => Some(s),
        Err(_) => None,
    }
}

/// What `encoding_rs` makes of a text in Shift_JIS: the bytes, and whether
/// some character had no Shift_JIS form and was written as an HTML numeric
/// character reference.
pub uninterp spec fn shift_jis_encoding(s: Seq<char>) -> (Seq<u8>, bool);

/// Encodes `s` in Shift_JIS.
///
/// Calls `encoding_rs::SHIFT_JIS.encode`.  Its result depends on the text
/// alone; its source returns the text's own bytes, with nothing unmappable,
/// when every character is ASCII.  The source sizes a buffer as the next
/// power of two above the length plus 11, hence the bound.  An ASCII
/// character is written as its byte and any other mapped character in at
/// most two bytes; an unmappable one (never ASCII, so at least two UTF-8
/// bytes) as `&#`, its decimal code and `;`, at most ten bytes and at most
/// seven below U+0800.  So the output has at most four bytes per byte of
/// the text's UTF-8 form.
#[verifier::external_body]
fn shift_jis_encode(s: &str) -> (r: (Vec<u8>, bool))
    requires
        encode_utf8(s@).len() + 11 <= usize::MAX / 4 + 1,
    ensures
        (r.0@, r.1) == shift_jis_encoding(s@),
        is_ascii_chars(s@) ==> r.0@ == encode_utf8(s@) && !r.1,
        r.0@.len() <= 4 * encode_utf8(s@).len(),
{
    let (cow, _, had_unmappable) = encoding_rs::SHIFT_JIS.encode(s);
    (cow.into_owned(), had_unmappable)
}

/// The message when a CSV body is not UTF-8.
pub open spec fn not_utf8_message() -> Seq<char> {
    "CSV body is not valid UTF-8 (this is a programming error)"@
}

/// Re-encodes a UTF-8 CSV body in Shift_JIS, dropping its byte-order mark;
/// the flag tells whether some character had to be written as a numeric
/// character reference.
pub fn encode_sjis_flagged(utf8_with_bom: &[u8]) -> (r: Result<(Vec<u8>, bool), String>)
    requires
        utf8_with_bom@.len() + 11 <= usize::MAX / 4 + 1,
    ensures
        match r {
            Ok(p) => valid_utf8(without_bom(utf8_with_bom@))
                && (p.0@, p.1) == shift_jis_encoding(decode_utf8(without_bom(utf8_with_bom@))),
            Err(e) => !valid_utf8(without_bom(utf8_with_bom@)) && e@ == not_utf8_message(),
        },
        valid_utf8(without_bom(utf8_with_bom@)) && is_ascii_chars(decode_utf8(without_bom(utf8_with_bom@)))
            ==> (r matches Ok(p) && p.0@ == without_bom(utf8_with_bom@) && !p.1),
        r matches Ok(p) ==> p.0@.len() <= 4 * without_bom(utf8_with_bom@).len(),
{
    let b = utf8_with_bom;
    let n = b.len();
    let has_bom = n >= 3 && b[0] == 0xEFu8 && b[1] == 0xBBu8 && b[2] == 0xBFu8;
    let stripped: &[u8] = if has_bom {
        assert(b@.take(3) =~= bom());
        let rest = slice_from(b, 3);
        rest
    } else {
        proof {
            if n >= 3 && b@.take(3) == bom() {
                assert(b@.take(3)[0] == b@[0]);
                assert(b@.take(3)[1] == b@[1]);
                assert(b@.take(3)[2] == b@[2]);
            }
        }
        b
    };
    match utf8_text(stripped) {
        Some(s) => {
            proof {
                encode_utf8_decode_utf8(s@);
                vstd::utf8::encode_utf8_valid_utf8(s@);
            }
            let (bytes, unmappable) = shift_jis_encode(s);
            Ok((bytes, unmappable))
        },
        None => Err(owned("CSV body is not valid UTF-8 (this is a programming error)")),
    }
}

/// Re-encodes a UTF-8 CSV body in Shift_JIS, dropping its byte-order mark.
pub fn encode_sjis(utf8_with_bom: &[u8]) -> (r: Result<Vec<u8>, String>)
    requires
        utf8_with_bom@.len() + 11 <= usize::MAX / 4 + 1,
    ensures
        match r {
            Ok(v) => valid_utf8(without_bom(utf8_with_bom@))
                && v@ == shift_jis_encoding(decode_utf8(without_bom(utf8_with_bom@))).0,
            Err(e) => !valid_utf8(without_bom(utf8_with_bom@)) && e@ == not_utf8_message(),
        },
        valid_utf8(without_bom(utf8_with_bom@)) && is_ascii_chars(decode_utf8(without_bom(utf8_with_bom@)))
            ==> (r matches Ok(v) && v@ == without_bom(utf8_with_bom@)),
{
    match encode_sjis_flagged(utf8_with_bom) {
        Ok((bytes, _)) => Ok(bytes),
        Err(e) => Err(e),
    }
}

/// The bytes of `b` from `start` on.
fn slice_from(b: &[u8], start: usize) -> (r: &[u8])
    requires
        start <= b@.len(),
    ensures
        r@ == b@.skip(start as int),
{
    let (_, rest) = b.split_at(start);
    rest
}

/// A field's text with every double quote doubled.
pub open spec fn quote_doubled(f: Seq<char>) -> Seq<char>
    decreases f.len(),
{
    if f.len() == 0 {
        Seq::empty()
    } else {
        quote_doubled(f.drop_last()) + if f.last() == '"' { seq!['"', '"'] } else { seq![f.last()] }
    }
}

/// A field in double quotes.
pub open spec fn csv_field(f: Seq<char>) -> Seq<char> {
    seq!['"'] + quote_doubled(f) + seq!['"']
}

/// Quoted fields separated by commas.
pub open spec fn csv_fields(fs: Seq<Seq<char>>) -> Seq<char>
    decreases fs.len(),
{
    if fs.len() == 0 {
        Seq::empty()
    } else if fs.len() == 1 {
        csv_field(fs[0])
    } else {
        csv_fields(fs.drop_last()) + seq![','] + csv_field(fs.last())
    }
}

/// One CSV record with every field quoted, ended by CR LF (a record without
/// fields is one empty quoted field).
pub open spec fn csv_line(fs: Seq<Seq<char>>) -> Seq<char> {
    (if fs.len() == 0 { seq!['"', '"'] } else { csv_fields(fs) }) + seq!['\r', '\n']
}

/// Appends one record in CSV, every field quoted and the line ended by CR LF.
///
/// Calls a `csv::Writer` over the buffer, built with `QuoteStyle::Always` and
/// `Terminator::CRLF`, then `write_record` and `flush`.  Its source writes an
/// opening quote, the field with quotes doubled and a closing quote per field,
/// commas between, two quotes for a record without fields, and the
/// terminator.  A fresh writer takes the field count of its first record, so
/// the one record it writes raises no `UnequalLengths`; its other errors come
/// only from the underlying writer, and std's `Write` for `Vec<u8>` appends,
/// growing the vector as needed.  So the call succeeds.
#[verifier::external_body]
fn append_csv_record(buf: &mut Vec<u8>, fields: &Vec<String>) -> (r: Result<(), String>)
    ensures
        r is Ok,
        final(buf)@ == old(buf)@ + encode_utf8(csv_line(views(fields@))),
{
    let mut w = csv::WriterBuilder::new()
        .quote_style(csv::QuoteStyle::Always)
        .terminator(csv::Terminator::CRLF)
        .from_writer(buf);
    match w.write_record(fields) {
        Ok(()) => {},
        Err(e) => return Err(e.to_string()),
    }
    match w.flush() {
        Ok(()) => Ok(()),
        Err(e) => Err(e.to_string()),
    }
}

/// The UTF-8 bytes of the records, one CSV line each.
pub open spec fn csv_records(records: Seq<Seq<Seq<char>>>) -> Seq<u8>
    decreases records.len(),
{
    if records.len() == 0 {
        Seq::empty()
    } else {
        csv_records(records.drop_last()) + encode_utf8(csv_line(records.last()))
    }
}

/// The fields of each record as text.
pub open spec fn record_views(records: Seq<Vec<String>>) -> Seq<Seq<Seq<char>>> {
    records.map_values(|r: Vec<String>| views(r@))
}

/// One record as a CSV line in UTF-8, every field quoted, ended by CR LF.
pub fn csv_record(fields: &Vec<String>) -> (r: Result<Vec<u8>, String>)
    ensures
        r is Ok,
        r->Ok_0@ == encode_utf8(csv_line(views(fields@))),
{
    let mut buf: Vec<u8> = Vec::new();
    match append_csv_record(&mut buf, fields) {
        Ok(()) => {
            assert(buf@ =~= encode_utf8(csv_line(views(fields@))));
            Ok(buf)
        },
        Err(e) => Err(e),
    }
}

/// A CSV body: the byte-order mark and the header line as they are, then
/// one quoted line per record.
pub fn csv_body(header_line: &str, records: &Vec<Vec<String>>) -> (r: Result<Vec<u8>, String>)
    ensures
        r is Ok,
        r->Ok_0@ == bom() + encode_utf8(header_line@) + csv_records(record_views(records@)),
{
    let mut buf: Vec<u8> = Vec::new();
    let _ = write_header(&mut buf, header_line);
    let ghost head = buf@;
    assert(head =~= bom() + encode_utf8(header_line@));
    let ghost rv = record_views(records@);
    let mut i: usize = 0;
    while i < records.len()
        invariant
            i <= records.len(),
            rv == record_views(records@),
            buf@ == head + csv_records(rv.take(i as int)),
        decreases records.len() - i,
    {
        match append_csv_record(&mut buf, &records[i]) {
            Ok(()) => {},
            Err(e) => return Err(e),
        }
        assert(rv.take(i + 1).drop_last() =~= rv.take(i as int));
        assert(rv[i as int] == views(records@[i as int]@));
        assert(buf@ =~= head + csv_records(rv.take(i + 1)));
        i = i + 1;
    }
    assert(rv.take(records.len() as int) =~= rv);
    Ok(buf)
}

/// One published work and one of its people, as the basic list shows them.
pub struct BasicRow {
    pub person_id: i64,
    pub person_name: String,
    pub work_id: i64,
    pub work_title: String,
    pub kana_type_name: Option<String>,
    pub not_author_text: Option<String>,
    pub inputer_text: Option<String>,
    pub proofreader_text: Option<String>,
    pub work_status_name: Option<String>,
    pub started_on: Option<Date>,
    pub teihon_title: Option<String>,
    pub teihon_publisher: Option<String>,
    pub teihon_input_edition: Option<String>,
    pub teihon_proof_edition: Option<String>,
}

/// The text of an optional field; empty when absent.
pub open spec fn or_empty(o: Option<String>) -> Seq<char> {
    match o {
        Some(s) => s@,
        None => Seq::empty(),
    }
}

/// The `YYYY-MM-DD` text of an optional date; empty when absent.
pub open spec fn date_or_empty(d: Option<Date>) -> Seq<char> {
    match d {
        Some(d) => date_text(d),
        None => Seq::empty(),
    }
}

/// The fourteen fields of a basic-list record, in header order.
pub open spec fn basic_fields(r: BasicRow) -> Seq<Seq<char>> {
    seq![
        int_text(r.person_id as int),
        r.person_name@,
        int_text(r.work_id as int),
        r.work_title@,
        or_empty(r.kana_type_name),
        or_empty(r.not_author_text),
        or_empty(r.inputer_text),
        or_empty(r.proofreader_text),
        or_empty(r.work_status_name),
        date_or_empty(r.started_on),
        or_empty(r.teihon_title),
        or_empty(r.teihon_publisher),
        or_empty(r.teihon_input_edition),
        or_empty(r.teihon_proof_edition),
    ]
}

/// An optional text as an owned text; empty when absent.
fn text_or_empty(o: &Option<String>) -> (r: String)
    ensures
        r@ == or_empty(*o),
{
    match o {
        Some(s) => owned(s.as_str()),
        None => String::new(),
    }
}

/// An optional date as `YYYY-MM-DD`; empty when absent.
fn date_or_blank(d: &Option<Date>) -> (r: String)
    ensures
        r@ == date_or_empty(*d),
{
    match d {
        Some(d) => date_to_text(d),
        None => String::new(),
    }
}

/// The fields of one basic-list record.
pub fn basic_record(r: &BasicRow) -> (fields: Vec<String>)
    ensures
        views(fields@) == basic_fields(*r),
{
    let mut v: Vec<String> = Vec::new();
    v.push(int_to_text(r.person_id));
    v.push(owned(r.person_name.as_str()));
    v.push(int_to_text(r.work_id));
    v.push(owned(r.work_title.as_str()));
    v.push(text_or_empty(&r.kana_type_name));
    v.push(text_or_empty(&r.not_author_text));
    v.push(text_or_empty(&r.inputer_text));
    v.push(text_or_empty(&r.proofreader_text));
    v.push(text_or_empty(&r.work_status_name));
    v.push(date_or_blank(&r.started_on));
    v.push(text_or_empty(&r.teihon_title));
    v.push(text_or_empty(&r.teihon_publisher));
    v.push(text_or_empty(&r.teihon_input_edition));
    v.push(text_or_empty(&r.teihon_proof_edition));
    assert(views(v@) =~= basic_fields(*r));
    v
}

/// The records of the basic list of published works.
pub open spec fn basic_records(rows: Seq<BasicRow>) -> Seq<Seq<Seq<char>>> {
    rows.map_values(|r: BasicRow| basic_fields(r))
}

/// The CSV body of the basic list of published works: byte-order mark,
/// header, one line per row.
pub fn finished_basic_csv(rows: &Vec<BasicRow>) -> (r: Result<Vec<u8>, String>)
    ensures
        r is Ok,
        r->Ok_0@ == bom() + encode_utf8(FINISHED_BASIC@) + csv_records(basic_records(rows@)),
{
    let mut records: Vec<Vec<String>> = Vec::new();
    let mut i: usize = 0;
    while i < rows.len()
        invariant
            i <= rows.len(),
            record_views(records@) == basic_records(rows@.take(i as int)),
        decreases rows.len() - i,
    {
        let ghost before = record_views(records@);
        records.push(basic_record(&rows[i]));
        assert(record_views(records@) =~= before.push(basic_fields(rows@[i as int])));
        assert(basic_records(rows@.take(i + 1)) =~= basic_records(rows@.take(i as int)).push(basic_fields(rows@[i as int])));
        i = i + 1;
    }
    assert(rows@.take(rows.len() as int) =~= rows@);
    csv_body(FINISHED_BASIC, &records)
}

/// The site of the book cards; card addresses do not follow the configured
/// site address.
pub const CARD_BASE_URL: &'static str = "https://www.aozora.gr.jp";

/// One published work and one of its people (once per role), as the
/// extended list shows them.
pub struct ExtendedRow {
    pub work_id: i64,
    pub title: String,
    pub title_kana: Option<String>,
    pub work_sortkey: Option<String>,
    pub subtitle: Option<String>,
    pub subtitle_kana: Option<String>,
    pub original_title: Option<String>,
    pub first_appearance: Option<String>,
    pub bibclasses_num: Option<String>,
    pub kana_type_name: Option<String>,
    pub work_copyright_flag: bool,
    pub started_on: Option<Date>,
    pub work_updated_at: Option<DateTime>,
    pub first_author_id: Option<i64>,
    pub person_id: i64,
    pub last_name: Option<String>,
    pub first_name: Option<String>,
    pub last_name_kana: Option<String>,
    pub first_name_kana: Option<String>,
    pub person_sortkey: Option<String>,
    pub person_sortkey2: Option<String>,
    pub last_name_en: Option<String>,
    pub first_name_en: Option<String>,
    pub role_name: Option<String>,
    pub born_on: Option<String>,
    pub died_on: Option<String>,
    pub person_copyright_flag: bool,
    /// The base books, an array of objects in book order.
    pub teihon_json: Option<Json>,
    /// The parent books of the base books, an array of objects.
    pub oyahon_json: Option<Json>,
    pub inputer_text: Option<String>,
    pub proofreader_text: Option<String>,
    pub text_url: Option<String>,
    pub text_filename: Option<String>,
    pub text_updated_at: Option<DateTime>,
    pub text_revision_count: Option<i32>,
    pub text_encoding_name: Option<String>,
    pub text_charset_name: Option<String>,
    pub html_url: Option<String>,
    pub html_filename: Option<String>,
    pub html_updated_at: Option<DateTime>,
    pub html_revision_count: Option<i32>,
    pub html_encoding_name: Option<String>,
    pub html_charset_name: Option<String>,
}

/// "あり" for a work or person under copyright, "なし" otherwise.
pub open spec fn copyright_text(b: bool) -> Seq<char> {
    if b { "あり"@ } else { "なし"@ }
}

/// The card address of a work under its first author; empty without one.
pub open spec fn card_url_text(first_author_id: Option<i64>, work_id: i64) -> Seq<char> {
    match first_author_id {
        Some(aid) => CARD_BASE_URL@ + "/cards/"@ + int_zero_padded(aid as int, 6) + "/card"@ + int_text(work_id as int)
            + ".html"@,
        None => Seq::empty(),
    }
}

/// The text of member `key` of element `idx` of an array value; empty when
/// any of them is missing or the member is not a string.
pub open spec fn json_field(arr: Option<Json>, idx: int, key: Seq<char>) -> Seq<char> {
    match arr {
        Some(a) => match get_index(a, idx) {
            Some(e) => match get_key(e, key) {
                Some(Json::String(t)) => t@,
                _ => Seq::empty(),
            },
            None => Seq::empty(),
        },
        None => Seq::empty(),
    }
}

/// A file's download address: its own address when it has a non-empty one,
/// else the site's file address under the first author, else nothing.
pub open spec fn download_url(
    url: Option<Seq<char>>,
    filename: Option<Seq<char>>,
    author_id: Option<i64>,
    main_site_url: Seq<char>,
) -> Seq<char> {
    if url matches Some(u) && u.len() > 0 {
        url->0
    } else {
        match (filename, author_id) {
            (Some(f), Some(a)) => if f.len() > 0 {
                main_site_url + "/cards/"@ + int_zero_padded(a as int, 6) + "/files/"@ + f
            } else {
                Seq::empty()
            },
            _ => Seq::empty(),
        }
    }
}

/// The text of an optional string slice.
pub open spec fn opt_str(o: Option<&str>) -> Option<Seq<char>> {
    match o {
        Some(s) => Some(s@),
        None => None,
    }
}

/// A file's download address (see [`download_url`]).
pub fn build_download_url(
    url: Option<&str>,
    filename: Option<&str>,
    author_id: Option<i64>,
    main_site_url: &str,
) -> (r: String)
    ensures
        r@ == download_url(opt_str(url), opt_str(filename), author_id, main_site_url@),
{
    match url {
        Some(u) => {
            if u.unicode_len() > 0 {
                return owned(u);
            }
        },
        None => {},
    }
    match (filename, author_id) {
        (Some(fname), Some(aid)) => {
            if fname.unicode_len() > 0 {
                let mut s = owned(main_site_url);
                s.append("/cards/");
                push_int_zero_padded(&mut s, aid, 6);
                s.append("/files/");
                s.append(fname);
                s
            } else {
                String::new()
            }
        },
        _ => String::new(),
    }
}

/// A file's update time as `YYYY-MM-DD HH:MM:SS +0900`; empty when absent.
pub open spec fn timestamp_text(ts: Option<DateTime>) -> Seq<char> {
    match ts {
        Some(t) => date_time_text(t) + " +0900"@,
        None => Seq::empty(),
    }
}

/// A file's update time, stored in Japan time, written with its offset.
pub fn format_workfile_timestamp(ts: &Option<DateTime>) -> (r: String)
    ensures
        r@ == timestamp_text(*ts),
{
    match ts {
        Some(t) => {
            let mut s = date_time_to_text(t);
            s.append(" +0900");
            s
        },
        None => String::new(),
    }
}

/// The text of member `key` of element `idx` of an array value.
pub fn json_str(arr: &Option<Json>, idx: usize, key: &str) -> (r: String)
    ensures
        r@ == json_field(*arr, idx as int, key@),
{
    match arr {
        Some(a) => match a.at(idx) {
            Some(e) => match e.get(key) {
                Some(v) => match v.as_str() {
                    Some(t) => owned(t),
                    None => String::new(),
                },
                None => String::new(),
            },
            None => String::new(),
        },
        None => String::new(),
    }
}

/// Fields 1-14: the work.
pub open spec fn work_fields(r: ExtendedRow) -> Seq<Seq<char>> {
    seq![
        int_text(r.work_id as int),
        r.title@,
        or_empty(r.title_kana),
        or_empty(r.work_sortkey),
        or_empty(r.subtitle),
        or_empty(r.subtitle_kana),
        or_empty(r.original_title),
        or_empty(r.first_appearance),
        or_empty(r.bibclasses_num),
        or_empty(r.kana_type_name),
        copyright_text(r.work_copyright_flag),
        date_or_empty(r.started_on),
        match r.work_updated_at {
            Some(t) => date_text(t.date),
            None => Seq::empty(),
        },
        card_url_text(r.first_author_id, r.work_id),
    ]
}

/// Fields 15-27: the person, the role, the life dates and the copyright.
pub open spec fn person_fields(r: ExtendedRow) -> Seq<Seq<char>> {
    seq![
        int_text(r.person_id as int),
        or_empty(r.last_name),
        or_empty(r.first_name),
        or_empty(r.last_name_kana),
        or_empty(r.first_name_kana),
        or_empty(r.person_sortkey),
        or_empty(r.person_sortkey2),
        or_empty(r.last_name_en),
        or_empty(r.first_name_en),
        or_empty(r.role_name),
        or_empty(r.born_on),
        or_empty(r.died_on),
        copyright_text(r.person_copyright_flag),
    ]
}

/// Eight fields for base book `idx` and its parent book.
pub open spec fn book_fields(r: ExtendedRow, idx: int) -> Seq<Seq<char>> {
    seq![
        json_field(r.teihon_json, idx, "title"@),
        json_field(r.teihon_json, idx, "publisher"@),
        json_field(r.teihon_json, idx, "first_pubdate"@),
        json_field(r.teihon_json, idx, "input_edition"@),
        json_field(r.teihon_json, idx, "proof_edition"@),
        json_field(r.oyahon_json, idx, "title"@),
        json_field(r.oyahon_json, idx, "publisher"@),
        json_field(r.oyahon_json, idx, "first_pubdate"@),
    ]
}

/// The revision count of a file; empty when absent.
pub open spec fn revision_text(n: Option<i32>) -> Seq<char> {
    match n {
        Some(n) => int_text(n as int),
        None => Seq::empty(),
    }
}

/// Five fields of a file: download address, update time, encoding,
/// character set and revision count.
pub open spec fn file_fields(
    url: Option<String>,
    filename: Option<String>,
    updated_at: Option<DateTime>,
    encoding: Option<String>,
    charset: Option<String>,
    revisions: Option<i32>,
    author_id: Option<i64>,
    main_site_url: Seq<char>,
) -> Seq<Seq<char>> {
    seq![
        download_url(opt_view_text(url), opt_view_text(filename), author_id, main_site_url),
        timestamp_text(updated_at),
        or_empty(encoding),
        or_empty(charset),
        revision_text(revisions),
    ]
}

/// The text of an optional string.
pub open spec fn opt_view_text(o: Option<String>) -> Option<Seq<char>> {
    match o {
        Some(s) => Some(s@),
        None => None,
    }
}

/// The 55 fields of an extended-list record, in header order.
pub open spec fn extended_fields(r: ExtendedRow, main_site_url: Seq<char>) -> Seq<Seq<char>> {
    work_fields(r) + person_fields(r) + book_fields(r, 0) + book_fields(r, 1)
        + seq![or_empty(r.inputer_text), or_empty(r.proofreader_text)]
        + file_fields(r.text_url, r.text_filename, r.text_updated_at, r.text_encoding_name, r.text_charset_name,
            r.text_revision_count, r.first_author_id, main_site_url)
        + file_fields(r.html_url, r.html_filename, r.html_updated_at, r.html_encoding_name, r.html_charset_name,
            r.html_revision_count, r.first_author_id, main_site_url)
}

/// Appends a text to a record.
fn push_field(v: &mut Vec<String>, t: String)
    ensures
        views(final(v)@) == views(old(v)@).push(t@),
{
    let ghost before = views(v@);
    v.push(t);
    assert(views(v@) =~= before.push(t@));
}

/// The date of an optional update time; empty when absent.
fn updated_date(t: &Option<DateTime>) -> (r: String)
    ensures
        r@ == match *t {
            Some(t) => date_text(t.date),
            None => Seq::empty(),
        },
{
    match t {
        Some(t) => date_to_text(&t.date),
        None => String::new(),
    }
}

/// The card address of a work under its first author.
pub fn card_url(first_author_id: Option<i64>, work_id: i64) -> (r: String)
    ensures
        r@ == card_url_text(first_author_id, work_id),
{
    match first_author_id {
        Some(aid) => {
            let mut c = owned(CARD_BASE_URL);
            c.append("/cards/");
            push_int_zero_padded(&mut c, aid, 6);
            c.append("/card");
            let w = int_to_text(work_id);
            c.append(w.as_str());
            c.append(".html");
            c
        },
        None => String::new(),
    }
}

/// Appends fields 1-7 of the work.
fn push_work_head(v: &mut Vec<String>, r: &ExtendedRow)
    ensures
        views(final(v)@) == views(old(v)@) + work_fields(*r).take(7),
{
    let ghost before = views(v@);
    push_field(v, int_to_text(r.work_id));
    push_field(v, owned(r.title.as_str()));
    push_field(v, text_or_empty(&r.title_kana));
    push_field(v, text_or_empty(&r.work_sortkey));
    push_field(v, text_or_empty(&r.subtitle));
    push_field(v, text_or_empty(&r.subtitle_kana));
    push_field(v, text_or_empty(&r.original_title));
    assert(views(v@) =~= before + work_fields(*r).take(7));
}

/// Appends fields 8-14 of the work.
fn push_work_tail(v: &mut Vec<String>, r: &ExtendedRow)
    ensures
        views(final(v)@) == views(old(v)@) + work_fields(*r).skip(7),
{
    let ghost before = views(v@);
    push_field(v, text_or_empty(&r.first_appearance));
    push_field(v, text_or_empty(&r.bibclasses_num));
    push_field(v, text_or_empty(&r.kana_type_name));
    push_field(v, if r.work_copyright_flag { owned("あり") } else { owned("なし") });
    push_field(v, date_or_blank(&r.started_on));
    push_field(v, updated_date(&r.work_updated_at));
    push_field(v, card_url(r.first_author_id, r.work_id));
    assert(views(v@) =~= before + work_fields(*r).skip(7));
}

/// Appends the work's fields.
fn push_work_fields(v: &mut Vec<String>, r: &ExtendedRow)
    ensures
        views(final(v)@) == views(old(v)@) + work_fields(*r),
{
    let ghost before = views(v@);
    push_work_head(v, r);
    push_work_tail(v, r);
    assert(work_fields(*r).take(7) + work_fields(*r).skip(7) =~= work_fields(*r));
    assert(views(v@) =~= before + work_fields(*r));
}

/// Appends fields 15-21: the person's id and names.
fn push_person_head(v: &mut Vec<String>, r: &ExtendedRow)
    ensures
        views(final(v)@) == views(old(v)@) + person_fields(*r).take(7),
{
    let ghost before = views(v@);
    push_field(v, int_to_text(r.person_id));
    push_field(v, text_or_empty(&r.last_name));
    push_field(v, text_or_empty(&r.first_name));
    push_field(v, text_or_empty(&r.last_name_kana));
    push_field(v, text_or_empty(&r.first_name_kana));
    push_field(v, text_or_empty(&r.person_sortkey));
    push_field(v, text_or_empty(&r.person_sortkey2));
    assert(views(v@) =~= before + person_fields(*r).take(7));
}

/// Appends fields 22-27: roman names, role, life dates, copyright.
fn push_person_tail(v: &mut Vec<String>, r: &ExtendedRow)
    ensures
        views(final(v)@) == views(old(v)@) + person_fields(*r).skip(7),
{
    let ghost before = views(v@);
    push_field(v, text_or_empty(&r.last_name_en));
    push_field(v, text_or_empty(&r.first_name_en));
    push_field(v, text_or_empty(&r.role_name));
    push_field(v, text_or_empty(&r.born_on));
    push_field(v, text_or_empty(&r.died_on));
    push_field(v, if r.person_copyright_flag { owned("あり") } else { owned("なし") });
    assert(views(v@) =~= before + person_fields(*r).skip(7));
}

/// Appends the person's fields.
fn push_person_fields(v: &mut Vec<String>, r: &ExtendedRow)
    ensures
        views(final(v)@) == views(old(v)@) + person_fields(*r),
{
    let ghost before = views(v@);
    push_person_head(v, r);
    push_person_tail(v, r);
    assert(person_fields(*r).take(7) + person_fields(*r).skip(7) =~= person_fields(*r));
    assert(views(v@) =~= before + person_fields(*r));
}

/// Appends the fields of base book `idx` and its parent book.
fn push_book_fields(v: &mut Vec<String>, r: &ExtendedRow, idx: usize)
    ensures
        views(final(v)@) == views(old(v)@) + book_fields(*r, idx as int),
{
    let ghost before = views(v@);
    push_field(v, json_str(&r.teihon_json, idx, "title"));
    push_field(v, json_str(&r.teihon_json, idx, "publisher"));
    push_field(v, json_str(&r.teihon_json, idx, "first_pubdate"));
    push_field(v, json_str(&r.teihon_json, idx, "input_edition"));
    push_field(v, json_str(&r.teihon_json, idx, "proof_edition"));
    push_field(v, json_str(&r.oyahon_json, idx, "title"));
    push_field(v, json_str(&r.oyahon_json, idx, "publisher"));
    push_field(v, json_str(&r.oyahon_json, idx, "first_pubdate"));
    assert(views(v@) =~= before + book_fields(*r, idx as int));
}

/// An optional text as an optional string slice.
fn as_opt_str(o: &Option<String>) -> (r: Option<&str>)
    ensures
        opt_str(r) == opt_view_text(*o),
{
    match o {
        Some(s) => Some(s.as_str()),
        None => None,
    }
}

/// Appends the fields of a file.
fn push_file_fields(
    v: &mut Vec<String>,
    url: &Option<String>,
    filename: &Option<String>,
    updated_at: &Option<DateTime>,
    encoding: &Option<String>,
    charset: &Option<String>,
    revisions: Option<i32>,
    author_id: Option<i64>,
    main_site_url: &str,
)
    ensures
        views(final(v)@) == views(old(v)@) + file_fields(*url, *filename, *updated_at, *encoding, *charset, revisions,
            author_id, main_site_url@),
{
    let ghost before = views(v@);
    push_field(v, build_download_url(as_opt_str(url), as_opt_str(filename), author_id, main_site_url));
    push_field(v, format_workfile_timestamp(updated_at));
    push_field(v, text_or_empty(encoding));
    push_field(v, text_or_empty(charset));
    push_field(v, match revisions {
        Some(n) => int_to_text(n as i64),
        None => String::new(),
    });
    assert(views(v@) =~= before + file_fields(*url, *filename, *updated_at, *encoding, *charset, revisions, author_id,
        main_site_url@));
}

/// The fields of one extended-list record; download addresses fall back to
/// `main_site_url`.
pub fn extended_record(r: &ExtendedRow, main_site_url: &str) -> (fields: Vec<String>)
    ensures
        views(fields@) == extended_fields(*r, main_site_url@),
{
    let mut v: Vec<String> = Vec::new();
    push_work_fields(&mut v, r);
    push_person_fields(&mut v, r);
    push_book_fields(&mut v, r, 0);
    push_book_fields(&mut v, r, 1);
    push_field(&mut v, text_or_empty(&r.inputer_text));
    push_field(&mut v, text_or_empty(&r.proofreader_text));
    push_file_fields(&mut v, &r.text_url, &r.text_filename, &r.text_updated_at, &r.text_encoding_name,
        &r.text_charset_name, r.text_revision_count, r.first_author_id, main_site_url);
    push_file_fields(&mut v, &r.html_url, &r.html_filename, &r.html_updated_at, &r.html_encoding_name,
        &r.html_charset_name, r.html_revision_count, r.first_author_id, main_site_url);
    assert(views(v@) =~= extended_fields(*r, main_site_url@));
    v
}

/// The records of the extended list.
pub open spec fn extended_records(rows: Seq<ExtendedRow>, main_site_url: Seq<char>) -> Seq<Seq<Seq<char>>> {
    rows.map_values(|r: ExtendedRow| extended_fields(r, main_site_url))
}

/// The CSV body of the extended list of published works.
pub fn finished_extended_csv(rows: &Vec<ExtendedRow>, main_site_url: &str) -> (r: Result<Vec<u8>, String>)
    ensures
        r is Ok,
        r->Ok_0@ == bom() + encode_utf8(FINISHED_EXTENDED@) + csv_records(
            extended_records(rows@, main_site_url@),
        ),
{
    let mut records: Vec<Vec<String>> = Vec::new();
    let mut i: usize = 0;
    while i < rows.len()
        invariant
            i <= rows.len(),
            record_views(records@) == extended_records(rows@.take(i as int), main_site_url@),
        decreases rows.len() - i,
    {
        let ghost before = record_views(records@);
        records.push(extended_record(&rows[i], main_site_url));
        assert(record_views(records@) =~= before.push(extended_fields(rows@[i as int], main_site_url@)));
        assert(extended_records(rows@.take(i + 1), main_site_url@) =~= extended_records(rows@.take(i as int), main_site_url@).push(
            extended_fields(rows@[i as int], main_site_url@),
        ));
        i = i + 1;
    }
    assert(rows@.take(rows.len() as int) =~= rows@);
    csv_body(FINISHED_EXTENDED, &records)
}

/// The bytes of a zip archive holding one deflated file `name` with the
/// contents `body`.
pub uninterp spec fn zip_archive(name: Seq<char>, body: Seq<u8>) -> Seq<u8>;

/// A zip archive with one deflated file.
///
/// Calls `zip::ZipWriter` over an in-memory cursor: `start_file` with
/// deflate, `write_all`, `finish`.  Without the crate's `time` feature, as
/// this crate builds it, the entry carries the fixed default time, so the
/// bytes depend on the name and the contents alone.  The writer unwraps the
/// name's length into 16 bits, so a name of more than 65535 bytes panics and
/// is left out.  Over a cursor in memory the writer fails only when an
/// entry without the large-file option passes `ZIP64_BYTES_THR` (4 GiB less
/// one byte), counted before and after deflate; deflate adds a few bytes per
/// 64 KiB block, so a body of at most `0xF000_0000` bytes always succeeds.
#[verifier::external_body]
fn zip_single(name: &str, body: &[u8]) -> (r: Result<Vec<u8>, String>)
    requires
        encode_utf8(name@).len() <= 65535,
    ensures
        r is Ok ==> r->Ok_0@ == zip_archive(name@, body@),
        body@.len() <= 0xF000_0000 ==> r is Ok,
{
    let mut buf = std::io::Cursor::new(Vec::new());
    let mut w = zip::ZipWriter::new(&mut buf);
    let options = zip::write::SimpleFileOptions::default().compression_method(zip::CompressionMethod::Deflated);
    if let Err(e) = w.start_file(name, options) {
        return Err(e.to_string());
    }
    if let Err(e) = std::io::Write::write_all(&mut w, body) {
        return Err(e.to_string());
    }
    if let Err(e) = w.finish() {
        return Err(e.to_string());
    }
    Ok(buf.into_inner())
}

/// The two archives of one list: the UTF-8 CSV as it is, and the CSV
/// re-encoded in Shift_JIS without its byte-order mark.
pub struct ZipPair {
    pub utf8_zip_name: String,
    pub utf8_zip: Vec<u8>,
    pub sjis_zip_name: String,
    pub sjis_zip: Vec<u8>,
    /// Length of the Shift_JIS CSV.
    pub sjis_len: usize,
    /// Whether some character had no Shift_JIS form.
    pub unmappable: bool,
}

/// `{base}_utf8.zip` holding `{base}_utf8.csv` (the body as it is) and
/// `{base}.zip` holding `{base}.csv` (the body in Shift_JIS).
pub fn zip_pair(base_name: &str, csv_body_utf8: &[u8]) -> (r: Result<ZipPair, String>)
    requires
        csv_body_utf8@.len() + 11 <= usize::MAX / 4 + 1,
        encode_utf8(base_name@ + "_utf8.csv"@).len() <= 65535,
        encode_utf8(base_name@ + ".csv"@).len() <= 65535,
    ensures
        !valid_utf8(without_bom(csv_body_utf8@)) ==> r is Err,
        valid_utf8(without_bom(csv_body_utf8@)) && csv_body_utf8@.len() <= 0x3C00_0000 ==> r is Ok,
        match r {
            Ok(p) => {
                let sj = shift_jis_encoding(decode_utf8(without_bom(csv_body_utf8@)));
                &&& valid_utf8(without_bom(csv_body_utf8@))
                &&& p.utf8_zip_name@ == base_name@ + "_utf8.zip"@
                &&& p.utf8_zip@ == zip_archive(base_name@ + "_utf8.csv"@, csv_body_utf8@)
                &&& p.sjis_zip_name@ == base_name@ + ".zip"@
                &&& p.sjis_zip@ == zip_archive(base_name@ + ".csv"@, sj.0)
                &&& p.sjis_len == sj.0.len()
                &&& p.unmappable == sj.1
            },
            Err(_) => true,
        },
{
    let mut utf8_zip_name = owned(base_name);
    utf8_zip_name.append("_utf8.zip");
    let mut utf8_csv_name = owned(base_name);
    utf8_csv_name.append("_utf8.csv");
    let utf8_zip = match zip_single(utf8_csv_name.as_str(), csv_body_utf8) {
        Ok(z) => z,
        Err(e) => return Err(e),
    };
    let (sjis, unmappable) = match encode_sjis_flagged(csv_body_utf8) {
        Ok(p) => p,
        Err(e) => return Err(e),
    };
    let mut sjis_zip_name = owned(base_name);
    sjis_zip_name.append(".zip");
    let mut sjis_csv_name = owned(base_name);
    sjis_csv_name.append(".csv");
    let sjis_zip = match zip_single(sjis_csv_name.as_str(), sjis.as_slice()) {
        Ok(z) => z,
        Err(e) => return Err(e),
    };
    Ok(ZipPair { utf8_zip_name, utf8_zip, sjis_zip_name, sjis_zip, sjis_len: sjis.len(), unmappable })
}

/// The text of an optional field of the extended list.
proof fn lemma_or_empty(o: Option<String>)
    ensures
        match o {
            Some(s) => or_empty(o) == s@,
            None => or_empty(o) == Seq::<char>::empty(),
        },
{
}

/// Where the blocks of an extended record stand: the work's fields, then
/// the person's, and the inputters and proofreaders after the two books.
proof fn lemma_extended_layout(r: ExtendedRow, main_site_url: Seq<char>)
    ensures
        extended_fields(r, main_site_url).len() == 55,
        forall|i: int| 0 <= i < 14 ==> #[trigger] extended_fields(r, main_site_url)[i] == work_fields(r)[i],
        forall|k: int| 0 <= k < 13 ==> #[trigger] extended_fields(r, main_site_url)[14 + k] == person_fields(r)[k],
        extended_fields(r, main_site_url)[43] == or_empty(r.inputer_text),
        extended_fields(r, main_site_url)[44] == or_empty(r.proofreader_text),
{
    let f = extended_fields(r, main_site_url);
    let w = work_fields(r);
    let p = person_fields(r);
    let wp = w + p;
    let b0 = book_fields(r, 0);
    let b1 = book_fields(r, 1);
    let ws = seq![or_empty(r.inputer_text), or_empty(r.proofreader_text)];
    let t = file_fields(r.text_url, r.text_filename, r.text_updated_at, r.text_encoding_name, r.text_charset_name,
        r.text_revision_count, r.first_author_id, main_site_url);
    let h = file_fields(r.html_url, r.html_filename, r.html_updated_at, r.html_encoding_name, r.html_charset_name,
        r.html_revision_count, r.first_author_id, main_site_url);
    assert(w.len() == 14);
    assert(p.len() == 13);
    assert(b0.len() == 8);
    assert(b1.len() == 8);
    assert(t.len() == 5);
    assert(h.len() == 5);
    let x1 = wp + b0;
    let x2 = x1 + b1;
    let x3 = x2 + ws;
    let x4 = x3 + t;
    assert(f == x4 + h);
    assert forall|i: int| 0 <= i < 45 implies f[i] == x3[i] by {
        assert(f[i] == x4[i]);
    }
    assert forall|i: int| 0 <= i < 27 implies x3[i] == wp[i] by {
        assert(x3[i] == x2[i]);
        assert(x2[i] == x1[i]);
    }
    assert forall|i: int| 0 <= i < 14 implies #[trigger] f[i] == w[i] by {
        assert(f[i] == x3[i]);
        assert(x3[i] == wp[i]);
    }
    assert forall|k: int| 0 <= k < 13 implies #[trigger] f[14 + k] == p[k] by {
        assert(f[14 + k] == x3[14 + k]);
        assert(x3[14 + k] == wp[14 + k]);
    }
    assert(f[43] == x3[43]);
    assert(f[44] == x3[44]);
}

/// An extended record has 55 fields.  The work's come first: id, title,
/// title reading, sort key, subtitle and its reading, original title, first
/// appearance, classification, kana type, and its copyright ("あり"/"なし").
/// Fields 15-27 are the person's: id, surname (姓), given name (名), their
/// readings, the two sort keys, the roman surname and given name, the role,
/// birth and death dates and the copyright.  Fields 44 and 45 are the
/// inputters and the proofreaders.  An absent text is an empty field.
pub proof fn lemma_extended_columns(r: ExtendedRow, main_site_url: Seq<char>)
    ensures
        ({
            let f = extended_fields(r, main_site_url);
            &&& f.len() == 55
            &&& f[0] == int_text(r.work_id as int)
            &&& f[1] == r.title@
            &&& f[2] == match r.title_kana { Some(s) => s@, None => Seq::<char>::empty() }
            &&& f[3] == match r.work_sortkey { Some(s) => s@, None => Seq::<char>::empty() }
            &&& f[4] == match r.subtitle { Some(s) => s@, None => Seq::<char>::empty() }
            &&& f[5] == match r.subtitle_kana { Some(s) => s@, None => Seq::<char>::empty() }
            &&& f[6] == match r.original_title { Some(s) => s@, None => Seq::<char>::empty() }
            &&& f[7] == match r.first_appearance { Some(s) => s@, None => Seq::<char>::empty() }
            &&& f[8] == match r.bibclasses_num { Some(s) => s@, None => Seq::<char>::empty() }
            &&& f[9] == match r.kana_type_name { Some(s) => s@, None => Seq::<char>::empty() }
            &&& f[10] == if r.work_copyright_flag { "あり"@ } else { "なし"@ }
            &&& f[14] == int_text(r.person_id as int)
            &&& f[15] == match r.last_name { Some(s) => s@, None => Seq::<char>::empty() }
            &&& f[16] == match r.first_name { Some(s) => s@, None => Seq::<char>::empty() }
            &&& f[17] == match r.last_name_kana { Some(s) => s@, None => Seq::<char>::empty() }
            &&& f[18] == match r.first_name_kana { Some(s) => s@, None => Seq::<char>::empty() }
            &&& f[19] == match r.person_sortkey { Some(s) => s@, None => Seq::<char>::empty() }
            &&& f[20] == match r.person_sortkey2 { Some(s) => s@, None => Seq::<char>::empty() }
            &&& f[21] == match r.last_name_en { Some(s) => s@, None => Seq::<char>::empty() }
            &&& f[22] == match r.first_name_en { Some(s) => s@, None => Seq::<char>::empty() }
            &&& f[23] == match r.role_name { Some(s) => s@, None => Seq::<char>::empty() }
            &&& f[24] == match r.born_on { Some(s) => s@, None => Seq::<char>::empty() }
            &&& f[25] == match r.died_on { Some(s) => s@, None => Seq::<char>::empty() }
            &&& f[26] == if r.person_copyright_flag { "あり"@ } else { "なし"@ }
            &&& f[43] == match r.inputer_text { Some(s) => s@, None => Seq::<char>::empty() }
            &&& f[44] == match r.proofreader_text { Some(s) => s@, None => Seq::<char>::empty() }
        }),
{
    lemma_extended_layout(r, main_site_url);
    let w = work_fields(r);
    let p = person_fields(r);
    assert(p[0] == int_text(r.person_id as int));
    assert(w[0] == int_text(r.work_id as int));
    lemma_or_empty(r.title_kana);
    lemma_or_empty(r.work_sortkey);
    lemma_or_empty(r.subtitle);
    lemma_or_empty(r.subtitle_kana);
    lemma_or_empty(r.original_title);
    lemma_or_empty(r.first_appearance);
    lemma_or_empty(r.bibclasses_num);
    lemma_or_empty(r.kana_type_name);
    lemma_or_empty(r.inputer_text);
    lemma_or_empty(r.proofreader_text);
    lemma_or_empty(r.last_name);
    lemma_or_empty(r.first_name);
    lemma_or_empty(r.last_name_kana);
    lemma_or_empty(r.first_name_kana);
    lemma_or_empty(r.person_sortkey);
    lemma_or_empty(r.person_sortkey2);
    lemma_or_empty(r.last_name_en);
    lemma_or_empty(r.first_name_en);
    lemma_or_empty(r.role_name);
    lemma_or_empty(r.born_on);
    lemma_or_empty(r.died_on);
}

} // verus!
