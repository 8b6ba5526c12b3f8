use std::io::{Cursor, Read};

use komadome::json::{Json, JsonNumber};
use komadome::models::{Date, DateTime};
use komadome::zip_csv::{
    basic_record, build_download_url, card_url, csv_body, csv_record, encode_sjis, encode_sjis_flagged,
    extended_record, finished_basic_csv, format_workfile_timestamp, json_str, write_header, zip_pair, BasicRow,
    ExtendedRow, FINISHED_BASIC, FINISHED_EXTENDED, INP_BASIC,
};

fn unzip(bytes: &[u8]) -> (String, Vec<u8>) {
    let mut archive = zip::ZipArchive::new(Cursor::new(bytes.to_vec())).unwrap();
    assert_eq!(archive.len(), 1);
    let mut entry = archive.by_index(0).unwrap();
    let name = entry.name().to_string();
    let mut content = Vec::new();
    entry.read_to_end(&mut content).unwrap();
    (name, content)
}

#[test]
fn write_header_produces_bom_and_header() {
    let mut buf = Vec::new();
    write_header(&mut buf, "a,b,c\r\n").unwrap();
    assert_eq!(&buf[..3], b"\xEF\xBB\xBF");
    assert_eq!(&buf[3..], b"a,b,c\r\n");
}

#[test]
fn encode_sjis_strips_bom() {
    let mut buf = Vec::new();
    write_header(&mut buf, "abc\r\n").unwrap();
    let sjis = encode_sjis(&buf).unwrap();
    assert_eq!(sjis, b"abc\r\n");
}

#[test]
fn encode_sjis_handles_japanese() {
    let mut buf = Vec::new();
    write_header(&mut buf, "テスト\r\n").unwrap();
    let sjis = encode_sjis(&buf).unwrap();
    assert_eq!(sjis, b"\x83\x65\x83\x58\x83\x67\r\n");
}

#[test]
fn encode_sjis_keeps_text_without_bom() {
    assert_eq!(encode_sjis(b"xyz").unwrap(), b"xyz");
}

#[test]
fn encode_sjis_rejects_invalid_utf8() {
    let err = encode_sjis(b"\xEF\xBB\xBF\xff\xfe").unwrap_err();
    assert_eq!(err, "CSV body is not valid UTF-8 (this is a programming error)");
}

#[test]
fn encode_sjis_flags_unmappable_characters() {
    let (bytes, unmappable) = encode_sjis_flagged("😀".as_bytes()).unwrap();
    assert!(unmappable);
    assert_eq!(bytes, b"&#128512;");
    let (_, fine) = encode_sjis_flagged("漢字".as_bytes()).unwrap();
    assert!(!fine);
}

#[test]
fn make_csv_writer_quotes_and_uses_crlf() {
    let fields = vec!["1".to_string(), "abc".to_string(), String::new()];
    let buf = csv_record(&fields).unwrap();
    assert_eq!(&buf[..], b"\"1\",\"abc\",\"\"\r\n");
}

#[test]
fn csv_record_doubles_quotes() {
    let fields = vec!["say \"hi\"".to_string(), "a,b".to_string()];
    assert_eq!(csv_record(&fields).unwrap(), b"\"say \"\"hi\"\"\",\"a,b\"\r\n");
    assert_eq!(csv_record(&Vec::new()).unwrap(), b"\"\"\r\n");
}

#[test]
fn csv_body_is_bom_header_and_lines() {
    let records = vec![vec!["1".to_string(), "テスト".to_string()], vec!["2".to_string(), "x".to_string()]];
    let body = csv_body("id,名前\r\n", &records).unwrap();
    let mut expected = b"\xEF\xBB\xBF".to_vec();
    expected.extend_from_slice("id,名前\r\n\"1\",\"テスト\"\r\n\"2\",\"x\"\r\n".as_bytes());
    assert_eq!(body, expected);
}

#[test]
fn write_zip_roundtrip() {
    let pair = zip_pair("test", b"a,b,c\r\n").unwrap();
    let (name, content) = unzip(&pair.sjis_zip);
    assert_eq!(name, "test.csv");
    assert_eq!(content, b"a,b,c\r\n");
    let (name, content) = unzip(&pair.utf8_zip);
    assert_eq!(name, "test_utf8.csv");
    assert_eq!(content, b"a,b,c\r\n");
}

#[test]
fn write_pair_creates_both_zips() {
    let mut buf = Vec::new();
    write_header(&mut buf, "id,名前\r\n").unwrap();
    buf.extend_from_slice(&csv_record(&vec!["1".to_string(), "テスト".to_string()]).unwrap());
    let pair = zip_pair("demo", &buf).unwrap();
    assert_eq!(pair.sjis_zip_name, "demo.zip");
    assert_eq!(pair.utf8_zip_name, "demo_utf8.zip");
    let (_, content) = unzip(&pair.utf8_zip);
    assert!(content.starts_with(b"\xEF\xBB\xBF"));
    assert_eq!(content, buf);
    let (name, sjis) = unzip(&pair.sjis_zip);
    assert_eq!(name, "demo.csv");
    assert_eq!(sjis, encode_sjis(&buf).unwrap());
    assert_eq!(pair.sjis_len, sjis.len());
    assert!(!pair.unmappable);
}

#[test]
fn headers_have_their_column_counts() {
    assert_eq!(INP_BASIC.trim_end().split(',').count(), 13);
    assert_eq!(FINISHED_BASIC.trim_end().split(',').count(), 14);
    assert_eq!(FINISHED_EXTENDED.trim_end().split(',').count(), 55);
    assert!(FINISHED_EXTENDED.ends_with("\r\n"));
}

#[test]
fn download_url_prefers_own_address() {
    assert_eq!(build_download_url(Some("https://x/y.zip"), Some("f.zip"), Some(1), "https://m"), "https://x/y.zip");
    assert_eq!(build_download_url(Some(""), Some("f.zip"), Some(35), "https://m"), "https://m/cards/000035/files/f.zip");
    assert_eq!(build_download_url(None, Some("f.zip"), Some(1234567), "https://m"), "https://m/cards/1234567/files/f.zip");
    assert_eq!(build_download_url(None, Some(""), Some(1), "https://m"), "");
    assert_eq!(build_download_url(None, Some("f.zip"), None, "https://m"), "");
    assert_eq!(build_download_url(None, None, Some(1), "https://m"), "");
}

#[test]
fn card_url_pads_author() {
    assert_eq!(card_url(Some(35), 1567), "https://www.aozora.gr.jp/cards/000035/card1567.html");
    assert_eq!(card_url(None, 1567), "");
}

#[test]
fn workfile_timestamp_has_offset() {
    let t = DateTime { date: Date { year: 2024, month: 12, day: 1 }, hour: 9, minute: 5, second: 7 };
    assert_eq!(format_workfile_timestamp(&Some(t)), "2024-12-01 09:05:07 +0900");
    assert_eq!(format_workfile_timestamp(&None), "");
}

fn text(s: &str) -> Json {
    Json::String(s.to_string())
}

fn book(title: &str, publisher: Option<&str>) -> Json {
    let mut members = vec![("title".to_string(), text(title))];
    members.push(("publisher".to_string(), match publisher {
        Some(p) => text(p),
        None => Json::Null,
    }));
    Json::Object(members)
}

#[test]
fn json_str_reads_array_members() {
    let arr = Some(Json::Array(vec![book("底本A", Some("出版社")), book("底本B", None)]));
    assert_eq!(json_str(&arr, 0, "title"), "底本A");
    assert_eq!(json_str(&arr, 0, "publisher"), "出版社");
    assert_eq!(json_str(&arr, 1, "publisher"), "");
    assert_eq!(json_str(&arr, 2, "title"), "");
    assert_eq!(json_str(&None, 0, "title"), "");
    let number = Some(Json::Number(JsonNumber { text: "1".to_string(), as_i64: Some(1), as_u64: Some(1) }));
    assert_eq!(json_str(&number, 0, "title"), "");
}

fn extended_row() -> ExtendedRow {
    ExtendedRow {
        work_id: 1567,
        title: "走れメロス".to_string(),
        title_kana: Some("はしれめろす".to_string()),
        work_sortkey: Some("はしれめろす".to_string()),
        subtitle: None,
        subtitle_kana: None,
        original_title: None,
        first_appearance: Some("「新潮」".to_string()),
        bibclasses_num: Some("913".to_string()),
        kana_type_name: Some("新字新仮名".to_string()),
        work_copyright_flag: false,
        started_on: Some(Date { year: 2000, month: 12, day: 4 }),
        work_updated_at: Some(DateTime { date: Date { year: 2011, month: 1, day: 17 }, hour: 3, minute: 4, second: 5 }),
        first_author_id: Some(35),
        person_id: 35,
        last_name: Some("太宰".to_string()),
        first_name: Some("治".to_string()),
        last_name_kana: Some("だざい".to_string()),
        first_name_kana: Some("おさむ".to_string()),
        person_sortkey: Some("たさい".to_string()),
        person_sortkey2: Some("おさむ".to_string()),
        last_name_en: Some("Dazai".to_string()),
        first_name_en: Some("Osamu".to_string()),
        role_name: Some("著者".to_string()),
        born_on: Some("1909-06-19".to_string()),
        died_on: Some("1948-06-13".to_string()),
        person_copyright_flag: true,
        teihon_json: Some(Json::Array(vec![book("太宰治全集3", Some("筑摩書房"))])),
        oyahon_json: None,
        inputer_text: Some("金川一之".to_string()),
        proofreader_text: Some("高橋美奈子".to_string()),
        text_url: None,
        text_filename: Some("1567_ruby_4948.zip".to_string()),
        text_updated_at: Some(DateTime { date: Date { year: 2011, month: 1, day: 17 }, hour: 12, minute: 34, second: 56 }),
        text_revision_count: Some(2),
        text_encoding_name: Some("ShiftJIS".to_string()),
        text_charset_name: Some("JIS X 0208".to_string()),
        html_url: Some("https://example.org/x.html".to_string()),
        html_filename: None,
        html_updated_at: None,
        html_revision_count: None,
        html_encoding_name: None,
        html_charset_name: None,
    }
}

#[test]
fn extended_record_has_55_fields_in_header_order() {
    let f = extended_record(&extended_row(), "https://www.aozora.gr.jp");
    assert_eq!(f.len(), 55);
    assert_eq!(f[0], "1567");
    assert_eq!(f[1], "走れメロス");
    assert_eq!(f[10], "なし");
    assert_eq!(f[11], "2000-12-04");
    assert_eq!(f[12], "2011-01-17");
    assert_eq!(f[13], "https://www.aozora.gr.jp/cards/000035/card1567.html");
    assert_eq!(f[14], "35");
    assert_eq!(f[26], "あり");
    assert_eq!(f[27], "太宰治全集3");
    assert_eq!(f[28], "筑摩書房");
    assert_eq!(f[29], "");
    assert_eq!(f[35], "");
    assert_eq!(f[43], "金川一之");
    assert_eq!(f[45], "https://www.aozora.gr.jp/cards/000035/files/1567_ruby_4948.zip");
    assert_eq!(f[46], "2011-01-17 12:34:56 +0900");
    assert_eq!(f[49], "2");
    assert_eq!(f[50], "https://example.org/x.html");
    assert_eq!(f[51], "");
    assert_eq!(f[54], "");
}

#[test]
fn basic_record_and_body() {
    let row = BasicRow {
        person_id: 35,
        person_name: "太宰 治".to_string(),
        work_id: 1567,
        work_title: "走れメロス".to_string(),
        kana_type_name: Some("新字新仮名".to_string()),
        not_author_text: None,
        inputer_text: Some("金川一之".to_string()),
        proofreader_text: None,
        work_status_name: Some("公開中".to_string()),
        started_on: Some(Date { year: 2000, month: 12, day: 4 }),
        teihon_title: None,
        teihon_publisher: None,
        teihon_input_edition: None,
        teihon_proof_edition: None,
    };
    let f = basic_record(&row);
    assert_eq!(f.len(), 14);
    assert_eq!(f[0], "35");
    assert_eq!(f[5], "");
    assert_eq!(f[9], "2000-12-04");
    let body = finished_basic_csv(&vec![row]).unwrap();
    let text = String::from_utf8(body[3..].to_vec()).unwrap();
    assert!(text.starts_with(FINISHED_BASIC));
    assert!(text.ends_with("\"35\",\"太宰 治\",\"1567\",\"走れメロス\",\"新字新仮名\",\"\",\"金川一之\",\"\",\"公開中\",\"2000-12-04\",\"\",\"\",\"\",\"\"\r\n"));
}

#[test]
fn unmappable_text_still_makes_both_archives() {
    let mut buf = Vec::new();
    write_header(&mut buf, "名前\r\n").unwrap();
    buf.extend_from_slice(&csv_record(&vec!["é😀".to_string()]).unwrap());
    let pair = zip_pair("odd", &buf).unwrap();
    assert!(pair.unmappable);
    let (_, sjis) = unzip(&pair.sjis_zip);
    assert!(sjis.ends_with(b"\"&#233;&#128512;\"\r\n"));
    assert!(sjis.len() <= 4 * (buf.len() - 3));
    assert_eq!(pair.sjis_len, sjis.len());
}
