use komadome::json::{Json, JsonNumber};
use komadome::records::{check_file, check_totals, report_lines, specs, FileContent, JsonlLine};
use komadome::report::{
    extract, field_stats, push_capped, split_at_dots, value_to_key, DataFileSpec, Finding, Kind, Severity, CAP,
};
use komadome::report_html::{cell_text, esc, render, truncate};

fn spec_for(name: &str) -> DataFileSpec {
    specs().into_iter().find(|s| s.name == name).unwrap()
}

fn num(n: i64) -> Json {
    Json::Number(JsonNumber { text: n.to_string(), as_i64: Some(n), as_u64: if n >= 0 { Some(n as u64) } else { None } })
}

fn text(s: &str) -> Json {
    Json::String(s.to_string())
}

fn card_value() -> Json {
    Json::Object(vec![
        ("work_id".to_string(), num(1567)),
        ("person_id".to_string(), num(35)),
        ("title".to_string(), text("走れメロス")),
        ("copyright_flag".to_string(), Json::Bool(false)),
        ("note".to_string(), Json::Null),
    ])
}

fn has_message(findings: &[Finding], part: &str) -> bool {
    findings.iter().any(|f| f.message.contains(part))
}

#[test]
fn flags_structural_and_duplicate() {
    let lines = vec![
        JsonlLine::Record(card_value(), None),
        JsonlLine::Record(card_value(), None),
        JsonlLine::Record(
            Json::Object(vec![("broken".to_string(), Json::Bool(true))]),
            Some("missing field `work_id`".to_string()),
        ),
    ];
    let report = check_file(&spec_for("cards.jsonl"), FileContent::Lines(lines), None, 5);
    assert_eq!(report.record_count, 3);
    assert!(has_message(&report.findings, "DTO 不一致"));
    assert!(has_message(&report.findings, "ユニークキー重複"));
    assert!(!report.fields.is_empty());
    assert!(!report.samples.is_empty());
    let dup = report.findings.iter().find(|f| f.message.contains("ユニークキー重複")).unwrap();
    assert_eq!(dup.line, Some(2));
    assert_eq!(dup.message, "ユニークキー重複: (work_id, person_id) = 1567|35");
    let dto = report.findings.iter().find(|f| f.message.contains("DTO 不一致")).unwrap();
    assert_eq!(dto.line, Some(3));
    assert_eq!(dto.message, "DTO 不一致: missing field `work_id`");
}

#[test]
fn empty_file_warns_and_missing_file_warns() {
    let empty = check_file(&spec_for("news.jsonl"), FileContent::Lines(Vec::new()), None, 5);
    assert_eq!(empty.record_count, 0);
    assert!(empty.warns() >= 1);
    assert_eq!(empty.errors(), 0);

    let missing = check_file(&spec_for("cards.jsonl"), FileContent::Missing, None, 5);
    assert!(!missing.present);
    assert!(missing.warns() >= 1);
    assert_eq!(missing.findings[0].message, "ファイルが存在しません (未エクスポート?)");
}

#[test]
fn html_report_contains_badges_and_names() {
    let report = check_file(&spec_for("news.jsonl"), FileContent::Missing, None, 5);
    let html = render(&[report], "2026-06-22");
    assert!(html.contains("データ検査レポート"));
    assert!(html.contains("news.jsonl"));
    assert!(html.contains("MISSING"));
    assert!(html.contains("2026-06-22"));
}

#[test]
fn reading_skips_blank_lines_and_numbers_records_by_line() {
    let lines = vec![
        JsonlLine::Blank,
        JsonlLine::Unparsable("expected value at line 1 column 1".to_string()),
        JsonlLine::Record(card_value(), None),
        JsonlLine::Unreadable("stream did not contain valid UTF-8".to_string()),
    ];
    let report = check_file(&spec_for("cards.jsonl"), FileContent::Lines(lines), None, 1);
    assert_eq!(report.record_count, 1);
    assert_eq!(report.findings[0].line, Some(2));
    assert_eq!(report.findings[0].message, "JSON パース失敗: expected value at line 1 column 1");
    assert_eq!(report.findings[1].line, Some(4));
    assert_eq!(report.findings[1].message, "行読み取り失敗: stream did not contain valid UTF-8");
    assert_eq!(report.errors(), 2);
    assert_eq!(report.samples.len(), 1);
}

#[test]
fn single_json_failures_and_masters_load() {
    let spec = spec_for("masters.json");
    let unreadable = check_file(&spec, FileContent::Unreadable("denied".to_string()), None, 5);
    assert_eq!(unreadable.findings[0].message, "読み取り失敗: denied");
    assert_eq!(unreadable.findings[0].line, None);
    let unparsable = check_file(&spec, FileContent::Unparsable("EOF".to_string()), None, 5);
    assert_eq!(unparsable.findings[0].message, "JSON パース失敗: EOF");
    let loaded = check_file(&spec, FileContent::Whole(Json::Object(Vec::new()), None), Some("bad date".to_string()), 5);
    assert_eq!(loaded.record_count, 1);
    assert!(has_message(&loaded.findings, "Masters::load 失敗: bad date"));
    let other = check_file(&spec_for("top.json"), FileContent::Whole(Json::Object(Vec::new()), None), Some("x".to_string()), 5);
    assert!(!has_message(&other.findings, "Masters::load"));
    let open = check_file(&spec_for("news.jsonl"), FileContent::Unopenable("no access".to_string()), None, 5);
    assert_eq!(open.findings[0].message, "オープン失敗: no access");
}

#[test]
fn page_and_negative_count_checks() {
    let page = |p: i64, t: i64| {
        Json::Object(vec![("year".to_string(), num(p)), ("page".to_string(), num(p)), ("total_pages".to_string(), num(t))])
    };
    let lines = vec![
        JsonlLine::Record(page(1, 2), None),
        JsonlLine::Record(page(3, 2), None),
        JsonlLine::Record(Json::Object(vec![("year".to_string(), num(9)), ("work_count".to_string(), num(-1))]), None),
    ];
    let report = check_file(&spec_for("whatsnew.jsonl"), FileContent::Lines(lines), None, 5);
    assert!(has_message(&report.findings, "ページ範囲外: page=3 / total_pages=2"));
    assert!(has_message(&report.findings, "カウント負値: work_count=-1"));
}

#[test]
fn push_capped_stops_at_the_cap() {
    let mut findings = Vec::new();
    for i in 0..30 {
        push_capped(&mut findings, Severity::Error, Some(i), format!("X: {i}"), "X");
    }
    assert_eq!(findings.len(), CAP + 1);
    assert_eq!(findings[CAP].message, "X: 他にも検出 (表示は20件で打ち切り)");
    assert_eq!(findings[CAP].line, None);
}

#[test]
fn errors_and_warns_add_up() {
    let report = check_file(&spec_for("news.jsonl"), FileContent::Unopenable("x".to_string()), None, 5);
    assert_eq!(report.errors() + report.warns(), report.findings.len());
    assert_eq!(report.errors(), 1);
    assert_eq!(report.warns(), 1);
}

#[test]
fn specs_cover_every_export() {
    let all = specs();
    assert_eq!(all.len(), 12);
    assert_eq!(all[0].name, "masters.json");
    assert!(all[0].kind == Kind::SingleJson);
    assert_eq!(all[2].unique_key, &["work_id", "person_id"]);
    assert_eq!(all[3].unique_key, &["person.id"]);
    assert_eq!(all[11].label, "そらもよう");
}

#[test]
fn dotted_paths_and_keys() {
    assert_eq!(split_at_dots("person.id"), vec!["person", "id"]);
    let v = Json::Object(vec![("person".to_string(), Json::Object(vec![("id".to_string(), num(7))]))]);
    assert_eq!(value_to_key(extract(&v, "person.id").unwrap()), "7");
    assert!(extract(&v, "person.name").is_none());
    assert_eq!(value_to_key(&text("あ")), "あ");
}

#[test]
fn field_stats_count_kinds() {
    let recs = vec![(1, card_value()), (2, Json::Object(vec![("note".to_string(), text("x"))]))];
    let stats = field_stats(&recs);
    let note = stats.iter().find(|s| s.name == "note").unwrap();
    assert_eq!(note.present, 2);
    assert_eq!(note.null, 1);
    let flag = stats.iter().find(|s| s.name == "copyright_flag").unwrap();
    assert_eq!(flag.ty, "bool");
    assert_eq!(flag.bool_false, 1);
}

#[test]
fn console_lines() {
    let report = check_file(&spec_for("news.jsonl"), FileContent::Missing, None, 5);
    let lines = report_lines(&report);
    assert_eq!(lines[0], format!("  [MISSING] {:<26} ", "news.jsonl"));
    assert_eq!(lines[1], "      WARN: ファイルが存在しません (未エクスポート?)");
}

#[test]
fn html_helpers() {
    assert_eq!(esc("<a href=\"x\">&</a>"), "&lt;a href=&quot;x&quot;&gt;&amp;&lt;/a&gt;");
    assert_eq!(truncate("あいうえお", 3), "あいう…");
    assert_eq!(truncate("abc", 3), "abc");
    assert_eq!(cell_text(&Json::Null), "—");
    assert_eq!(cell_text(&Json::Array(vec![Json::Null, Json::Null])), "[2 件]");
    let obj = Json::Object(vec![("id".to_string(), num(3)), ("name".to_string(), text("太宰"))]);
    assert_eq!(cell_text(&obj), "3: 太宰");
    let only_id = Json::Object(vec![("person_id".to_string(), text("000035"))]);
    assert_eq!(cell_text(&only_id), "id=\"000035\"");
    assert_eq!(cell_text(&Json::Object(Vec::new())), "{…}");
}

#[test]
fn html_sections_show_samples() {
    let lines = vec![JsonlLine::Record(card_value(), None)];
    let report = check_file(&spec_for("cards.jsonl"), FileContent::Lines(lines), None, 5);
    let html = render(&[report], "2024-01-01");
    assert!(html.contains("<th>work_id</th>"));
    assert!(html.contains("<td>走れメロス</td>"));
    assert!(html.contains("サンプル (先頭 1 件)"));
    assert!(html.contains("OK 1"));
}

#[test]
fn totals_sum_over_files_and_fail_on_errors() {
    let lines = vec![
        JsonlLine::Record(card_value(), None),
        JsonlLine::Record(card_value(), None),
        JsonlLine::Unparsable("expected value".to_string()),
    ];
    let cards = check_file(&spec_for("cards.jsonl"), FileContent::Lines(lines), None, 5);
    let missing = check_file(&spec_for("news.jsonl"), FileContent::Missing, None, 5);
    let errors = cards.errors() + missing.errors();
    let warns = cards.warns() + missing.warns();
    assert!(errors >= 2);
    assert_eq!(check_totals(&vec![cards, missing]), (errors, warns, true));
    let only_missing = check_file(&spec_for("news.jsonl"), FileContent::Missing, None, 5);
    assert_eq!(check_totals(&vec![only_missing]), (0, 1, false));
    assert_eq!(check_totals(&Vec::new()), (0, 0, false));
}
