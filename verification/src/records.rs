//! Reading a data file's records and checking the file as a whole: what the
//! reader saw (lines, parse failures, the record type's complaints) becomes
//! numbered records and findings, then the semantic checks, samples and
//! field statistics.
use vstd::prelude::*;
use crate::json::Json;
use crate::report::{
    Candidate, DataFileSpec, Kind, FileReport, count_severity, Finding, Severity, apply_capped, capped_push, field_stats,
    findings_view, key_paths, push_candidate, push_capped, record_values, semantic_checks,
    semantic_findings, stats_of, stats_view, total_members,
};
use crate::text::{digits, owned, push_char, push_digits, str_equal};

verus! {

/// One line of a JSONL file as the reader saw it.
pub enum JsonlLine {
    /// Empty, or only white space.
    Blank,
    /// A JSON value, with the record type's complaint when the value does not
    /// deserialise into it.
    Record(Json, Option<String>),
    /// Not JSON; the parser's message.
    Unparsable(String),
    /// The line could not be read; the reader's message.
    Unreadable(String),
}

/// What reading a data file gave.
pub enum FileContent {
    /// The file does not exist.
    Missing,
    /// A JSONL file that could not be opened; the reason.
    Unopenable(String),
    /// The lines of a JSONL file.
    Lines(Vec<JsonlLine>),
    /// A single-JSON file that could not be read; the reason.
    Unreadable(String),
    /// A single-JSON file that is not JSON; the parser's message.
    Unparsable(String),
    /// The value of a single-JSON file, with the record type's complaint.
    Whole(Json, Option<String>),
}

/// Plain findings: severity, line, message.
pub type Findings = Seq<(Severity, Option<usize>, Seq<char>)>;

/// The records of the lines, numbered from 1 by line.
pub open spec fn jsonl_records(lines: Seq<JsonlLine>) -> Seq<(usize, Json)>
    decreases lines.len(),
{
    if lines.len() == 0 {
        Seq::empty()
    } else {
        let prev = jsonl_records(lines.drop_last());
        match lines.last() {
            JsonlLine::Record(v, _) => prev.push((lines.len() as usize, v)),
            _ => prev,
        }
    }
}

/// Findings of reading the lines: every unreadable line, and the unparsable
/// ones under the per-kind cap.
pub open spec fn jsonl_read_findings(fs: Findings, lines: Seq<JsonlLine>) -> Findings
    decreases lines.len(),
{
    if lines.len() == 0 {
        fs
    } else {
        let prev = jsonl_read_findings(fs, lines.drop_last());
        let n = lines.len() as usize;
        match lines.last() {
            JsonlLine::Unreadable(e) => prev.push((Severity::Error, Some(n), "行読み取り失敗: "@ + e@)),
            JsonlLine::Unparsable(e) => capped_push(
                prev,
                (Severity::Error, Some(n), "JSON パース失敗: "@ + e@),
                "JSON パース失敗"@,
            ),
            _ => prev,
        }
    }
}

/// One error for every record that does not fit the record type.
pub open spec fn jsonl_dto_candidates(lines: Seq<JsonlLine>) -> Seq<Candidate>
    decreases lines.len(),
{
    if lines.len() == 0 {
        Seq::empty()
    } else {
        let prev = jsonl_dto_candidates(lines.drop_last());
        match lines.last() {
            JsonlLine::Record(_, Some(m)) => prev.push(
                (Severity::Error, Some(lines.len() as usize), "DTO 不一致: "@ + m@, "DTO 不一致"@),
            ),
            _ => prev,
        }
    }
}

/// The numbered records of a file.
pub open spec fn content_records(c: FileContent) -> Seq<(usize, Json)> {
    match c {
        FileContent::Lines(ls) => jsonl_records(ls@),
        FileContent::Whole(v, _) => seq![(1usize, v)],
        _ => Seq::empty(),
    }
}

/// Findings of reading a file.
pub open spec fn read_findings(c: FileContent) -> Findings {
    match c {
        FileContent::Unopenable(e) => seq![(Severity::Error, None, "オープン失敗: "@ + e@)],
        FileContent::Lines(ls) => jsonl_read_findings(Seq::empty(), ls@),
        FileContent::Unreadable(e) => seq![(Severity::Error, None, "読み取り失敗: "@ + e@)],
        FileContent::Unparsable(e) => seq![(Severity::Error, None, "JSON パース失敗: "@ + e@)],
        _ => Seq::empty(),
    }
}

/// Errors for the records that do not fit the record type.
pub open spec fn dto_candidates(c: FileContent) -> Seq<Candidate> {
    match c {
        FileContent::Lines(ls) => jsonl_dto_candidates(ls@),
        FileContent::Whole(_, Some(m)) => seq![
            (Severity::Error, Some(1usize), "DTO 不一致: "@ + m@, "DTO 不一致"@),
        ],
        _ => Seq::empty(),
    }
}

/// The masters file is loaded once more as the site build loads it; its
/// failure is an error.
pub open spec fn masters_findings(fs: Findings, name: Seq<char>, masters_error: Option<String>) -> Findings {
    if name == "masters.json"@ {
        match masters_error {
            Some(e) => fs.push((Severity::Error, None, "Masters::load 失敗: "@ + e@)),
            None => fs,
        }
    } else {
        fs
    }
}

/// All findings of a file: a single warning when it is missing; else those
/// of reading, of the record type, of the masters load, then the semantic
/// ones.
pub open spec fn file_findings(
    name: Seq<char>,
    paths: Seq<Seq<char>>,
    c: FileContent,
    masters_error: Option<String>,
) -> Findings {
    match c {
        FileContent::Missing => seq![(Severity::Warn, None, "ファイルが存在しません (未エクスポート?)"@)],
        _ => semantic_findings(
            masters_findings(apply_capped(read_findings(c), dto_candidates(c)), name, masters_error),
            paths,
            content_records(c),
        ),
    }
}

/// Error candidates for the record-type complaints, in line order.
pub open spec fn complaint_candidates(d: Seq<(usize, String)>) -> Seq<Candidate> {
    d.map_values(|p: (usize, String)| (Severity::Error, Some(p.0), p.1@, "DTO 不一致"@))
}

/// Numbers the records of the lines and records the reading findings; the
/// complaints of the record type come back as full messages by line.
fn read_lines(lines: Vec<JsonlLine>, findings: &mut Vec<Finding>) -> (r: (Vec<(usize, Json)>, Vec<(usize, String)>))
    ensures
        r.0@ == jsonl_records(lines@),
        complaint_candidates(r.1@) == jsonl_dto_candidates(lines@),
        findings_view(final(findings)@) == jsonl_read_findings(findings_view(old(findings)@), lines@),
{
    let ghost ls = lines@;
    let ghost base = findings_view(findings@);
    let mut records: Vec<(usize, Json)> = Vec::new();
    let mut complaints: Vec<(usize, String)> = Vec::new();
    assert(ls.len() == lines.len());
    let mut rest = lines;
    let mut rev: Vec<JsonlLine> = Vec::new();
    while rest.len() > 0
        invariant
            rest@.len() + rev@.len() == ls.len(),
            rest@ == ls.take(rest@.len() as int),
            forall|j: int| 0 <= j < rev@.len() ==> #[trigger] rev@[j] == ls[ls.len() - 1 - j],
        decreases rest.len(),
    {
        let ghost before = rest@;
        let x = rest.pop().unwrap();
        assert(ls.take(rest@.len() as int) =~= before.drop_last());
        rev.push(x);
    }
    let mut n: usize = 0;
    while rev.len() > 0
        invariant
            n + rev@.len() == ls.len(),
            ls.len() <= usize::MAX,
            forall|j: int| 0 <= j < rev@.len() ==> #[trigger] rev@[j] == ls[ls.len() - 1 - j],
            records@ == jsonl_records(ls.take(n as int)),
            complaint_candidates(complaints@) == jsonl_dto_candidates(ls.take(n as int)),
            findings_view(findings@) == jsonl_read_findings(base, ls.take(n as int)),
        decreases rev.len(),
    {
        let ghost pre = ls.take(n as int);
        let line = rev.pop().unwrap();
        assert(line == ls[n as int]);
        assert(ls.take(n + 1).drop_last() =~= pre);
        assert(ls.take(n + 1).last() == line);
        let num = n + 1;
        match line {
            JsonlLine::Blank => {},
            JsonlLine::Record(v, complaint) => {
                records.push((num, v));
                match complaint {
                    Some(m) => {
                        let ghost cc = complaint_candidates(complaints@);
                        let mut msg = owned("DTO 不一致: ");
                        msg.append(m.as_str());
                        complaints.push((num, msg));
                        assert(complaint_candidates(complaints@) =~= cc.push(
                            (Severity::Error, Some(num), "DTO 不一致: "@ + m@, "DTO 不一致"@),
                        ));
                    },
                    None => {},
                }
            },
            JsonlLine::Unparsable(e) => {
                let mut msg = owned("JSON パース失敗: ");
                msg.append(e.as_str());
                push_capped(findings, Severity::Error, Some(num), msg, "JSON パース失敗");
            },
            JsonlLine::Unreadable(e) => {
                let ghost fv = findings_view(findings@);
                let mut msg = owned("行読み取り失敗: ");
                msg.append(e.as_str());
                let ghost mv = msg@;
                findings.push(Finding { severity: Severity::Error, line: Some(num), message: msg });
                assert(findings_view(findings@) =~= fv.push((Severity::Error, Some(num), mv)));
            },
        }
        n = num;
    }
    assert(ls.take(ls.len() as int) =~= ls);
    (records, complaints)
}

/// Adds the complaints of the record type, in line order, under the cap.
fn push_complaints(findings: &mut Vec<Finding>, complaints: &Vec<(usize, String)>)
    ensures
        findings_view(final(findings)@) == apply_capped(findings_view(old(findings)@), complaint_candidates(complaints@)),
{
    let ghost base = findings_view(findings@);
    let ghost all = complaint_candidates(complaints@);
    let mut i: usize = 0;
    assert(all.take(0) =~= Seq::<Candidate>::empty());
    while i < complaints.len()
        invariant
            i <= complaints.len(),
            all == complaint_candidates(complaints@),
            findings_view(findings@) == apply_capped(base, all.take(i as int)),
        decreases complaints.len() - i,
    {
        let msg = owned(complaints[i].1.as_str());
        push_candidate(findings, Severity::Error, Some(complaints[i].0), msg, "DTO 不一致", Ghost(all.take(i as int)), Ghost(base));
        assert(all.take(i as int).push(all[i as int]) =~= all.take(i + 1));
        i = i + 1;
    }
    assert(all.take(complaints.len() as int) =~= all);
}

/// Appends an error finding with no line.
fn push_error(findings: &mut Vec<Finding>, head: &str, detail: &str)
    ensures
        findings_view(final(findings)@) == findings_view(old(findings)@).push((Severity::Error, None, head@ + detail@)),
{
    let ghost before = findings_view(findings@);
    let mut msg = owned(head);
    msg.append(detail);
    let ghost mv = msg@;
    findings.push(Finding { severity: Severity::Error, line: None, message: msg });
    assert(findings_view(findings@) =~= before.push((Severity::Error, None, mv)));
}

/// Checks one data file from what reading it gave: a missing file is a
/// single warning; otherwise the reading findings, the records that do not
/// fit the record type, the masters load (for the masters file), the
/// semantic checks, the first `sample_n` records and the field statistics.
pub fn check_file(spec: &DataFileSpec, content: FileContent, masters_error: Option<String>, sample_n: usize) -> (r: FileReport)
    requires
        total_members(record_values(content_records(content))) <= usize::MAX,
    ensures
        r.name@ == spec.name@,
        r.label@ == spec.label@,
        r.present == !(content is Missing),
        r.record_count == content_records(content).len(),
        findings_view(r.findings@) == file_findings(spec.name@, key_paths(spec.unique_key@), content, masters_error),
        r.samples@ == record_values(content_records(content)).take(
            if sample_n < content_records(content).len() { sample_n as int } else { content_records(content).len() as int },
        ),
        stats_view(r.fields@) == stats_of(record_values(content_records(content))),
{
    let ghost c = content;
    let mut report = FileReport {
        name: owned(spec.name),
        label: owned(spec.label),
        present: true,
        record_count: 0,
        findings: Vec::new(),
        samples: Vec::new(),
        fields: Vec::new(),
    };
    assert(findings_view(report.findings@) =~= Seq::empty());
    let (mut records, complaints) = match content {
        FileContent::Missing => {
            report.present = false;
            report.findings.push(Finding { severity: Severity::Warn, line: None, message: owned("ファイルが存在しません (未エクスポート?)") });
            assert(findings_view(report.findings@) =~= file_findings(spec.name@, key_paths(spec.unique_key@), c, masters_error));
            assert(record_values(content_records(c)) =~= Seq::<Json>::empty());
            assert(report.samples@ =~= record_values(content_records(c)).take(0));
            return report;
        },
        FileContent::Unopenable(e) => {
            push_error(&mut report.findings, "オープン失敗: ", e.as_str());
            (Vec::new(), Vec::new())
        },
        FileContent::Lines(lines) => read_lines(lines, &mut report.findings),
        FileContent::Unreadable(e) => {
            push_error(&mut report.findings, "読み取り失敗: ", e.as_str());
            (Vec::new(), Vec::new())
        },
        FileContent::Unparsable(e) => {
            push_error(&mut report.findings, "JSON パース失敗: ", e.as_str());
            (Vec::new(), Vec::new())
        },
        FileContent::Whole(v, complaint) => {
            let mut complaints: Vec<(usize, String)> = Vec::new();
            match complaint {
                Some(m) => {
                    let mut msg = owned("DTO 不一致: ");
                    msg.append(m.as_str());
                    complaints.push((1, msg));
                },
                None => {},
            }
            let mut recs: Vec<(usize, Json)> = Vec::new();
            recs.push((1, v));
            (recs, complaints)
        },
    };
    assert(records@ == content_records(c));
    assert(complaint_candidates(complaints@) =~= dto_candidates(c));
    assert(findings_view(report.findings@) == read_findings(c));
    report.record_count = records.len();
    push_complaints(&mut report.findings, &complaints);
    if str_equal(spec.name, "masters.json") {
        match masters_error {
            Some(e) => push_error(&mut report.findings, "Masters::load 失敗: ", e.as_str()),
            None => {},
        }
    }
    semantic_checks(spec, records.as_slice(), &mut report);
    report.fields = field_stats(records.as_slice());
    let ghost vals = record_values(records@);
    let k = if sample_n < records.len() { sample_n } else { records.len() };
    records.truncate(k);
    let mut samples: Vec<Json> = Vec::new();
    let mut i: usize = 0;
    while i < k
        invariant
            i <= k <= vals.len(),
            records@.len() == k - i,
            forall|j: int| 0 <= j < records@.len() ==> #[trigger] records@[j].1 == vals[i + j],
            samples@ == vals.take(i as int),
        decreases k - i,
    {
        let (_, v) = records.remove(0);
        samples.push(v);
        assert(samples@ =~= vals.take(i + 1));
        i = i + 1;
    }
    report.samples = samples;
    report
}

/// A file's name, label, kind and unique-key paths.
pub open spec fn spec_view(s: DataFileSpec) -> (Seq<char>, Seq<char>, Kind, Seq<Seq<char>>) {
    (s.name@, s.label@, s.kind, key_paths(s.unique_key@))
}

/// The data files that the export writes, with their labels, kinds and
/// unique keys.
pub open spec fn data_files() -> Seq<(Seq<char>, Seq<char>, Kind, Seq<Seq<char>>)> {
    seq![
        ("masters.json"@, "マスタ"@, Kind::SingleJson, seq![]),
        ("top.json"@, "トップページ"@, Kind::SingleJson, seq![]),
        ("cards.jsonl"@, "図書カード"@, Kind::Jsonl, seq!["work_id"@, "person_id"@]),
        ("person_pages.jsonl"@, "人物ページ"@, Kind::Jsonl, seq!["person.id"@]),
        ("work_indexes.jsonl"@, "公開作品索引"@, Kind::Jsonl, seq!["kana_symbol"@, "page"@]),
        ("person_indexes.jsonl"@, "公開人物索引"@, Kind::Jsonl, seq!["kana_column"@]),
        ("person_all_indexes.jsonl"@, "登録全作家索引"@, Kind::Jsonl, seq!["kana_column"@]),
        ("wip_work_indexes.jsonl"@, "作業中作品索引"@, Kind::Jsonl, seq!["kana_symbol"@, "page"@]),
        ("wip_person_indexes.jsonl"@, "作業中人物索引"@, Kind::Jsonl, seq!["kana_column"@]),
        ("list_inp.jsonl"@, "作業中作家別一覧"@, Kind::Jsonl, seq!["person_id"@, "page"@]),
        ("whatsnew.jsonl"@, "新着公開"@, Kind::Jsonl, seq!["year"@, "page"@]),
        ("news.jsonl"@, "そらもよう"@, Kind::Jsonl, seq!["year"@]),
    ]
}

/// The checks of every data file that the export writes.
pub fn specs() -> (r: Vec<DataFileSpec>)
    ensures
        r@.map_values(|s: DataFileSpec| spec_view(s)) == data_files(),
{
    let mut v: Vec<DataFileSpec> = Vec::new();
    v.push(DataFileSpec { name: "masters.json", label: "マスタ", kind: Kind::SingleJson, unique_key: &[] });
    v.push(DataFileSpec { name: "top.json", label: "トップページ", kind: Kind::SingleJson, unique_key: &[] });
    v.push(DataFileSpec { name: "cards.jsonl", label: "図書カード", kind: Kind::Jsonl, unique_key: &["work_id", "person_id"] });
    v.push(DataFileSpec { name: "person_pages.jsonl", label: "人物ページ", kind: Kind::Jsonl, unique_key: &["person.id"] });
    v.push(DataFileSpec { name: "work_indexes.jsonl", label: "公開作品索引", kind: Kind::Jsonl, unique_key: &["kana_symbol", "page"] });
    v.push(DataFileSpec { name: "person_indexes.jsonl", label: "公開人物索引", kind: Kind::Jsonl, unique_key: &["kana_column"] });
    v.push(DataFileSpec { name: "person_all_indexes.jsonl", label: "登録全作家索引", kind: Kind::Jsonl, unique_key: &["kana_column"] });
    v.push(DataFileSpec { name: "wip_work_indexes.jsonl", label: "作業中作品索引", kind: Kind::Jsonl, unique_key: &["kana_symbol", "page"] });
    v.push(DataFileSpec { name: "wip_person_indexes.jsonl", label: "作業中人物索引", kind: Kind::Jsonl, unique_key: &["kana_column"] });
    v.push(DataFileSpec { name: "list_inp.jsonl", label: "作業中作家別一覧", kind: Kind::Jsonl, unique_key: &["person_id", "page"] });
    v.push(DataFileSpec { name: "whatsnew.jsonl", label: "新着公開", kind: Kind::Jsonl, unique_key: &["year", "page"] });
    v.push(DataFileSpec { name: "news.jsonl", label: "そらもよう", kind: Kind::Jsonl, unique_key: &["year"] });
    assert(v@.map_values(|s: DataFileSpec| spec_view(s)) =~~= data_files());
    v
}

/// `s` padded with spaces on the right to `width` characters.
pub open spec fn padded(s: Seq<char>, width: nat) -> Seq<char> {
    if s.len() >= width {
        s
    } else {
        s + Seq::new((width - s.len()) as nat, |j: int| ' ')
    }
}

/// The console status of a report.
pub open spec fn status_text(r: FileReport) -> Seq<char> {
    if !r.present {
        "[MISSING]"@
    } else if count_severity(findings_view(r.findings@), Severity::Error) > 0 {
        "[ERROR]"@
    } else if count_severity(findings_view(r.findings@), Severity::Warn) > 0 {
        "[WARN] "@
    } else {
        "[OK]   "@
    }
}

/// The console line of a report: status, name in 26 columns, record count.
pub open spec fn summary_line(r: FileReport) -> Seq<char> {
    let count = if r.present { digits(r.record_count as nat) + " records"@ } else { Seq::empty() };
    "  "@ + status_text(r) + " "@ + padded(r.name@, 26) + " "@ + count
}

/// The console line of a finding: line number, severity, message.
pub open spec fn finding_line(f: (Severity, Option<usize>, Seq<char>)) -> Seq<char> {
    let line = match f.1 {
        Some(l) => "L"@ + digits(l as nat) + " "@,
        None => Seq::empty(),
    };
    let sev = match f.0 {
        Severity::Error => "ERROR"@,
        Severity::Warn => "WARN"@,
    };
    "      "@ + line + sev + ": "@ + f.2
}

/// The console lines of a report: its summary, then one per finding.
pub fn report_lines(r: &FileReport) -> (lines: Vec<String>)
    ensures
        lines@.len() == r.findings@.len() + 1,
        lines@[0]@ == summary_line(*r),
        forall|i: int| 0 <= i < r.findings@.len() ==> #[trigger] lines@[i + 1]@ == finding_line(findings_view(r.findings@)[i]),
{
    let mut head = owned("  ");
    if !r.present {
        head.append("[MISSING]");
    } else if r.errors() > 0 {
        head.append("[ERROR]");
    } else if r.warns() > 0 {
        head.append("[WARN] ");
    } else {
        head.append("[OK]   ");
    }
    head.append(" ");
    head.append(r.name.as_str());
    let n = r.name.unicode_len();
    let mut k: usize = n;
    assert(head@ =~= "  "@ + status_text(*r) + " "@ + r.name@ + Seq::new(0nat, |j: int| ' '));
    while k < 26
        invariant
            n == r.name@.len(),
            n <= k <= 26 || (k == n && n >= 26),
            head@ == "  "@ + status_text(*r) + " "@ + r.name@ + Seq::new((k - n) as nat, |j: int| ' '),
        decreases 26 - k,
    {
        let ghost before = head@;
        push_char(&mut head, ' ');
        assert(Seq::new((k - n) as nat, |j: int| ' ').push(' ') =~= Seq::new((k + 1 - n) as nat, |j: int| ' '));
        assert(head@ =~= "  "@ + status_text(*r) + " "@ + r.name@ + Seq::new((k + 1 - n) as nat, |j: int| ' '));
        k = k + 1;
    }
    assert(head@ =~= "  "@ + status_text(*r) + " "@ + padded(r.name@, 26));
    head.append(" ");
    if r.present {
        push_digits(&mut head, r.record_count as u64);
        head.append(" records");
    }
    assert(head@ =~= summary_line(*r));
    let mut lines: Vec<String> = Vec::new();
    lines.push(head);
    let ghost fv = findings_view(r.findings@);
    let mut i: usize = 0;
    while i < r.findings.len()
        invariant
            i <= r.findings.len(),
            fv == findings_view(r.findings@),
            lines@.len() == i + 1,
            lines@[0]@ == summary_line(*r),
            forall|j: int| 0 <= j < i ==> #[trigger] lines@[j + 1]@ == finding_line(fv[j]),
        decreases r.findings.len() - i,
    {
        let f = &r.findings[i];
        let mut t = owned("      ");
        match f.line {
            Some(l) => {
                t.append("L");
                push_digits(&mut t, l as u64);
                t.append(" ");
            },
            None => {},
        }
        match f.severity {
            Severity::Error => t.append("ERROR"),
            Severity::Warn => t.append("WARN"),
        }
        t.append(": ");
        t.append(f.message.as_str());
        assert(fv[i as int] == (f.severity, f.line, f.message@));
        assert(t@ =~= finding_line(fv[i as int]));
        lines.push(t);
        i = i + 1;
    }
    lines
}

/// Errors over all files' reports.
pub open spec fn errors_over(rs: Seq<FileReport>) -> nat
    decreases rs.len(),
{
    if rs.len() == 0 {
        0
    } else {
        errors_over(rs.drop_last()) + count_severity(findings_view(rs.last().findings@), Severity::Error)
    }
}

/// Warnings over all files' reports.
pub open spec fn warns_over(rs: Seq<FileReport>) -> nat
    decreases rs.len(),
{
    if rs.len() == 0 {
        0
    } else {
        warns_over(rs.drop_last()) + count_severity(findings_view(rs.last().findings@), Severity::Warn)
    }
}

proof fn lemma_over_prefix(rs: Seq<FileReport>, k: int)
    requires
        0 <= k <= rs.len(),
    ensures
        errors_over(rs.take(k)) <= errors_over(rs),
        warns_over(rs.take(k)) <= warns_over(rs),
    decreases rs.len(),
{
    if k < rs.len() {
        assert(rs.drop_last().take(k) =~= rs.take(k));
        lemma_over_prefix(rs.drop_last(), k);
    } else {
        assert(rs.take(k) =~= rs);
    }
}

/// The outcome of checking every data file: the errors and the warnings
/// over all files, and whether the check fails (some file has an error).
pub fn check_totals(reports: &Vec<FileReport>) -> (r: (usize, usize, bool))
    requires
        errors_over(reports@) <= usize::MAX,
        warns_over(reports@) <= usize::MAX,
    ensures
        r.0 == errors_over(reports@),
        r.1 == warns_over(reports@),
        r.2 == (errors_over(reports@) > 0),
{
    let mut errors: usize = 0;
    let mut warns: usize = 0;
    let mut i: usize = 0;
    while i < reports.len()
        invariant
            i <= reports.len(),
            errors_over(reports@) <= usize::MAX,
            warns_over(reports@) <= usize::MAX,
            errors == errors_over(reports@.take(i as int)),
            warns == warns_over(reports@.take(i as int)),
        decreases reports.len() - i,
    {
        proof {
            lemma_over_prefix(reports@, i + 1);
            assert(reports@.take(i + 1).drop_last() =~= reports@.take(i as int));
        }
        errors = errors + reports[i].errors();
        warns = warns + reports[i].warns();
        i = i + 1;
    }
    assert(reports@.take(reports.len() as int) =~= reports@);
    (errors, warns, errors > 0)
}

} // verus!
