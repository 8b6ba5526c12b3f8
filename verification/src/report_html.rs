//! The self-contained HTML page that shows the data-file checks to a person.
use vstd::prelude::*;
use crate::json::{Json, get_key, json_text, member, to_json_text};
use crate::report::{FieldStat, FileReport, Finding, Severity, count_severity, findings_view};
use crate::text::{digits, owned, push_char, push_digits, str_equal, views};

verus! {

/// The HTML escape of one character.
pub open spec fn esc_char(c: char) -> Seq<char> {
    if c == '&' {
        "&amp;"@
    } else if c == '<' {
        "&lt;"@
    } else if c == '>' {
        "&gt;"@
    } else if c == '"' {
        "&quot;"@
    } else {
        seq![c]
    }
}

/// `s` with `&`, `<`, `>` and `"` escaped for HTML.
pub open spec fn escaped_html(s: Seq<char>) -> Seq<char>
    decreases s.len(),
{
    if s.len() == 0 {
        Seq::empty()
    } else {
        escaped_html(s.drop_last()) + esc_char(s.last())
    }
}

/// Appends `s` escaped for HTML.
pub fn push_esc(out: &mut String, s: &str)
    ensures
        final(out)@ == old(out)@ + escaped_html(s@),
{
    let ghost o = out@;
    let n = s.unicode_len();
    let mut i: usize = 0;
    while i < n
        invariant
            i <= n,
            n == s@.len(),
            out@ == o + escaped_html(s@.take(i as int)),
        decreases n - i,
    {
        let c = s.get_char(i);
        let ghost before = out@;
        if c == '&' {
            out.append("&amp;");
        } else if c == '<' {
            out.append("&lt;");
        } else if c == '>' {
            out.append("&gt;");
        } else if c == '"' {
            out.append("&quot;");
        } else {
            push_char(out, c);
        }
        assert(out@ =~= before + esc_char(c));
        assert(s@.take(i + 1).drop_last() =~= s@.take(i as int));
        assert(out@ =~= o + escaped_html(s@.take(i + 1)));
        i = i + 1;
    }
    assert(s@.take(n as int) =~= s@);
}

/// `s` escaped for HTML (`&`, `<`, `>` and `"`).
pub fn esc(s: &str) -> (r: String)
    ensures
        r@ == escaped_html(s@),
{
    let mut r = String::new();
    push_esc(&mut r, s);
    assert(r@ =~= escaped_html(s@));
    r
}

/// `s` when it has at most `max` characters, else its first `max` followed by "…".
pub open spec fn truncated(s: Seq<char>, max: nat) -> Seq<char> {
    if s.len() <= max {
        s
    } else {
        s.take(max as int) + "…"@
    }
}

/// `s` cut to `max` characters, marked with "…" where it was cut.
pub fn truncate(s: &str, max: usize) -> (r: String)
    ensures
        r@ == truncated(s@, max as nat),
{
    let n = s.unicode_len();
    if n <= max {
        return owned(s);
    }
    let mut h = String::new();
    let mut i: usize = 0;
    while i < max
        invariant
            i <= max < n,
            n == s@.len(),
            h@ == s@.take(i as int),
        decreases max - i,
    {
        push_char(&mut h, s.get_char(i));
        assert(h@ =~= s@.take(i + 1));
        i = i + 1;
    }
    h.append("…");
    h
}

/// The first of two optional members.
pub open spec fn either(a: Option<Json>, b: Option<Json>) -> Option<Json> {
    match a {
        Some(x) => Some(x),
        None => b,
    }
}

/// The text of a string value.
pub open spec fn string_of(v: Option<Json>) -> Option<Seq<char>> {
    match v {
        Some(Json::String(s)) => Some(s@),
        _ => None,
    }
}

/// A table cell for a value: a dash for null, the text of scalars (strings
/// cut to 60 characters), the length of an array, and for an object its id
/// (or person_id) and name (or title), whichever it has.
pub open spec fn cell_spec(v: Json) -> Seq<char> {
    match v {
        Json::Null => "—"@,
        Json::Bool(b) => if b { "true"@ } else { "false"@ },
        Json::Number(n) => n.text@,
        Json::String(s) => truncated(s@, 60),
        Json::Array(a) => "["@ + digits(a@.len()) + " 件]"@,
        Json::Object(o) => {
            let id = either(member(o@, "id"@), member(o@, "person_id"@));
            let label = string_of(either(member(o@, "name"@), member(o@, "title"@)));
            match (id, label) {
                (Some(i), Some(l)) => json_text(i) + ": "@ + truncated(l, 40),
                (Some(i), None) => "id="@ + json_text(i),
                (None, Some(l)) => truncated(l, 40),
                (None, None) => "{…}"@,
            }
        },
    }
}

/// The text of one table cell for `v`.
pub fn cell_text(v: &Json) -> (r: String)
    ensures
        r@ == cell_spec(*v),
{
    match v {
        Json::Null => owned("—"),
        Json::Bool(b) => if *b { owned("true") } else { owned("false") },
        Json::Number(n) => owned(n.text.as_str()),
        Json::String(s) => truncate(s.as_str(), 60),
        Json::Array(a) => {
            let mut r = owned("[");
            push_digits(&mut r, a.len() as u64);
            r.append(" 件]");
            r
        },
        Json::Object(_) => {
            let id = match v.get("id") {
                Some(x) => Some(x),
                None => v.get("person_id"),
            };
            let lab = match v.get("name") {
                Some(x) => Some(x),
                None => v.get("title"),
            };
            let label = match lab {
                Some(x) => x.as_str(),
                None => None,
            };
            match (id, label) {
                (Some(i), Some(l)) => {
                    let mut r = to_json_text(i);
                    r.append(": ");
                    let t = truncate(l, 40);
                    r.append(t.as_str());
                    r
                },
                (Some(i), None) => {
                    let mut r = owned("id=");
                    let t = to_json_text(i);
                    r.append(t.as_str());
                    r
                },
                (None, Some(l)) => truncate(l, 40),
                (None, None) => owned("{…}"),
            }
        },
    }
}

/// `cols` extended by the keys of `entries` that it lacks, in order.
pub open spec fn add_columns(cols: Seq<Seq<char>>, entries: Seq<(String, Json)>) -> Seq<Seq<char>>
    decreases entries.len(),
{
    if entries.len() == 0 {
        cols
    } else {
        let prev = add_columns(cols, entries.drop_last());
        let k = entries.last().0@;
        if prev.contains(k) {
            prev
        } else {
            prev.push(k)
        }
    }
}

/// The top-level keys of the object samples, each once, by first occurrence.
pub open spec fn sample_columns(samples: Seq<Json>) -> Seq<Seq<char>>
    decreases samples.len(),
{
    if samples.len() == 0 {
        Seq::empty()
    } else {
        let prev = sample_columns(samples.drop_last());
        match samples.last() {
            Json::Object(o) => add_columns(prev, o@),
            _ => prev,
        }
    }
}

/// The header cells of the columns.
pub open spec fn header_cells(cols: Seq<Seq<char>>) -> Seq<char>
    decreases cols.len(),
{
    if cols.len() == 0 {
        Seq::empty()
    } else {
        header_cells(cols.drop_last()) + "<th>"@ + escaped_html(cols.last()) + "</th>"@
    }
}

/// The cell of sample `s` in column `c`: empty where `s` has no such member.
pub open spec fn cell_of(s: Json, c: Seq<char>) -> Seq<char> {
    match get_key(s, c) {
        Some(x) => cell_spec(x),
        None => Seq::empty(),
    }
}

/// The cells of one sample row.
pub open spec fn row_cells(s: Json, cols: Seq<Seq<char>>) -> Seq<char>
    decreases cols.len(),
{
    if cols.len() == 0 {
        Seq::empty()
    } else {
        row_cells(s, cols.drop_last()) + "<td>"@ + escaped_html(cell_of(s, cols.last())) + "</td>"@
    }
}

/// The rows of the samples.
pub open spec fn sample_rows(samples: Seq<Json>, cols: Seq<Seq<char>>) -> Seq<char>
    decreases samples.len(),
{
    if samples.len() == 0 {
        Seq::empty()
    } else {
        sample_rows(samples.drop_last(), cols) + "<tr>"@ + row_cells(samples.last(), cols) + "</tr>\n"@
    }
}

/// The table of samples, one column per top-level key.
pub open spec fn samples_html(samples: Seq<Json>) -> Seq<char> {
    let cols = sample_columns(samples);
    "<div class=\"scroll\"><table class=\"samples\"><thead><tr>"@ + header_cells(cols) + "</tr></thead><tbody>\n"@
        + sample_rows(samples, cols) + "</tbody></table></div>\n"@
}

/// Whether `k` is among `v`.
fn contains_text(v: &Vec<String>, k: &str) -> (r: bool)
    ensures
        r == views(v@).contains(k@),
{
    let mut i: usize = 0;
    while i < v.len()
        invariant
            i <= v.len(),
            forall|j: int| 0 <= j < i ==> #[trigger] v@[j]@ != k@,
        decreases v.len() - i,
    {
        if str_equal(v[i].as_str(), k) {
            assert(views(v@)[i as int] == k@);
            return true;
        }
        i = i + 1;
    }
    assert forall|j: int| 0 <= j < views(v@).len() implies #[trigger] views(v@)[j] != k@ by {
        assert(views(v@)[j] == v@[j]@);
    }
    false
}

/// The columns of the samples: their top-level keys by first occurrence.
fn columns_of(samples: &[Json]) -> (r: Vec<String>)
    ensures
        views(r@) == sample_columns(samples@),
{
    let mut columns: Vec<String> = Vec::new();
    let mut i: usize = 0;
    while i < samples.len()
        invariant
            i <= samples.len(),
            views(columns@) == sample_columns(samples@.take(i as int)),
        decreases samples.len() - i,
    {
        assert(samples@.take(i + 1).drop_last() =~= samples@.take(i as int));
        match &samples[i] {
            Json::Object(entries) => {
                let ghost base = views(columns@);
                let mut e: usize = 0;
                while e < entries.len()
                    invariant
                        e <= entries.len(),
                        views(columns@) == add_columns(base, entries@.take(e as int)),
                    decreases entries.len() - e,
                {
                    assert(entries@.take(e + 1).drop_last() =~= entries@.take(e as int));
                    if !contains_text(&columns, entries[e].0.as_str()) {
                        let ghost before = views(columns@);
                        columns.push(owned(entries[e].0.as_str()));
                        assert(views(columns@) =~= before.push(entries@[e as int].0@));
                    }
                    e = e + 1;
                }
                assert(entries@.take(entries.len() as int) =~= entries@);
            },
            _ => {},
        }
        i = i + 1;
    }
    assert(samples@.take(samples.len() as int) =~= samples@);
    columns
}

/// Appends the table of samples.
pub fn render_samples(h: &mut String, samples: &[Json])
    ensures
        final(h)@ == old(h)@ + samples_html(samples@),
{
    let ghost o = h@;
    let columns = columns_of(samples);
    let ghost cols = views(columns@);
    h.append("<div class=\"scroll\"><table class=\"samples\"><thead><tr>");
    let ghost head = h@;
    let mut c: usize = 0;
    while c < columns.len()
        invariant
            c <= columns.len(),
            cols == views(columns@),
            h@ == head + header_cells(cols.take(c as int)),
        decreases columns.len() - c,
    {
        assert(cols.take(c + 1).drop_last() =~= cols.take(c as int));
        h.append("<th>");
        push_esc(h, columns[c].as_str());
        h.append("</th>");
        assert(h@ =~= head + header_cells(cols.take(c + 1)));
        c = c + 1;
    }
    assert(cols.take(columns.len() as int) =~= cols);
    h.append("</tr></thead><tbody>\n");
    let ghost body = h@;
    let mut i: usize = 0;
    while i < samples.len()
        invariant
            i <= samples.len(),
            cols == views(columns@),
            h@ == body + sample_rows(samples@.take(i as int), cols),
        decreases samples.len() - i,
    {
        assert(samples@.take(i + 1).drop_last() =~= samples@.take(i as int));
        h.append("<tr>");
        let ghost row = h@;
        let mut c: usize = 0;
        while c < columns.len()
            invariant
                c <= columns.len(),
                i < samples.len(),
                cols == views(columns@),
                h@ == row + row_cells(samples@[i as int], cols.take(c as int)),
            decreases columns.len() - c,
        {
            assert(cols.take(c + 1).drop_last() =~= cols.take(c as int));
            let cell = match samples[i].get(columns[c].as_str()) {
                Some(x) => cell_text(x),
                None => String::new(),
            };
            h.append("<td>");
            push_esc(h, cell.as_str());
            h.append("</td>");
            assert(h@ =~= row + row_cells(samples@[i as int], cols.take(c + 1)));
            c = c + 1;
        }
        assert(cols.take(columns.len() as int) =~= cols);
        h.append("</tr>\n");
        assert(h@ =~= body + sample_rows(samples@.take(i + 1), cols));
        i = i + 1;
    }
    assert(samples@.take(samples.len() as int) =~= samples@);
    h.append("</tbody></table></div>\n");
    assert(h@ =~= o + samples_html(samples@));
}

/// The style sheet of the page.
pub const STYLE: &'static str = r#"<style>
:root { color-scheme: light dark; }
body { font-family: system-ui, sans-serif; margin: 0; padding: 1.5rem; line-height: 1.5; }
header h1 { margin: 0 0 .25rem; font-size: 1.4rem; }
.meta { color: #666; font-size: .9rem; margin: .25rem 0 1rem; }
.toc ul { list-style: none; padding: 0; columns: 2; }
.toc li { margin: .15rem 0; }
.toc .count { color: #888; font-size: .85rem; }
section { border-top: 1px solid #ccc; padding: 1rem 0; }
section h2 { font-size: 1.1rem; }
section h2 small { color: #888; font-weight: normal; font-size: .85rem; }
h3 { font-size: .95rem; margin: 1rem 0 .35rem; }
table { border-collapse: collapse; font-size: .82rem; }
th, td { border: 1px solid #d0d0d0; padding: .2rem .5rem; text-align: left; vertical-align: top; }
th { background: rgba(127,127,127,.12); }
.scroll { overflow-x: auto; }
.samples td { white-space: nowrap; max-width: 24rem; overflow: hidden; text-overflow: ellipsis; }
.badge { display: inline-block; padding: 0 .4rem; border-radius: .3rem; font-size: .72rem; font-weight: bold; color: #fff; }
.badge.ok { background: #2e7d32; }
.badge.warn { background: #ed6c02; }
.badge.err { background: #c62828; }
.badge.missing { background: #757575; }
span.ok { color: #2e7d32; } span.warn { color: #ed6c02; } span.err { color: #c62828; }
tr.err td { background: rgba(198,40,40,.10); }
tr.warn td { background: rgba(237,108,2,.10); }
</style>
"#;

/// Number of error findings of a report.
pub open spec fn error_count(r: FileReport) -> nat {
    count_severity(findings_view(r.findings@), Severity::Error)
}

/// Number of warning findings of a report.
pub open spec fn warn_count(r: FileReport) -> nat {
    count_severity(findings_view(r.findings@), Severity::Warn)
}

/// The status badge of a report: missing, errors, warnings or fine.
pub open spec fn badge_html(r: FileReport) -> Seq<char> {
    if !r.present {
        "<span class=\"badge missing\">MISSING</span>"@
    } else if error_count(r) > 0 {
        "<span class=\"badge err\">ERROR</span>"@
    } else if warn_count(r) > 0 {
        "<span class=\"badge warn\">WARN</span>"@
    } else {
        "<span class=\"badge ok\">OK</span>"@
    }
}

/// The status badge of a report.
pub fn badge(r: &FileReport) -> (b: &'static str)
    ensures
        b@ == badge_html(*r),
{
    if !r.present {
        "<span class=\"badge missing\">MISSING</span>"
    } else if r.errors() > 0 {
        "<span class=\"badge err\">ERROR</span>"
    } else if r.warns() > 0 {
        "<span class=\"badge warn\">WARN</span>"
    } else {
        "<span class=\"badge ok\">OK</span>"
    }
}

/// The line number of a finding, or nothing.
pub open spec fn line_text(l: Option<usize>) -> Seq<char> {
    match l {
        Some(n) => digits(n as nat),
        None => Seq::empty(),
    }
}

/// One row of the findings table.
pub open spec fn finding_row(f: (Severity, Option<usize>, Seq<char>)) -> Seq<char> {
    let cls = match f.0 {
        Severity::Error => "err"@,
        Severity::Warn => "warn"@,
    };
    let sev = match f.0 {
        Severity::Error => "ERROR"@,
        Severity::Warn => "WARN"@,
    };
    "<tr class=\""@ + cls + "\"><td>"@ + sev + "</td><td>"@ + line_text(f.1) + "</td><td>"@ + escaped_html(f.2)
        + "</td></tr>\n"@
}

/// The rows of the findings table.
pub open spec fn finding_rows(fs: Seq<(Severity, Option<usize>, Seq<char>)>) -> Seq<char>
    decreases fs.len(),
{
    if fs.len() == 0 {
        Seq::empty()
    } else {
        finding_rows(fs.drop_last()) + finding_row(fs.last())
    }
}

/// One row of the field table; true and false counts for boolean fields.
pub open spec fn field_row(s: FieldStat) -> Seq<char> {
    let boolcol = if s.ty@ == "bool"@ {
        digits(s.bool_true as nat) + " / "@ + digits(s.bool_false as nat)
    } else {
        Seq::empty()
    };
    "<tr><td>"@ + escaped_html(s.name@) + "</td><td>"@ + s.ty@ + "</td><td>"@ + digits(s.present as nat) + "</td><td>"@
        + digits(s.null as nat) + "</td><td>"@ + boolcol + "</td></tr>\n"@
}

/// The rows of the field table.
pub open spec fn field_rows(fs: Seq<FieldStat>) -> Seq<char>
    decreases fs.len(),
{
    if fs.len() == 0 {
        Seq::empty()
    } else {
        field_rows(fs.drop_last()) + field_row(fs.last())
    }
}

/// The heading of a file's section.
pub open spec fn section_head(r: FileReport) -> Seq<char> {
    "<section id=\""@ + escaped_html(r.name@) + "\"><h2>"@ + badge_html(r) + " "@ + escaped_html(r.name@) + " <small>"@
        + escaped_html(r.label@) + "</small></h2>\n"@
}

/// The record, error and warning counts of a file.
pub open spec fn counts_html(r: FileReport) -> Seq<char> {
    "<p class=\"meta\">"@ + digits(r.record_count as nat) + " レコード ／ エラー "@ + digits(error_count(r)) + " ・ 警告 "@
        + digits(warn_count(r)) + "</p>\n"@
}

/// The findings table of a file, when it has findings.
pub open spec fn findings_part(r: FileReport) -> Seq<char> {
    if r.findings@.len() > 0 {
        "<table class=\"findings\"><thead><tr><th>種別</th><th>行</th><th>内容</th></tr></thead><tbody>\n"@
            + finding_rows(findings_view(r.findings@)) + "</tbody></table>\n"@
    } else {
        Seq::empty()
    }
}

/// The field distribution of a file, when it has fields.
pub open spec fn fields_part(r: FileReport) -> Seq<char> {
    if r.fields@.len() > 0 {
        "<h3>フィールド分布</h3>\n"@
            + "<table class=\"fields\"><thead><tr><th>field</th><th>型</th><th>present</th><th>null</th><th>true/false</th></tr></thead><tbody>\n"@
            + field_rows(r.fields@) + "</tbody></table>\n"@
    } else {
        Seq::empty()
    }
}

/// The samples of a file, when it has some.
pub open spec fn samples_part(r: FileReport) -> Seq<char> {
    if r.samples@.len() > 0 {
        "<h3>サンプル (先頭 "@ + digits(r.samples@.len()) + " 件)</h3>\n"@ + samples_html(r.samples@)
    } else {
        Seq::empty()
    }
}

/// The section of one file: heading, and for a present file its counts,
/// findings, field distribution and samples.
pub open spec fn section_html(r: FileReport) -> Seq<char> {
    if !r.present {
        section_head(r) + "<p class=\"warn\">ファイルが存在しません。</p></section>\n"@
    } else {
        section_head(r) + counts_html(r) + findings_part(r) + fields_part(r) + samples_part(r) + "</section>\n"@
    }
}

/// Appends the findings table of a report.
#[verifier::rlimit(40)]
fn render_findings(h: &mut String, findings: &Vec<Finding>)
    ensures
        final(h)@ == old(h)@ + finding_rows(findings_view(findings@)),
{
    let ghost o = h@;
    let ghost fv = findings_view(findings@);
    let mut i: usize = 0;
    while i < findings.len()
        invariant
            i <= findings.len(),
            fv == findings_view(findings@),
            h@ == o + finding_rows(fv.take(i as int)),
        decreases findings.len() - i,
    {
        assert(fv.take(i + 1).drop_last() =~= fv.take(i as int));
        let f = &findings[i];
        let ghost before = h@;
        h.append("<tr class=\"");
        match f.severity {
            Severity::Error => h.append("err"),
            Severity::Warn => h.append("warn"),
        }
        h.append("\"><td>");
        match f.severity {
            Severity::Error => h.append("ERROR"),
            Severity::Warn => h.append("WARN"),
        }
        h.append("</td><td>");
        match f.line {
            Some(l) => push_digits(h, l as u64),
            None => {},
        }
        h.append("</td><td>");
        push_esc(h, f.message.as_str());
        h.append("</td></tr>\n");
        assert(fv[i as int] == (f.severity, f.line, f.message@));
        assert(h@ =~= before + finding_row(fv[i as int]));
        i = i + 1;
    }
    assert(fv.take(findings.len() as int) =~= fv);
}

/// Appends the field table rows of a report.
fn render_fields(h: &mut String, fields: &Vec<FieldStat>)
    ensures
        final(h)@ == old(h)@ + field_rows(fields@),
{
    let ghost o = h@;
    let mut i: usize = 0;
    while i < fields.len()
        invariant
            i <= fields.len(),
            h@ == o + field_rows(fields@.take(i as int)),
        decreases fields.len() - i,
    {
        assert(fields@.take(i + 1).drop_last() =~= fields@.take(i as int));
        let s = &fields[i];
        let ghost before = h@;
        h.append("<tr><td>");
        push_esc(h, s.name.as_str());
        h.append("</td><td>");
        h.append(s.ty);
        h.append("</td><td>");
        push_digits(h, s.present as u64);
        h.append("</td><td>");
        push_digits(h, s.null as u64);
        h.append("</td><td>");
        if str_equal(s.ty, "bool") {
            push_digits(h, s.bool_true as u64);
            h.append(" / ");
            push_digits(h, s.bool_false as u64);
        }
        h.append("</td></tr>\n");
        assert(h@ =~= before + field_row(fields@[i as int]));
        i = i + 1;
    }
    assert(fields@.take(fields.len() as int) =~= fields@);
}

/// Appends the heading of a file's section.
fn render_head(h: &mut String, r: &FileReport)
    ensures
        final(h)@ == old(h)@ + section_head(*r),
{
    let ghost o = h@;
    let b = badge(r);
    h.append("<section id=\"");
    push_esc(h, r.name.as_str());
    h.append("\"><h2>");
    h.append(b);
    h.append(" ");
    push_esc(h, r.name.as_str());
    h.append(" <small>");
    push_esc(h, r.label.as_str());
    h.append("</small></h2>\n");
    assert(h@ =~= o + section_head(*r));
}

/// Appends the counts of a file.
fn render_counts(h: &mut String, r: &FileReport)
    ensures
        final(h)@ == old(h)@ + counts_html(*r),
{
    let ghost o = h@;
    h.append("<p class=\"meta\">");
    push_digits(h, r.record_count as u64);
    h.append(" レコード ／ エラー ");
    push_digits(h, r.errors() as u64);
    h.append(" ・ 警告 ");
    push_digits(h, r.warns() as u64);
    h.append("</p>\n");
    assert(h@ =~= o + counts_html(*r));
}

/// Appends the findings table and the field distribution of a file.
fn render_tables(h: &mut String, r: &FileReport)
    ensures
        final(h)@ == old(h)@ + findings_part(*r) + fields_part(*r),
{
    let ghost o = h@;
    if r.findings.len() > 0 {
        h.append("<table class=\"findings\"><thead><tr><th>種別</th><th>行</th><th>内容</th></tr></thead><tbody>\n");
        render_findings(h, &r.findings);
        h.append("</tbody></table>\n");
    }
    assert(h@ =~= o + findings_part(*r));
    let ghost c = h@;
    if r.fields.len() > 0 {
        h.append("<h3>フィールド分布</h3>\n");
        h.append("<table class=\"fields\"><thead><tr><th>field</th><th>型</th><th>present</th><th>null</th><th>true/false</th></tr></thead><tbody>\n");
        render_fields(h, &r.fields);
        h.append("</tbody></table>\n");
    }
    assert(h@ =~= c + fields_part(*r));
}

/// Appends the section of one file.
pub fn render_file(h: &mut String, r: &FileReport)
    ensures
        final(h)@ == old(h)@ + section_html(*r),
{
    let ghost o = h@;
    render_head(h, r);
    if !r.present {
        h.append("<p class=\"warn\">ファイルが存在しません。</p></section>\n");
        assert(h@ =~= o + section_html(*r));
        return;
    }
    render_counts(h, r);
    render_tables(h, r);
    let ghost c = h@;
    if r.samples.len() > 0 {
        h.append("<h3>サンプル (先頭 ");
        push_digits(h, r.samples.len() as u64);
        h.append(" 件)</h3>\n");
        render_samples(h, r.samples.as_slice());
    }
    assert(h@ =~= c + samples_part(*r));
    h.append("</section>\n");
    assert(h@ =~= o + section_html(*r));
}

/// Number of present files without errors.
pub open spec fn ok_files(rs: Seq<FileReport>) -> nat
    decreases rs.len(),
{
    if rs.len() == 0 {
        0
    } else {
        ok_files(rs.drop_last()) + if rs.last().present && error_count(rs.last()) == 0 { 1nat } else { 0nat }
    }
}

/// Number of files with errors.
pub open spec fn err_files(rs: Seq<FileReport>) -> nat
    decreases rs.len(),
{
    if rs.len() == 0 {
        0
    } else {
        err_files(rs.drop_last()) + if error_count(rs.last()) > 0 { 1nat } else { 0nat }
    }
}

/// Number of files with warnings and no errors.
pub open spec fn warn_files(rs: Seq<FileReport>) -> nat
    decreases rs.len(),
{
    if rs.len() == 0 {
        0
    } else {
        warn_files(rs.drop_last()) + if error_count(rs.last()) == 0 && warn_count(rs.last()) > 0 { 1nat } else { 0nat }
    }
}

/// Number of records over all files.
pub open spec fn record_total(rs: Seq<FileReport>) -> nat
    decreases rs.len(),
{
    if rs.len() == 0 {
        0
    } else {
        record_total(rs.drop_last()) + rs.last().record_count as nat
    }
}

/// One entry of the table of contents.
pub open spec fn toc_entry(r: FileReport) -> Seq<char> {
    let cnt = if r.present { digits(r.record_count as nat) + " 件"@ } else { "—"@ };
    "<li>"@ + badge_html(r) + " <a href=\"#"@ + escaped_html(r.name@) + "\">"@ + escaped_html(r.name@)
        + "</a> <span class=\"count\">"@ + cnt + "</span></li>\n"@
}

/// The entries of the table of contents.
pub open spec fn toc_entries(rs: Seq<FileReport>) -> Seq<char>
    decreases rs.len(),
{
    if rs.len() == 0 {
        Seq::empty()
    } else {
        toc_entries(rs.drop_last()) + toc_entry(rs.last())
    }
}

/// The sections of the files.
pub open spec fn sections_html(rs: Seq<FileReport>) -> Seq<char>
    decreases rs.len(),
{
    if rs.len() == 0 {
        Seq::empty()
    } else {
        sections_html(rs.drop_last()) + section_html(rs.last())
    }
}

/// The head of the page, with its style sheet.
pub open spec fn page_head() -> Seq<char> {
    "<!DOCTYPE html>\n<html lang=\"ja\">\n<head>\n<meta charset=\"utf-8\">\n"@
        + "<meta name=\"viewport\" content=\"width=device-width,initial-scale=1\">\n"@
        + "<title>komadome-rs データ検査レポート</title>\n"@ + STYLE@ + "</head>\n<body>\n"@
}

/// The page header: build date, files fine, with warnings, with errors,
/// and the number of records.
pub open spec fn page_header(rs: Seq<FileReport>, date: Seq<char>) -> Seq<char> {
    "<header><h1>komadome-rs データ検査レポート</h1><p class=\"meta\">生成日: "@ + escaped_html(date)
        + " ／ <span class=\"ok\">OK "@ + digits(ok_files(rs)) + "</span> ・ <span class=\"warn\">WARN "@
        + digits(warn_files(rs)) + "</span> ・ <span class=\"err\">ERROR "@ + digits(err_files(rs))
        + "</span> ／ 総レコード "@ + digits(record_total(rs)) + "</p></header>\n"@
}

/// The whole report page.
pub open spec fn report_page(rs: Seq<FileReport>, date: Seq<char>) -> Seq<char> {
    page_head() + page_header(rs, date) + "<nav class=\"toc\"><ul>\n"@ + toc_entries(rs) + "</ul></nav>\n"@
        + sections_html(rs) + "</body>\n</html>\n"@
}

proof fn lemma_file_counts_bound(rs: Seq<FileReport>)
    ensures
        ok_files(rs) <= rs.len(),
        err_files(rs) <= rs.len(),
        warn_files(rs) <= rs.len(),
    decreases rs.len(),
{
    if rs.len() > 0 {
        lemma_file_counts_bound(rs.drop_last());
    }
}

proof fn lemma_record_total_prefix(rs: Seq<FileReport>, k: int)
    requires
        0 <= k <= rs.len(),
    ensures
        record_total(rs.take(k)) <= record_total(rs),
    decreases rs.len(),
{
    if k < rs.len() {
        assert(rs.drop_last().take(k) =~= rs.take(k));
        lemma_record_total_prefix(rs.drop_last(), k);
    } else {
        assert(rs.take(k) =~= rs);
    }
}

/// Appends the page header.
fn render_header(h: &mut String, reports: &[FileReport], build_date: &str)
    requires
        record_total(reports@) <= usize::MAX,
    ensures
        final(h)@ == old(h)@ + page_header(reports@, build_date@),
{
    let ghost o = h@;
    let ghost rs = reports@;
    let mut ok: usize = 0;
    let mut err: usize = 0;
    let mut warn: usize = 0;
    let mut rec: usize = 0;
    let mut i: usize = 0;
    while i < reports.len()
        invariant
            i <= reports.len(),
            rs == reports@,
            record_total(rs) <= usize::MAX,
            ok == ok_files(rs.take(i as int)),
            err == err_files(rs.take(i as int)),
            warn == warn_files(rs.take(i as int)),
            rec == record_total(rs.take(i as int)),
        decreases reports.len() - i,
    {
        let ghost pre = rs.take(i as int);
        assert(rs.take(i + 1).drop_last() =~= pre);
        proof {
            lemma_file_counts_bound(pre);
            lemma_record_total_prefix(rs, i + 1);
        }
        let r = &reports[i];
        let e = r.errors();
        let w = r.warns();
        if r.present && e == 0 {
            ok = ok + 1;
        }
        if e > 0 {
            err = err + 1;
        }
        if e == 0 && w > 0 {
            warn = warn + 1;
        }
        rec = rec + r.record_count;
        i = i + 1;
    }
    assert(rs.take(reports.len() as int) =~= rs);
    h.append("<header><h1>komadome-rs データ検査レポート</h1><p class=\"meta\">生成日: ");
    push_esc(h, build_date);
    h.append(" ／ <span class=\"ok\">OK ");
    push_digits(h, ok as u64);
    h.append("</span> ・ <span class=\"warn\">WARN ");
    push_digits(h, warn as u64);
    h.append("</span> ・ <span class=\"err\">ERROR ");
    push_digits(h, err as u64);
    h.append("</span> ／ 総レコード ");
    push_digits(h, rec as u64);
    h.append("</p></header>\n");
    assert(h@ =~= o + page_header(rs, build_date@));
}

/// Appends the table of contents entries.
fn render_toc(h: &mut String, reports: &[FileReport])
    ensures
        final(h)@ == old(h)@ + toc_entries(reports@),
{
    let ghost o = h@;
    let mut i: usize = 0;
    while i < reports.len()
        invariant
            i <= reports.len(),
            h@ == o + toc_entries(reports@.take(i as int)),
        decreases reports.len() - i,
    {
        assert(reports@.take(i + 1).drop_last() =~= reports@.take(i as int));
        let r = &reports[i];
        let ghost before = h@;
        h.append("<li>");
        h.append(badge(r));
        h.append(" <a href=\"#");
        push_esc(h, r.name.as_str());
        h.append("\">");
        push_esc(h, r.name.as_str());
        h.append("</a> <span class=\"count\">");
        if r.present {
            push_digits(h, r.record_count as u64);
            h.append(" 件");
        } else {
            h.append("—");
        }
        h.append("</span></li>\n");
        assert(h@ =~= before + toc_entry(reports@[i as int]));
        i = i + 1;
    }
    assert(reports@.take(reports.len() as int) =~= reports@);
}

/// The whole report page over all files' reports.
pub fn render(reports: &[FileReport], build_date: &str) -> (r: String)
    requires
        record_total(reports@) <= usize::MAX,
    ensures
        r@ == report_page(reports@, build_date@),
{
    let mut h = String::new();
    h.append("<!DOCTYPE html>\n<html lang=\"ja\">\n<head>\n<meta charset=\"utf-8\">\n");
    h.append("<meta name=\"viewport\" content=\"width=device-width,initial-scale=1\">\n");
    h.append("<title>komadome-rs データ検査レポート</title>\n");
    h.append(STYLE);
    h.append("</head>\n<body>\n");
    assert(h@ =~= page_head());
    render_header(&mut h, reports, build_date);
    h.append("<nav class=\"toc\"><ul>\n");
    render_toc(&mut h, reports);
    h.append("</ul></nav>\n");
    let ghost before = h@;
    let mut i: usize = 0;
    while i < reports.len()
        invariant
            i <= reports.len(),
            h@ == before + sections_html(reports@.take(i as int)),
        decreases reports.len() - i,
    {
        assert(reports@.take(i + 1).drop_last() =~= reports@.take(i as int));
        render_file(&mut h, &reports[i]);
        assert(h@ =~= before + sections_html(reports@.take(i + 1)));
        i = i + 1;
    }
    assert(reports@.take(reports.len() as int) =~= reports@);
    h.append("</body>\n</html>\n");
    assert(h@ =~= report_page(reports@, build_date@));
    h
}

} // verus!
