//! Checks of exported data files: the findings model, structural and
//! semantic checks over the parsed records, and per-field statistics.
use vstd::prelude::*;
use vstd::hash_set::StringHashSet;
use crate::json::{Json, get_key, json_text, to_json_text};
use crate::text::{digits, int_text, join, owned, push_char, push_digits, seq_join, views};

verus! {

/// How serious a finding is.
#[derive(PartialEq, Eq, Structural, Clone, Copy)]
pub enum Severity {
    /// A structural problem that can break the site build.
    Error,
    /// Something to look at by eye (no records, missing file, ...).
    Warn,
}

/// One finding; `line` is the 1-based line of a JSONL record.
pub struct Finding {
    pub severity: Severity,
    pub line: Option<usize>,
    pub message: String,
}

/// How a data file holds its records.
#[derive(PartialEq, Eq, Structural, Clone, Copy)]
pub enum Kind {
    /// One JSON record per line.
    Jsonl,
    /// The whole file is one JSON object.
    SingleJson,
}

/// What is checked of one data file.  Whether a record has the shape of the
/// file's record type is decided by the caller, which deserialises it.
pub struct DataFileSpec {
    pub name: &'static str,
    pub label: &'static str,
    pub kind: Kind,
    /// Dotted paths whose values together must be unique per record; none
    /// means no duplicate check.
    pub unique_key: &'static [&'static str],
}

/// Distribution of one top-level field over the records.
pub struct FieldStat {
    pub name: String,
    pub ty: &'static str,
    pub present: usize,
    pub null: usize,
    pub bool_true: usize,
    pub bool_false: usize,
}

/// The result of checking one data file.
pub struct FileReport {
    pub name: String,
    pub label: String,
    pub present: bool,
    pub record_count: usize,
    pub findings: Vec<Finding>,
    pub samples: Vec<Json>,
    pub fields: Vec<FieldStat>,
}

/// A finding as plain values: severity, line, message text.
pub open spec fn finding_view(f: Finding) -> (Severity, Option<usize>, Seq<char>) {
    (f.severity, f.line, f.message@)
}

/// The plain values of a list of findings.
pub open spec fn findings_view(fs: Seq<Finding>) -> Seq<(Severity, Option<usize>, Seq<char>)> {
    fs.map_values(|f: Finding| finding_view(f))
}

/// Number of findings of severity `sev`.
pub open spec fn count_severity(fs: Seq<(Severity, Option<usize>, Seq<char>)>, sev: Severity) -> nat
    decreases fs.len(),
{
    if fs.len() == 0 {
        0
    } else {
        count_severity(fs.drop_last(), sev) + if fs.last().0 == sev { 1nat } else { 0nat }
    }
}

proof fn lemma_count_severity_bound(fs: Seq<(Severity, Option<usize>, Seq<char>)>, sev: Severity)
    ensures
        count_severity(fs, sev) <= fs.len(),
    decreases fs.len(),
{
    if fs.len() > 0 {
        lemma_count_severity_bound(fs.drop_last(), sev);
    }
}

fn count_findings(fs: &Vec<Finding>, sev: Severity) -> (r: usize)
    ensures
        r == count_severity(findings_view(fs@), sev),
{
    let ghost all = findings_view(fs@);
    let mut n: usize = 0;
    let mut i: usize = 0;
    while i < fs.len()
        invariant
            i <= fs.len(),
            all == findings_view(fs@),
            n == count_severity(all.take(i as int), sev),
        decreases fs.len() - i,
    {
        assert(all.take(i + 1).drop_last() =~= all.take(i as int));
        proof {
            lemma_count_severity_bound(all.take(i as int), sev);
        }
        if fs[i].severity == sev {
            n = n + 1;
        }
        i = i + 1;
    }
    assert(all.take(fs.len() as int) =~= all);
    n
}

impl FileReport {
    /// Number of error findings.
    pub fn errors(&self) -> (r: usize)
        ensures
            r == count_severity(findings_view(self.findings@), Severity::Error),
    {
        count_findings(&self.findings, Severity::Error)
    }

    /// Number of warning findings.
    pub fn warns(&self) -> (r: usize)
        ensures
            r == count_severity(findings_view(self.findings@), Severity::Warn),
    {
        count_findings(&self.findings, Severity::Warn)
    }
}

/// Findings of one kind shown before the rest are summarised.
pub const CAP: usize = 20;

/// Whether `p` is a prefix of `s`.
pub open spec fn has_prefix(s: Seq<char>, p: Seq<char>) -> bool {
    p.len() <= s.len() && s.subrange(0, p.len() as int) == p
}

/// Number of findings whose message starts with `kind`.
pub open spec fn count_kind(fs: Seq<(Severity, Option<usize>, Seq<char>)>, kind: Seq<char>) -> nat
    decreases fs.len(),
{
    if fs.len() == 0 {
        0
    } else {
        count_kind(fs.drop_last(), kind) + if has_prefix(fs.last().2, kind) { 1nat } else { 0nat }
    }
}

/// The message that closes a run of findings of one kind.
pub open spec fn cap_message(kind: Seq<char>) -> Seq<char> {
    kind + ": 他にも検出 (表示は"@ + digits(CAP as nat) + "件で打ち切り)"@
}

/// Adding finding `f` of kind `kind`: kept while fewer than [`CAP`] findings
/// of that kind are listed, replaced by one closing note at the cap, dropped
/// after it.
pub open spec fn capped_push(
    fs: Seq<(Severity, Option<usize>, Seq<char>)>,
    f: (Severity, Option<usize>, Seq<char>),
    kind: Seq<char>,
) -> Seq<(Severity, Option<usize>, Seq<char>)> {
    let n = count_kind(fs, kind);
    if n < CAP {
        fs.push(f)
    } else if n == CAP {
        fs.push((f.0, None, cap_message(kind)))
    } else {
        fs
    }
}

/// Whether `s` starts with `p`.
pub fn starts_with(s: &str, p: &str) -> (r: bool)
    ensures
        r == has_prefix(s@, p@),
{
    let n = s.unicode_len();
    let m = p.unicode_len();
    if m > n {
        return false;
    }
    let mut i: usize = 0;
    while i < m
        invariant
            i <= m <= n,
            n == s@.len(),
            m == p@.len(),
            s@.subrange(0, i as int) == p@.subrange(0, i as int),
        decreases m - i,
    {
        if s.get_char(i) != p.get_char(i) {
            assert(s@.subrange(0, m as int)[i as int] != p@[i as int]);
            return false;
        }
        assert(s@.subrange(0, i + 1) =~= s@.subrange(0, i as int).push(s@[i as int]));
        assert(p@.subrange(0, i + 1) =~= p@.subrange(0, i as int).push(p@[i as int]));
        i = i + 1;
    }
    assert(p@.subrange(0, m as int) =~= p@);
    true
}

/// Appends a finding unless too many of its kind are listed already; at the
/// cap a single closing note stands for the rest.
pub fn push_capped(findings: &mut Vec<Finding>, severity: Severity, line: Option<usize>, message: String, cap_kind: &str)
    ensures
        findings_view(final(findings)@) == capped_push(findings_view(old(findings)@), (severity, line, message@), cap_kind@),
{
    let ghost all = findings_view(findings@);
    let mut count: usize = 0;
    let mut i: usize = 0;
    while i < findings.len()
        invariant
            i <= findings.len(),
            all == findings_view(findings@),
            count == count_kind(all.take(i as int), cap_kind@),
            count <= i,
        decreases findings.len() - i,
    {
        assert(all.take(i + 1).drop_last() =~= all.take(i as int));
        if starts_with(findings[i].message.as_str(), cap_kind) {
            count = count + 1;
        }
        i = i + 1;
    }
    assert(all.take(findings.len() as int) =~= all);
    if count < CAP {
        findings.push(Finding { severity, line, message });
        assert(findings_view(findings@) =~= all.push((severity, line, message@)));
    } else if count == CAP {
        let mut m = owned(cap_kind);
        m.append(": 他にも検出 (表示は");
        push_digits(&mut m, CAP as u64);
        m.append("件で打ち切り)");
        let ghost mv = m@;
        findings.push(Finding { severity, line: None, message: m });
        assert(findings_view(findings@) =~= all.push((severity, None, mv)));
    }
}

/// `s` split at every '.' (an empty text gives one empty segment).
pub open spec fn split_dots(s: Seq<char>) -> Seq<Seq<char>>
    decreases s.len(),
{
    if s.len() == 0 {
        seq![Seq::empty()]
    } else {
        let prev = split_dots(s.drop_last());
        if s.last() == '.' {
            prev.push(Seq::empty())
        } else {
            prev.update(prev.len() - 1, prev.last().push(s.last()))
        }
    }
}

/// Splits `s` at every '.'.
pub fn split_at_dots(s: &str) -> (r: Vec<String>)
    ensures
        views(r@) == split_dots(s@),
{
    let n = s.unicode_len();
    let mut done: Vec<String> = Vec::new();
    let mut cur = String::new();
    let mut i: usize = 0;
    while i < n
        invariant
            i <= n,
            n == s@.len(),
            views(done@).push(cur@) == split_dots(s@.take(i as int)),
        decreases n - i,
    {
        let c = s.get_char(i);
        let ghost before = views(done@).push(cur@);
        assert(s@.take(i + 1).drop_last() =~= s@.take(i as int));
        if c == '.' {
            let finished = cur;
            done.push(finished);
            cur = String::new();
            assert(views(done@).push(cur@) =~= before.push(Seq::empty()));
        } else {
            push_char(&mut cur, c);
            assert(views(done@).push(cur@) =~= before.update(before.len() - 1, before.last().push(c)));
        }
        i = i + 1;
    }
    assert(s@.take(n as int) =~= s@);
    let ghost before = views(done@).push(cur@);
    done.push(cur);
    assert(views(done@) =~= before);
    done
}

/// Following the keys `segs` down from `v`.
pub open spec fn descend(v: Json, segs: Seq<Seq<char>>) -> Option<Json>
    decreases segs.len(),
{
    if segs.len() == 0 {
        Some(v)
    } else {
        match get_key(v, segs[0]) {
            Some(x) => descend(x, segs.drop_first()),
            None => None,
        }
    }
}

/// The value at a dotted path ("person.id").
pub open spec fn at_path(v: Json, path: Seq<char>) -> Option<Json> {
    descend(v, split_dots(path))
}

/// Follows the dotted `path` of member keys down from `v`.
pub fn extract<'a>(v: &'a Json, path: &str) -> (r: Option<&'a Json>)
    ensures
        match r {
            Some(x) => at_path(*v, path@) == Some(*x),
            None => at_path(*v, path@) is None,
        },
{
    let segs = split_at_dots(path);
    let ghost sv = views(segs@);
    let mut cur: &Json = v;
    let mut i: usize = 0;
    assert(sv.skip(0) =~= sv);
    while i < segs.len()
        invariant
            i <= segs.len(),
            sv == views(segs@),
            sv == split_dots(path@),
            at_path(*v, path@) == descend(*cur, sv.skip(i as int)),
        decreases segs.len() - i,
    {
        assert(sv.skip(i as int)[0] == segs@[i as int]@);
        assert(sv.skip(i as int).drop_first() =~= sv.skip(i + 1));
        match cur.get(segs[i].as_str()) {
            Some(x) => {
                cur = x;
            },
            None => {
                return None;
            },
        }
        i = i + 1;
    }
    assert(sv.skip(i as int).len() == 0);
    Some(cur)
}

/// Text of a value used in a record key: `null`, a string's own text, or the
/// value's compact JSON.
pub open spec fn key_text(v: Json) -> Seq<char> {
    match v {
        Json::Null => "null"@,
        Json::String(s) => s@,
        _ => json_text(v),
    }
}

/// The key text of `v` (see [`key_text`]).
pub fn value_to_key(v: &Json) -> (r: String)
    ensures
        r@ == key_text(*v),
{
    match v {
        Json::Null => owned("null"),
        Json::String(s) => s.clone(),
        _ => to_json_text(v),
    }
}

/// Whether `t` occurs in `s`.
pub open spec fn contains_text(s: Seq<char>, t: Seq<char>) -> bool {
    exists|i: int| 0 <= i && i + t.len() <= s.len() && #[trigger] s.subrange(i, i + t.len()) == t
}

/// Whether `t` occurs in `s`.
pub fn text_contains(s: &str, t: &str) -> (r: bool)
    ensures
        r == contains_text(s@, t@),
{
    let n = s.unicode_len();
    let m = t.unicode_len();
    if m > n {
        assert(!contains_text(s@, t@));
        return false;
    }
    if m == 0 {
        assert(s@.subrange(0, 0 + t@.len() as int) =~= t@);
        return true;
    }
    let mut i: usize = 0;
    while i <= n - m
        invariant
            m <= n,
            n == s@.len(),
            m == t@.len(),
            i <= n - m + 1,
            forall|k: int| 0 <= k < i ==> #[trigger] s@.subrange(k, k + m) != t@,
        decreases n - m + 1 - i,
    {
        let mut j: usize = 0;
        let mut same = true;
        assert(s@.subrange(i as int, i as int) =~= t@.subrange(0, 0));
        while j < m
            invariant
                j <= m,
                i + m <= n,
                n == s@.len(),
                m == t@.len(),
                same == (s@.subrange(i as int, i + j) == t@.subrange(0, j as int)),
            decreases m - j,
        {
            if s.get_char(i + j) != t.get_char(j) {
                if same {
                    assert(s@.subrange(i as int, i + j + 1)[j as int] != t@.subrange(0, j + 1)[j as int]);
                }
                same = false;
            } else if same {
                assert(s@.subrange(i as int, i + j + 1) =~= s@.subrange(i as int, i + j).push(s@[i + j]));
                assert(t@.subrange(0, j + 1) =~= t@.subrange(0, j as int).push(t@[j as int]));
            }
            proof {
                if !same && s@.subrange(i as int, i + j + 1) == t@.subrange(0, j + 1) {
                    if s@.subrange(i as int, i + j) != t@.subrange(0, j as int) {
                        assert(s@.subrange(i as int, i + j) =~= s@.subrange(i as int, i + j + 1).subrange(0, j as int));
                        assert(t@.subrange(0, j as int) =~= t@.subrange(0, j + 1).subrange(0, j as int));
                    } else {
                        assert(s@.subrange(i as int, i + j + 1)[j as int] == t@.subrange(0, j + 1)[j as int]);
                    }
                }
            }
            j = j + 1;
        }
        assert(t@.subrange(0, m as int) =~= t@);
        if same {
            assert(s@.subrange(i as int, i + m) == t@);
            return true;
        }
        i = i + 1;
    }
    assert forall|k: int| 0 <= k && k + t@.len() <= s@.len() implies #[trigger] s@.subrange(k, k + t@.len()) != t@ by {
        assert(k < i);
    }
    false
}

/// The "key=value" note of a member whose key mentions "count" and whose
/// value is a negative integer; nothing for any other member.
pub open spec fn own_negative(entry: (String, Json)) -> Seq<Seq<char>> {
    match entry.1 {
        Json::Number(n) => match n.as_i64 {
            Some(x) => if contains_text(entry.0@, "count"@) && x < 0 {
                seq![entry.0@ + seq!['='] + int_text(x as int)]
            } else {
                Seq::empty()
            },
            None => Seq::empty(),
        },
        _ => Seq::empty(),
    }
}

/// Every negative "count" member found anywhere inside `v`, in document order.
pub open spec fn negative_counts(v: Json) -> Seq<Seq<char>>
    decreases v, 1int,
{
    match v {
        Json::Object(entries) => member_negatives(entries@),
        Json::Array(items) => item_negatives(items@),
        _ => Seq::empty(),
    }
}

/// Negative "count" members among object members and inside their values.
pub open spec fn member_negatives(entries: Seq<(String, Json)>) -> Seq<Seq<char>>
    decreases entries, 0int,
{
    if entries.len() == 0 {
        Seq::empty()
    } else {
        member_negatives(entries.drop_last()) + own_negative(entries.last()) + negative_counts(entries.last().1)
    }
}

/// Negative "count" members inside array elements.
pub open spec fn item_negatives(items: Seq<Json>) -> Seq<Seq<char>>
    decreases items, 0int,
{
    if items.len() == 0 {
        Seq::empty()
    } else {
        item_negatives(items.drop_last()) + negative_counts(items.last())
    }
}

/// Collects every member, at any depth, whose key mentions "count" and whose
/// value is a negative integer, as "key=value".
pub fn scan_negative_counts(v: &Json, out: &mut Vec<String>)
    ensures
        views(final(out)@) == views(old(out)@) + negative_counts(*v),
    decreases v,
{
    let ghost o = views(out@);
    match v {
        Json::Object(entries) => {
            let mut i: usize = 0;
            while i < entries.len()
                invariant
                    i <= entries.len(),
                    *v == Json::Object(*entries),
                    views(out@) == o + member_negatives(entries@.take(i as int)),
                decreases entries.len() - i,
            {
                assert(entries@.take(i + 1).drop_last() =~= entries@.take(i as int));
                let k = &entries[i].0;
                let val = &entries[i].1;
                let ghost before = views(out@);
                let ghost own = own_negative(entries@[i as int]);
                if text_contains(k.as_str(), "count") {
                    match val.as_i64() {
                        Some(n) => {
                            if n < 0 {
                                let mut e = k.clone();
                                push_char(&mut e, '=');
                                e.append(crate::text::int_to_text(n).as_str());
                                assert(e@ =~= k@ + seq!['='] + int_text(n as int));
                                assert(own == seq![e@]);
                                out.push(e);
                            } else {
                                assert(own == Seq::<Seq<char>>::empty());
                            }
                        },
                        None => {
                            assert(own == Seq::<Seq<char>>::empty());
                        },
                    }
                } else {
                    assert(own == Seq::<Seq<char>>::empty());
                }
                assert(views(out@) =~= before + own_negative(entries@[i as int]));
                proof {
                    let ve = (*v)->Object_0;
                    assert(decreases_to!(*v => ve));
                    assert(decreases_to!(ve => ve@));
                    assert(decreases_to!(ve@ => ve@[i as int]));
                    assert(decreases_to!(ve@[i as int] => ve@[i as int].1));
                }
                scan_negative_counts(val, out);
                assert(views(out@) =~= o + member_negatives(entries@.take(i + 1)));
                i = i + 1;
            }
            assert(entries@.take(entries.len() as int) =~= entries@);
        },
        Json::Array(items) => {
            let mut i: usize = 0;
            while i < items.len()
                invariant
                    i <= items.len(),
                    *v == Json::Array(*items),
                    views(out@) == o + item_negatives(items@.take(i as int)),
                decreases items.len() - i,
            {
                assert(items@.take(i + 1).drop_last() =~= items@.take(i as int));
                proof {
                    let vi = (*v)->Array_0;
                    assert(decreases_to!(*v => vi));
                    assert(decreases_to!(vi => vi@));
                    assert(decreases_to!(vi@ => vi@[i as int]));
                }
                scan_negative_counts(&items[i], out);
                assert(views(out@) =~= o + item_negatives(items@.take(i + 1)));
                i = i + 1;
            }
            assert(items@.take(items.len() as int) =~= items@);
        },
        _ => {
            assert(views(out@) =~= o + negative_counts(*v));
        },
    }
}

/// The dotted paths of a file's unique key.
pub open spec fn key_paths(uk: Seq<&str>) -> Seq<Seq<char>> {
    uk.map_values(|p: &str| p@)
}

/// The key text of the value at one path, "∅" when the path is missing.
pub open spec fn path_key(v: Json, path: Seq<char>) -> Seq<char> {
    match at_path(v, path) {
        Some(x) => key_text(x),
        None => "∅"@,
    }
}

/// The unique-key text of a record: the path keys joined with "|".
pub open spec fn record_key(v: Json, paths: Seq<Seq<char>>) -> Seq<char> {
    seq_join(paths.map_values(|p: Seq<char>| path_key(v, p)), "|"@)
}

/// Builds the unique-key text of a record (see [`record_key`]).
pub fn record_key_text(v: &Json, unique_key: &[&str]) -> (r: String)
    ensures
        r@ == record_key(*v, key_paths(unique_key@)),
{
    let ghost paths = key_paths(unique_key@);
    let mut parts: Vec<String> = Vec::new();
    let mut i: usize = 0;
    while i < unique_key.len()
        invariant
            i <= unique_key.len(),
            paths == key_paths(unique_key@),
            views(parts@) == paths.take(i as int).map_values(|p: Seq<char>| path_key(*v, p)),
        decreases unique_key.len() - i,
    {
        let part = match extract(v, unique_key[i]) {
            Some(x) => value_to_key(x),
            None => owned("∅"),
        };
        let ghost before = views(parts@);
        parts.push(part);
        assert(views(parts@) =~= before.push(path_key(*v, paths[i as int])));
        assert(paths.take(i + 1).map_values(|p: Seq<char>| path_key(*v, p))
            =~= paths.take(i as int).map_values(|p: Seq<char>| path_key(*v, p)).push(path_key(*v, paths[i as int])));
        i = i + 1;
    }
    assert(paths.take(unique_key.len() as int) =~= paths);
    join(&parts, "|")
}

/// A field statistic as plain values: name, type, present, null, true, false.
pub open spec fn stat_view(s: FieldStat) -> (Seq<char>, Seq<char>, nat, nat, nat, nat) {
    (s.name@, s.ty@, s.present as nat, s.null as nat, s.bool_true as nat, s.bool_false as nat)
}

/// The plain values of a list of field statistics.
pub open spec fn stats_view(v: Seq<FieldStat>) -> Seq<(Seq<char>, Seq<char>, nat, nat, nat, nat)> {
    v.map_values(|s: FieldStat| stat_view(s))
}

/// A field's type after seeing `val`: booleans, arrays and objects mark it,
/// other values leave it as it was.
pub open spec fn next_type(ty: Seq<char>, val: Json) -> Seq<char> {
    match val {
        Json::Bool(_) => "bool"@,
        Json::Array(_) => "array"@,
        Json::Object(_) => "object"@,
        _ => ty,
    }
}

/// A field statistic after one more occurrence with value `val`.
pub open spec fn bump(st: (Seq<char>, Seq<char>, nat, nat, nat, nat), val: Json) -> (Seq<char>, Seq<char>, nat, nat, nat, nat) {
    (
        st.0,
        next_type(st.1, val),
        st.2 + 1,
        st.3 + if val is Null { 1nat } else { 0nat },
        st.4 + if val == Json::Bool(true) { 1nat } else { 0nat },
        st.5 + if val == Json::Bool(false) { 1nat } else { 0nat },
    )
}

/// Index of the statistic for field `k`, or -1.
pub open spec fn find_stat(stats: Seq<(Seq<char>, Seq<char>, nat, nat, nat, nat)>, k: Seq<char>) -> int
    decreases stats.len(),
{
    if stats.len() == 0 {
        -1
    } else {
        let f = find_stat(stats.drop_last(), k);
        if f >= 0 { f } else if stats.last().0 == k { stats.len() - 1 } else { -1 }
    }
}

/// Statistics after one member `k: val`: the field's entry is bumped, or a
/// new "scalar" entry is appended for a field not seen before.
pub open spec fn add_member(stats: Seq<(Seq<char>, Seq<char>, nat, nat, nat, nat)>, k: Seq<char>, val: Json) -> Seq<(Seq<char>, Seq<char>, nat, nat, nat, nat)> {
    let i = find_stat(stats, k);
    if i >= 0 {
        stats.update(i, bump(stats[i], val))
    } else {
        stats.push(bump((k, "scalar"@, 0nat, 0nat, 0nat, 0nat), val))
    }
}

/// Statistics after the members of one object, in order.
pub open spec fn add_members(stats: Seq<(Seq<char>, Seq<char>, nat, nat, nat, nat)>, entries: Seq<(String, Json)>) -> Seq<(Seq<char>, Seq<char>, nat, nat, nat, nat)>
    decreases entries.len(),
{
    if entries.len() == 0 {
        stats
    } else {
        add_member(add_members(stats, entries.drop_last()), entries.last().0@, entries.last().1)
    }
}

/// Statistics of the top-level fields of the object records, fields in order
/// of first appearance; records that are not objects are skipped.
pub open spec fn stats_of(values: Seq<Json>) -> Seq<(Seq<char>, Seq<char>, nat, nat, nat, nat)>
    decreases values.len(),
{
    if values.len() == 0 {
        Seq::empty()
    } else {
        let prev = stats_of(values.drop_last());
        match values.last() {
            Json::Object(entries) => add_members(prev, entries@),
            _ => prev,
        }
    }
}

/// Number of top-level members over the object records.
pub open spec fn total_members(values: Seq<Json>) -> nat
    decreases values.len(),
{
    if values.len() == 0 {
        0
    } else {
        total_members(values.drop_last()) + match values.last() {
            Json::Object(entries) => entries@.len(),
            _ => 0,
        }
    }
}

/// The records' values.
pub open spec fn record_values(records: Seq<(usize, Json)>) -> Seq<Json> {
    records.map_values(|r: (usize, Json)| r.1)
}

/// Every counter is at most `bound`, and the per-value counters at most the occurrences.
pub open spec fn stats_bounded(stats: Seq<(Seq<char>, Seq<char>, nat, nat, nat, nat)>, bound: nat) -> bool {
    forall|j: int|
        0 <= j < stats.len() ==> (#[trigger] stats[j]).2 <= bound && stats[j].3 <= stats[j].2 && stats[j].4
            <= stats[j].2 && stats[j].5 <= stats[j].2
}

proof fn lemma_find_stat(stats: Seq<(Seq<char>, Seq<char>, nat, nat, nat, nat)>, k: Seq<char>)
    ensures
        -1 <= find_stat(stats, k) < stats.len(),
        find_stat(stats, k) >= 0 ==> stats[find_stat(stats, k)].0 == k,
        find_stat(stats, k) == -1 ==> forall|j: int| 0 <= j < stats.len() ==> (#[trigger] stats[j]).0 != k,
        find_stat(stats, k) >= 0 ==> forall|j: int| 0 <= j < find_stat(stats, k) ==> (#[trigger] stats[j]).0 != k,
    decreases stats.len(),
{
    if stats.len() > 0 {
        let prev = stats.drop_last();
        lemma_find_stat(prev, k);
        let f = find_stat(stats, k);
        assert forall|j: int| 0 <= j < stats.len() && f == -1 implies (#[trigger] stats[j]).0 != k by {
            if j < prev.len() {
                assert(stats[j] == prev[j]);
            }
        }
        assert forall|j: int| 0 <= j < f implies (#[trigger] stats[j]).0 != k by {
            assert(stats[j] == prev[j]);
        }
    }
}

/// Counts, per top-level field of the object records, how often it occurs,
/// how often it is null, true or false, and which kind of value it holds.
pub fn field_stats(records: &[(usize, Json)]) -> (r: Vec<FieldStat>)
    requires
        total_members(record_values(records@)) <= usize::MAX,
    ensures
        stats_view(r@) == stats_of(record_values(records@)),
{
    let ghost vals = record_values(records@);
    let mut stats: Vec<FieldStat> = Vec::new();
    let mut i: usize = 0;
    while i < records.len()
        invariant
            i <= records.len(),
            vals == record_values(records@),
            total_members(vals) <= usize::MAX,
            stats_view(stats@) == stats_of(vals.take(i as int)),
            stats_bounded(stats_view(stats@), total_members(vals.take(i as int))),
            total_members(vals.take(i as int)) <= total_members(vals),
        decreases records.len() - i,
    {
        proof {
            lemma_total_members_prefix(vals, i as int + 1);
        }
        assert(vals.take(i + 1).drop_last() =~= vals.take(i as int));
        match &records[i].1 {
            Json::Object(entries) => {
                let ghost base = stats_view(stats@);
                let ghost before_total = total_members(vals.take(i as int));
                let mut e: usize = 0;
                while e < entries.len()
                    invariant
                        e <= entries.len(),
                        before_total + entries@.len() <= usize::MAX,
                        stats_view(stats@) == add_members(base, entries@.take(e as int)),
                        stats_bounded(stats_view(stats@), (before_total + e) as nat),
                    decreases entries.len() - e,
                {
                    assert(entries@.take(e + 1).drop_last() =~= entries@.take(e as int));
                    let k = &entries[e].0;
                    let val = &entries[e].1;
                    let ghost sv = stats_view(stats@);
                    proof {
                        lemma_find_stat(sv, k@);
                    }
                    let mut idx: usize = 0;
                    while idx < stats.len() && !(stats[idx].name == *k)
                        invariant
                            idx <= stats.len(),
                            sv == stats_view(stats@),
                            forall|j: int| 0 <= j < idx ==> (#[trigger] sv[j]).0 != k@,
                        decreases stats.len() - idx,
                    {
                        idx = idx + 1;
                    }
                    let found = idx < stats.len();
                    if !found {
                        stats.push(FieldStat { name: k.clone(), ty: "scalar", present: 0, null: 0, bool_true: 0, bool_false: 0 });
                        idx = stats.len() - 1;
                        assert(find_stat(sv, k@) == -1);
                    } else {
                        proof {
                            let f = find_stat(sv, k@);
                            assert(sv[idx as int].0 == k@);
                            assert(f != -1);
                            if f < idx as int {
                                assert(sv[f].0 != k@);
                            }
                            if f > idx as int {
                                assert(sv[idx as int].0 != k@);
                            }
                            assert(find_stat(sv, k@) == idx);
                        }
                    }
                    let ghost mid = stats_view(stats@);
                    let mut st = stats.remove(idx);
                    st.present = st.present + 1;
                    match val {
                        Json::Null => {
                            st.null = st.null + 1;
                        },
                        Json::Bool(b) => {
                            st.ty = "bool";
                            if *b {
                                st.bool_true = st.bool_true + 1;
                            } else {
                                st.bool_false = st.bool_false + 1;
                            }
                        },
                        Json::Array(_) => {
                            st.ty = "array";
                        },
                        Json::Object(_) => {
                            st.ty = "object";
                        },
                        _ => {},
                    }
                    let ghost stv = stat_view(st);
                    stats.insert(idx, st);
                    assert(stats_view(stats@) =~= mid.update(idx as int, stv));
                    assert(stv == bump(mid[idx as int], *val));
                    assert(stats_view(stats@) =~= add_member(sv, k@, *val));
                    e = e + 1;
                }
                assert(entries@.take(entries.len() as int) =~= entries@);
            },
            _ => {},
        }
        i = i + 1;
    }
    assert(vals.take(records.len() as int) =~= vals);
    stats
}

proof fn lemma_total_members_prefix(vals: Seq<Json>, k: int)
    requires
        0 <= k <= vals.len(),
    ensures
        total_members(vals.take(k)) <= total_members(vals),
    decreases vals.len(),
{
    if k < vals.len() {
        assert(vals.drop_last().take(k) =~= vals.take(k));
        lemma_total_members_prefix(vals.drop_last(), k);
    } else {
        assert(vals.take(k) =~= vals);
    }
}

/// A pending finding: severity, line, message and the kind it is capped by.
pub type Candidate = (Severity, Option<usize>, Seq<char>, Seq<char>);

/// Findings after adding each candidate in order under the per-kind cap.
pub open spec fn apply_capped(fs: Seq<(Severity, Option<usize>, Seq<char>)>, cands: Seq<Candidate>) -> Seq<(Severity, Option<usize>, Seq<char>)>
    decreases cands.len(),
{
    if cands.len() == 0 {
        fs
    } else {
        let c = cands.last();
        capped_push(apply_capped(fs, cands.drop_last()), (c.0, c.1, c.2), c.3)
    }
}

/// The key texts of the records.
pub open spec fn keys_seen(paths: Seq<Seq<char>>, records: Seq<(usize, Json)>) -> Set<Seq<char>>
    decreases records.len(),
{
    if records.len() == 0 {
        Set::empty()
    } else {
        keys_seen(paths, records.drop_last()).insert(record_key(records.last().1, paths))
    }
}

/// Message of a repeated unique key.
pub open spec fn duplicate_message(paths: Seq<Seq<char>>, key: Seq<char>) -> Seq<char> {
    "ユニークキー重複: ("@ + seq_join(paths, ", "@) + ") = "@ + key
}

/// One error for every record whose unique key an earlier record already had.
pub open spec fn duplicate_candidates(paths: Seq<Seq<char>>, records: Seq<(usize, Json)>) -> Seq<Candidate>
    decreases records.len(),
{
    if records.len() == 0 {
        Seq::empty()
    } else {
        let prev = duplicate_candidates(paths, records.drop_last());
        let r = records.last();
        let key = record_key(r.1, paths);
        if keys_seen(paths, records.drop_last()).contains(key) {
            prev.push((Severity::Error, Some(r.0), duplicate_message(paths, key), "ユニークキー重複"@))
        } else {
            prev
        }
    }
}

/// One error per negative count inside each record, records in order.
pub open spec fn negative_candidates(records: Seq<(usize, Json)>) -> Seq<Candidate>
    decreases records.len(),
{
    if records.len() == 0 {
        Seq::empty()
    } else {
        let r = records.last();
        negative_candidates(records.drop_last()) + negative_counts(r.1).map_values(
            |e: Seq<char>| (Severity::Error, Some(r.0), "カウント負値: "@ + e, "カウント負値"@),
        )
    }
}

/// The page number and page count of a record, when both are unsigned integers.
pub open spec fn page_fields(v: Json) -> Option<(u64, u64)> {
    match (get_key(v, "page"@), get_key(v, "total_pages"@)) {
        (Some(p), Some(t)) => match (p, t) {
            (Json::Number(pn), Json::Number(tn)) => match (pn.as_u64, tn.as_u64) {
                (Some(a), Some(b)) => Some((a, b)),
                _ => None,
            },
            _ => None,
        },
        _ => None,
    }
}

/// One error for every record whose page lies outside `1..=total_pages`
/// (records with a page count of 0 are not judged).
pub open spec fn page_candidates(records: Seq<(usize, Json)>) -> Seq<Candidate>
    decreases records.len(),
{
    if records.len() == 0 {
        Seq::empty()
    } else {
        let prev = page_candidates(records.drop_last());
        let r = records.last();
        match page_fields(r.1) {
            Some((page, total)) => if total >= 1 && (page < 1 || page > total) {
                prev.push(
                    (
                        Severity::Error,
                        Some(r.0),
                        "ページ範囲外: page="@ + digits(page as nat) + " / total_pages="@ + digits(total as nat),
                        "ページ範囲外"@,
                    ),
                )
            } else {
                prev
            },
            None => prev,
        }
    }
}

/// Findings after the semantic checks: a warning when there are no records;
/// otherwise duplicate unique keys (when the file has one), then negative
/// counts, then pages out of range, each kind capped.
pub open spec fn semantic_findings(
    fs: Seq<(Severity, Option<usize>, Seq<char>)>,
    paths: Seq<Seq<char>>,
    records: Seq<(usize, Json)>,
) -> Seq<(Severity, Option<usize>, Seq<char>)> {
    if records.len() == 0 {
        fs.push((Severity::Warn, None, "レコードが0件です"@))
    } else {
        let a = if paths.len() > 0 { apply_capped(fs, duplicate_candidates(paths, records)) } else { fs };
        let b = apply_capped(a, negative_candidates(records));
        apply_capped(b, page_candidates(records))
    }
}

pub(crate) fn push_candidate(findings: &mut Vec<Finding>, c_sev: Severity, c_line: Option<usize>, msg: String, kind: &str, Ghost(cands): Ghost<Seq<Candidate>>, Ghost(base): Ghost<Seq<(Severity, Option<usize>, Seq<char>)>>)
    requires
        findings_view(old(findings)@) == apply_capped(base, cands),
    ensures
        findings_view(final(findings)@) == apply_capped(base, cands.push((c_sev, c_line, msg@, kind@))),
{
    let ghost m = msg@;
    push_capped(findings, c_sev, c_line, msg, kind);
    assert(cands.push((c_sev, c_line, m, kind@)).drop_last() =~= cands);
}

/// Whether the unique-key text of record `i` was seen before.
fn check_duplicates(findings: &mut Vec<Finding>, unique_key: &[&str], records: &[(usize, Json)])
    requires
        unique_key@.len() > 0,
    ensures
        findings_view(final(findings)@) == apply_capped(findings_view(old(findings)@), duplicate_candidates(key_paths(unique_key@), records@)),
{
    let ghost base = findings_view(findings@);
    let ghost paths = key_paths(unique_key@);
    let mut names: Vec<String> = Vec::new();
    let mut i: usize = 0;
    while i < unique_key.len()
        invariant
            i <= unique_key.len(),
            views(names@) == paths.take(i as int),
            paths == key_paths(unique_key@),
        decreases unique_key.len() - i,
    {
        let ghost before = views(names@);
        names.push(owned(unique_key[i]));
        assert(views(names@) =~= before.push(paths[i as int]));
        assert(paths.take(i + 1) =~= paths.take(i as int).push(paths[i as int]));
        i = i + 1;
    }
    assert(paths.take(unique_key.len() as int) =~= paths);
    let joined = join(&names, ", ");
    let mut seen = StringHashSet::new();
    let mut r: usize = 0;
    assert(duplicate_candidates(paths, records@.take(0)) =~= Seq::<Candidate>::empty());
    while r < records.len()
        invariant
            r <= records.len(),
            paths == key_paths(unique_key@),
            joined@ == seq_join(paths, ", "@),
            seen@ == keys_seen(paths, records@.take(r as int)),
            findings_view(findings@) == apply_capped(base, duplicate_candidates(paths, records@.take(r as int))),
        decreases records.len() - r,
    {
        let ghost pre = records@.take(r as int);
        assert(records@.take(r + 1).drop_last() =~= pre);
        let key = record_key_text(&records[r].1, unique_key);
        let fresh = seen.insert(key.clone());
        if !fresh {
            let mut msg = owned("ユニークキー重複: (");
            msg.append(joined.as_str());
            msg.append(") = ");
            msg.append(key.as_str());
            push_candidate(findings, Severity::Error, Some(records[r].0), msg, "ユニークキー重複", Ghost(duplicate_candidates(paths, pre)), Ghost(base));
        }
        r = r + 1;
    }
    assert(records@.take(records.len() as int) =~= records@);
}

fn check_negatives(findings: &mut Vec<Finding>, records: &[(usize, Json)])
    ensures
        findings_view(final(findings)@) == apply_capped(findings_view(old(findings)@), negative_candidates(records@)),
{
    let ghost base = findings_view(findings@);
    let mut r: usize = 0;
    assert(negative_candidates(records@.take(0)) =~= Seq::<Candidate>::empty());
    while r < records.len()
        invariant
            r <= records.len(),
            findings_view(findings@) == apply_capped(base, negative_candidates(records@.take(r as int))),
        decreases records.len() - r,
    {
        let ghost pre = records@.take(r as int);
        assert(records@.take(r + 1).drop_last() =~= pre);
        let line = records[r].0;
        let mut bad: Vec<String> = Vec::new();
        scan_negative_counts(&records[r].1, &mut bad);
        assert(views(bad@) =~= negative_counts(records@[r as int].1));
        let ghost all_new = negative_counts(records@[r as int].1).map_values(
            |e: Seq<char>| (Severity::Error, Some(line), "カウント負値: "@ + e, "カウント負値"@),
        );
        let mut k: usize = 0;
        while k < bad.len()
            invariant
                k <= bad.len(),
                views(bad@) == negative_counts(records@[r as int].1),
                all_new == negative_counts(records@[r as int].1).map_values(
                    |e: Seq<char>| (Severity::Error, Some(line), "カウント負値: "@ + e, "カウント負値"@),
                ),
                findings_view(findings@) == apply_capped(base, negative_candidates(pre) + all_new.take(k as int)),
            decreases bad.len() - k,
        {
            let mut msg = owned("カウント負値: ");
            msg.append(bad[k].as_str());
            push_candidate(findings, Severity::Error, Some(line), msg, "カウント負値", Ghost(negative_candidates(pre) + all_new.take(k as int)), Ghost(base));
            assert((negative_candidates(pre) + all_new.take(k as int)).push(all_new[k as int]) =~= negative_candidates(pre) + all_new.take(k + 1));
            k = k + 1;
        }
        assert(all_new.take(bad.len() as int) =~= all_new);
        r = r + 1;
    }
    assert(records@.take(records.len() as int) =~= records@);
}

fn check_pages(findings: &mut Vec<Finding>, records: &[(usize, Json)])
    ensures
        findings_view(final(findings)@) == apply_capped(findings_view(old(findings)@), page_candidates(records@)),
{
    let ghost base = findings_view(findings@);
    let mut r: usize = 0;
    assert(page_candidates(records@.take(0)) =~= Seq::<Candidate>::empty());
    while r < records.len()
        invariant
            r <= records.len(),
            findings_view(findings@) == apply_capped(base, page_candidates(records@.take(r as int))),
        decreases records.len() - r,
    {
        let ghost pre = records@.take(r as int);
        assert(records@.take(r + 1).drop_last() =~= pre);
        let v = &records[r].1;
        let page = match v.get("page") {
            Some(p) => p.as_u64(),
            None => None,
        };
        let total = match v.get("total_pages") {
            Some(t) => t.as_u64(),
            None => None,
        };
        match (page, total) {
            (Some(page), Some(total)) => {
                assert(page_fields(*v) == Some((page, total)));
                if total >= 1 && (page < 1 || page > total) {
                    let mut msg = owned("ページ範囲外: page=");
                    push_digits(&mut msg, page);
                    msg.append(" / total_pages=");
                    push_digits(&mut msg, total);
                    push_candidate(findings, Severity::Error, Some(records[r].0), msg, "ページ範囲外", Ghost(page_candidates(pre)), Ghost(base));
                }
            },
            _ => {
                assert(page_fields(*v) is None);
            },
        }
        r = r + 1;
    }
    assert(records@.take(records.len() as int) =~= records@);
}

/// Semantic checks of a file's records: no records at all (warning),
/// repeated unique keys, negative counts and pages out of range (errors).
pub fn semantic_checks(spec: &DataFileSpec, records: &[(usize, Json)], report: &mut FileReport)
    ensures
        findings_view(final(report).findings@) == semantic_findings(
            findings_view(old(report).findings@),
            key_paths(spec.unique_key@),
            records@,
        ),
        final(report).name == old(report).name,
        final(report).label == old(report).label,
        final(report).present == old(report).present,
        final(report).record_count == old(report).record_count,
        final(report).samples == old(report).samples,
        final(report).fields == old(report).fields,
{
    if records.len() == 0 {
        let ghost before = findings_view(report.findings@);
        report.findings.push(Finding { severity: Severity::Warn, line: None, message: owned("レコードが0件です") });
        assert(findings_view(report.findings@) =~= before.push((Severity::Warn, None, "レコードが0件です"@)));
        return;
    }
    if spec.unique_key.len() > 0 {
        check_duplicates(&mut report.findings, spec.unique_key, records);
    }
    check_negatives(&mut report.findings, records);
    check_pages(&mut report.findings, records);
}

/// Every finding is an error or a warning: the two counts add up to the
/// number of findings.
pub proof fn lemma_errors_and_warns(fs: Seq<(Severity, Option<usize>, Seq<char>)>)
    ensures
        count_severity(fs, Severity::Error) + count_severity(fs, Severity::Warn) == fs.len(),
    decreases fs.len(),
{
    if fs.len() > 0 {
        lemma_errors_and_warns(fs.drop_last());
    }
}

/// The closing note of a kind is counted as a finding of that kind.
proof fn lemma_cap_message_prefix(kind: Seq<char>)
    ensures
        has_prefix(cap_message(kind), kind),
{
    let m = cap_message(kind);
    assert(m.subrange(0, kind.len() as int) =~= kind);
}

/// A kind never shows more than [`CAP`] findings and its closing note:
/// adding a finding under the cap keeps a kind that has at most `CAP + 1`
/// findings at no more than `CAP + 1`.
pub proof fn lemma_capped_push_bound(
    fs: Seq<(Severity, Option<usize>, Seq<char>)>,
    f: (Severity, Option<usize>, Seq<char>),
    kind: Seq<char>,
)
    requires
        count_kind(fs, kind) <= CAP + 1,
    ensures
        count_kind(capped_push(fs, f, kind), kind) <= CAP + 1,
        count_kind(fs, kind) < CAP ==> count_kind(capped_push(fs, f, kind), kind) <= CAP,
{
    let n = count_kind(fs, kind);
    let r = capped_push(fs, f, kind);
    if n < CAP {
        assert(r.drop_last() =~= fs);
    } else if n == CAP {
        assert(r.drop_last() =~= fs);
        lemma_cap_message_prefix(kind);
    }
}

/// Adding candidates of one kind under the cap leaves that kind with at
/// most [`CAP`] findings and one closing note.
pub proof fn lemma_apply_capped_bound(
    fs: Seq<(Severity, Option<usize>, Seq<char>)>,
    cands: Seq<Candidate>,
    kind: Seq<char>,
)
    requires
        count_kind(fs, kind) <= CAP + 1,
        forall|i: int| 0 <= i < cands.len() ==> (#[trigger] cands[i]).3 == kind,
    ensures
        count_kind(apply_capped(fs, cands), kind) <= CAP + 1,
    decreases cands.len(),
{
    if cands.len() > 0 {
        let c = cands.last();
        assert forall|i: int| 0 <= i < cands.drop_last().len() implies (#[trigger] cands.drop_last()[i]).3 == kind by {
            assert(cands.drop_last()[i] == cands[i]);
        }
        lemma_apply_capped_bound(fs, cands.drop_last(), kind);
        lemma_capped_push_bound(apply_capped(fs, cands.drop_last()), (c.0, c.1, c.2), c.3);
    }
}

/// A record whose page lies in `1..=total_pages` adds no page finding; so
/// does one without both numbers, or with a page count of 0.
pub proof fn lemma_page_in_range(records: Seq<(usize, Json)>, line: usize, v: Json)
    requires
        match page_fields(v) {
            Some((p, t)) => t == 0 || (1 <= p && p <= t),
            None => true,
        },
    ensures
        page_candidates(records.push((line, v))) == page_candidates(records),
{
    assert(records.push((line, v)).drop_last() =~= records);
}

/// A record whose page is 0 or beyond a page count of at least 1 adds
/// exactly one error, on its line, of the kind "ページ範囲外".
pub proof fn lemma_page_out_of_range(records: Seq<(usize, Json)>, line: usize, v: Json, p: u64, t: u64)
    requires
        page_fields(v) == Some((p, t)),
        t >= 1,
        p < 1 || p > t,
    ensures
        page_candidates(records.push((line, v))).len() == page_candidates(records).len() + 1,
        page_candidates(records.push((line, v))).drop_last() == page_candidates(records),
        page_candidates(records.push((line, v))).last().0 == Severity::Error,
        page_candidates(records.push((line, v))).last().1 == Some(line),
        page_candidates(records.push((line, v))).last().3 == "ページ範囲外"@,
{
    assert(records.push((line, v)).drop_last() =~= records);
}

} // verus!
