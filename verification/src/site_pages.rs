//! Decisions of the site build that do not depend on the page templates:
//! which pages are shown, the year links of the "what's new" pages, the
//! person page asked for by id, and the style-sheet aliases.
use vstd::prelude::*;
use crate::list_inp::ListInpData;
use crate::person_pages::PersonPageData;
use crate::regex_text::{groups_view, regex_capture_groups, regex_captures};
use crate::text::{int_text, int_to_text, owned, push_char, views};
use crate::whatsnew::WhatsnewPageData;

verus! {

/// The past years among the pages' years, each once, in increasing order.
pub fn year_links(pages: &Vec<WhatsnewPageData>) -> (r: Vec<i32>)
    ensures
        forall|i: int, j: int| 0 <= i < j < r@.len() ==> r@[i] < r@[j],
        forall|y: i32|
            r@.contains(y) <==> exists|k: int| 0 <= k < pages@.len() && (#[trigger] pages@[k]).year == Some(y),
{
    let mut r: Vec<i32> = Vec::new();
    let mut i: usize = 0;
    while i < pages.len()
        invariant
            i <= pages.len(),
            forall|a: int, b: int| 0 <= a < b < r@.len() ==> r@[a] < r@[b],
            forall|y: i32|
                r@.contains(y) <==> exists|k: int| 0 <= k < i && (#[trigger] pages@[k]).year == Some(y),
        decreases pages.len() - i,
    {
        match pages[i].year {
            Some(y) => {
                let ghost old_r = r@;
                let mut pos: usize = 0;
                while pos < r.len() && r[pos] < y
                    invariant
                        pos <= r@.len(),
                        forall|a: int| 0 <= a < pos ==> r@[a] < y,
                    decreases r.len() - pos,
                {
                    pos = pos + 1;
                }
                if pos < r.len() && r[pos] == y {
                    assert(r@.contains(y));
                    assert forall|x: i32| r@.contains(x) <==> old_r.contains(x) || x == y by {}
                } else {
                    let ghost before = r@;
                    r.insert(pos, y);
                    assert forall|a: int, b: int| 0 <= a < b < r@.len() implies r@[a] < r@[b] by {
                        if b < pos {
                            assert(r@[a] == before[a] && r@[b] == before[b]);
                        } else if b == pos {
                            assert(r@[a] == before[a]);
                        } else if a < pos {
                            assert(r@[a] == before[a] && r@[b] == before[b - 1]);
                            assert(before[b - 1] >= y) by {
                                if pos < before.len() {
                                    assert(before[pos as int] > y);
                                    if b - 1 > pos {
                                        assert(before[pos as int] < before[b - 1]);
                                    }
                                }
                            }
                        } else if a == pos {
                            assert(r@[b] == before[b - 1]);
                            assert(before[pos as int] > y);
                            if b - 1 > pos {
                                assert(before[pos as int] < before[b - 1]);
                            }
                        } else {
                            assert(r@[a] == before[a - 1] && r@[b] == before[b - 1]);
                        }
                    }
                    assert forall|x: i32| r@.contains(x) <==> old_r.contains(x) || x == y by {
                        if r@.contains(x) {
                            let k = choose|k: int| 0 <= k < r@.len() && r@[k] == x;
                            if k < pos {
                                assert(before[k] == x);
                            } else if k > pos {
                                assert(before[k - 1] == x);
                            }
                        }
                        if before.contains(x) {
                            let k = choose|k: int| 0 <= k < before.len() && before[k] == x;
                            if k < pos {
                                assert(r@[k] == x);
                            } else {
                                assert(r@[k + 1] == x);
                            }
                        }
                        if x == y {
                            assert(r@[pos as int] == y);
                        }
                    }
                }
                assert forall|x: i32|
                    r@.contains(x) <==> exists|k: int| 0 <= k < i + 1 && (#[trigger] pages@[k]).year == Some(x) by {
                    assert(r@.contains(x) <==> old_r.contains(x) || x == y);
                    if x == y {
                        assert(pages@[i as int].year == Some(x));
                    }
                    if exists|k: int| 0 <= k < i + 1 && (#[trigger] pages@[k]).year == Some(x) {
                        let k = choose|k: int| 0 <= k < i + 1 && (#[trigger] pages@[k]).year == Some(x);
                        if k < i {
                            assert(exists|k2: int| 0 <= k2 < i && (#[trigger] pages@[k2]).year == Some(x));
                        }
                    }
                }
            },
            None => {
                assert forall|x: i32|
                    r@.contains(x) <==> exists|k: int| 0 <= k < i + 1 && (#[trigger] pages@[k]).year == Some(x) by {
                    if exists|k: int| 0 <= k < i + 1 && (#[trigger] pages@[k]).year == Some(x) {
                        let k = choose|k: int| 0 <= k < i + 1 && (#[trigger] pages@[k]).year == Some(x);
                        assert(k != i);
                        assert(exists|k2: int| 0 <= k2 < i && (#[trigger] pages@[k2]).year == Some(x));
                    }
                }
            },
        }
        i = i + 1;
    }
    r
}

/// The list pages of real people (person 0 stands for "no author" and is
/// not shown), in their order.
pub fn public_list_pages(pages: Vec<ListInpData>) -> (r: Vec<ListInpData>)
    ensures
        r@ == pages@.filter(|d: ListInpData| d.person_id != 0),
{
    let ghost all = pages@;
    let ghost pred = |d: ListInpData| d.person_id != 0;
    assert(all.len() == pages.len());
    let mut rest = pages;
    let mut rev: Vec<ListInpData> = Vec::new();
    while rest.len() > 0
        invariant
            rest@.len() + rev@.len() == all.len(),
            rest@ == all.take(rest@.len() as int),
            forall|j: int| 0 <= j < rev@.len() ==> #[trigger] rev@[j] == all[all.len() - 1 - j],
        decreases rest.len(),
    {
        let ghost before = rest@;
        let x = rest.pop().unwrap();
        assert(all.take(rest@.len() as int) =~= before.drop_last());
        rev.push(x);
    }
    let mut out: Vec<ListInpData> = Vec::new();
    let mut n: usize = 0;
    reveal(Seq::filter);
    assert(all.take(0).filter(pred) =~= Seq::<ListInpData>::empty());
    while rev.len() > 0
        invariant
            n + rev@.len() == all.len(),
            all.len() <= usize::MAX,
            forall|j: int| 0 <= j < rev@.len() ==> #[trigger] rev@[j] == all[all.len() - 1 - j],
            out@ == all.take(n as int).filter(pred),
            pred == (|d: ListInpData| d.person_id != 0),
        decreases rev.len(),
    {
        reveal(Seq::filter);
        let d = rev.pop().unwrap();
        assert(d == all[n as int]);
        assert(all.take(n + 1).drop_last() =~= all.take(n as int));
        assert(all.take(n + 1).last() == d);
        if d.person_id != 0 {
            out.push(d);
        }
        n = n + 1;
    }
    assert(all.take(all.len() as int) =~= all);
    out
}

/// The message when no page has the person asked for.
pub open spec fn person_not_found(person_id: i64) -> Seq<char> {
    "Person not found: "@ + int_text(person_id as int)
}

/// The position of the first page of person `person_id`; an error naming
/// the person when there is none.
pub fn build_single_person(pages: &[PersonPageData], person_id: i64) -> (r: Result<usize, String>)
    ensures
        match r {
            Ok(i) => i < pages@.len() && pages@[i as int].person.id == person_id && forall|j: int|
                0 <= j < i ==> #[trigger] pages@[j].person.id != person_id,
            Err(e) => e@ == person_not_found(person_id) && forall|j: int|
                0 <= j < pages@.len() ==> #[trigger] pages@[j].person.id != person_id,
        },
{
    let mut i: usize = 0;
    while i < pages.len()
        invariant
            i <= pages@.len(),
            forall|j: int| 0 <= j < i ==> #[trigger] pages@[j].person.id != person_id,
        decreases pages.len() - i,
    {
        if pages[i].person.id == person_id {
            return Ok(i);
        }
        i = i + 1;
    }
    let mut msg = owned("Person not found: ");
    let t = int_to_text(person_id);
    msg.append(t.as_str());
    Err(msg)
}

/// The path of a person's page under the output directory.
pub open spec fn person_page_path(person_id: i64) -> Seq<char> {
    "index_pages/person"@ + int_text(person_id as int) + ".html"@
}

/// The path of a person's page under the output directory.
pub fn person_page_file(person_id: i64) -> (r: String)
    ensures
        r@ == person_page_path(person_id),
{
    let mut s = owned("index_pages/person");
    let t = int_to_text(person_id);
    s.append(t.as_str());
    s.append(".html");
    s
}

/// A style-sheet or script name with a fingerprint: a name, a dash, eight or
/// more lower-case hex digits, then `.css` or `.js`, possibly gzipped.
pub const FINGERPRINT_PATTERN: &'static str = r"^(.+)-[0-9a-f]{8,}(\.css(?:\.gz)?|\.js(?:\.gz)?)$";

/// The alias of a fingerprinted name from its capture groups: the name and
/// the extension joined; nothing when the pattern did not match.
pub open spec fn alias_from_groups(g: Option<Option<Seq<Option<Seq<char>>>>>) -> Option<Seq<char>> {
    match g {
        Some(Some(groups)) => if groups.len() >= 3 && groups[1] is Some && groups[2] is Some {
            Some(groups[1]->0 + groups[2]->0)
        } else {
            None
        },
        _ => None,
    }
}

/// The alias of a fingerprinted name from what matching
/// [`FINGERPRINT_PATTERN`] gave.
pub fn fingerprint_alias(groups: Option<Option<Vec<Option<String>>>>) -> (r: Option<String>)
    ensures
        crate::models::opt_view(r) == alias_from_groups(groups_view(groups)),
{
    match groups {
        Some(Some(g)) => {
            if g.len() >= 3 {
                assert(groups_view(Some(Some(g))) == Some(Some(g@.map_values(|o: Option<String>| crate::models::opt_view(o)))));
                match (&g[1], &g[2]) {
                    (Some(name), Some(ext)) => {
                        let mut s = owned(name.as_str());
                        s.append(ext.as_str());
                        Some(s)
                    },
                    _ => None,
                }
            } else {
                None
            }
        },
        _ => None,
    }
}

/// The name without its fingerprint ("tailwind-ffccb42b.css" gives
/// "tailwind.css"); nothing for a name without one.
pub fn strip_fingerprint(filename: &str) -> (r: Option<String>)
    ensures
        crate::models::opt_view(r) == alias_from_groups(regex_capture_groups(FINGERPRINT_PATTERN@, filename@)),
{
    fingerprint_alias(regex_captures(FINGERPRINT_PATTERN, filename))
}

/// Whether a file name has the extension `zip` (a name that is only
/// ".zip" has none).
pub open spec fn is_zip_name(name: Seq<char>) -> bool {
    name.len() > 4 && name.subrange(name.len() - 4, name.len() as int) == ".zip"@
}

/// Whether a file in the zip directory is copied into the site.
pub fn is_zip_file(name: &str) -> (r: bool)
    ensures
        r == is_zip_name(name@),
{
    let n = name.unicode_len();
    if n <= 4 {
        return false;
    }
    let dot = name.get_char(n - 4);
    let z = name.get_char(n - 3);
    let i = name.get_char(n - 2);
    let p = name.get_char(n - 1);
    proof {
        reveal_strlit(".zip");
    }
    let r = dot == '.' && z == 'z' && i == 'i' && p == 'p';
    assert(r ==> name@.subrange(n - 4, n as int) =~= ".zip"@);
    assert(name@.subrange(n - 4, n as int) == ".zip"@ ==> name@.subrange(n - 4, n as int)[0] == '.'
        && name@.subrange(n - 4, n as int)[1] == 'z' && name@.subrange(n - 4, n as int)[2] == 'i'
        && name@.subrange(n - 4, n as int)[3] == 'p');
    r
}

/// Which template renders a year's news: the index for the current year
/// (also written under the year's own name), the year page otherwise.
pub fn soramoyou_is_index(year: i32, current_year: i32) -> (r: bool)
    ensures
        r == (year == current_year),
{
    year == current_year
}

/// `s` split at every `sep` (an empty text gives one empty part).
pub open spec fn split_on(s: Seq<char>, sep: char) -> Seq<Seq<char>>
    decreases s.len(),
{
    if s.len() == 0 {
        seq![Seq::empty()]
    } else {
        let prev = split_on(s.drop_last(), sep);
        if s.last() == sep {
            prev.push(Seq::empty())
        } else {
            prev.update(prev.len() - 1, prev.last().push(s.last()))
        }
    }
}

/// The parts that are not empty, in order.
pub open spec fn non_empty_parts(parts: Seq<Seq<char>>) -> Seq<Seq<char>>
    decreases parts.len(),
{
    if parts.len() == 0 {
        Seq::empty()
    } else {
        non_empty_parts(parts.drop_last()) + if parts.last().len() > 0 { seq![parts.last()] } else { Seq::empty() }
    }
}

/// The segments of an include name: its parts between slashes, empty ones
/// dropped.
pub open spec fn include_segments(name: Seq<char>) -> Seq<Seq<char>> {
    non_empty_parts(split_on(name, '/'))
}

/// The message for an include name without segments.
pub open spec fn empty_include_message(name: Seq<char>) -> Seq<char> {
    "include name '"@ + name + "' resolves to empty path"@
}

/// Where an include lives under the templates directory: the directories
/// (every segment but the last) and the file `_{last}.ntzr`; an error for a
/// name without segments.
pub fn include_path(name: &str) -> (r: Result<(Vec<String>, String), String>)
    ensures
        match r {
            Ok((dirs, file)) => include_segments(name@).len() > 0
                && views(dirs@) == include_segments(name@).drop_last()
                && file@ == "_"@ + include_segments(name@).last() + ".ntzr"@,
            Err(e) => include_segments(name@).len() == 0 && e@ == empty_include_message(name@),
        },
{
    let n = name.unicode_len();
    let mut segs: Vec<String> = Vec::new();
    let mut cur = String::new();
    let mut i: usize = 0;
    while i < n
        invariant
            i <= n,
            n == name@.len(),
            split_on(name@.take(i as int), '/').len() >= 1,
            views(segs@) == non_empty_parts(split_on(name@.take(i as int), '/').drop_last()),
            cur@ == split_on(name@.take(i as int), '/').last(),
        decreases n - i,
    {
        let c = name.get_char(i);
        let ghost pre = split_on(name@.take(i as int), '/');
        assert(name@.take(i + 1).drop_last() =~= name@.take(i as int));
        assert(name@.take(i + 1).last() == c);
        if c == '/' {
            let ghost before = views(segs@);
            if cur.unicode_len() > 0 {
                segs.push(cur);
                assert(views(segs@) =~= before.push(pre.last()));
            }
            cur = String::new();
            assert(split_on(name@.take(i + 1), '/').drop_last() =~= pre);
            assert(views(segs@) =~= non_empty_parts(pre));
        } else {
            push_char(&mut cur, c);
            assert(split_on(name@.take(i + 1), '/').drop_last() =~= pre.drop_last());
        }
        i = i + 1;
    }
    assert(name@.take(n as int) =~= name@);
    let ghost parts = split_on(name@, '/');
    if cur.unicode_len() > 0 {
        let ghost before = views(segs@);
        segs.push(cur);
        assert(views(segs@) =~= before.push(parts.last()));
    }
    assert(views(segs@) =~= include_segments(name@));
    if segs.len() == 0 {
        let mut msg = owned("include name '");
        msg.append(name);
        msg.append("' resolves to empty path");
        return Err(msg);
    }
    let last = segs.pop().unwrap();
    let mut file = owned("_");
    file.append(last.as_str());
    file.append(".ntzr");
    assert(views(segs@) =~= include_segments(name@).drop_last());
    Ok((segs, file))
}

} // verus!
