//! The person indexes, one page per gojūon column: all people with their
//! published works, all registered people with their counts, and the people
//! with works in progress.
use vstd::prelude::*;
use crate::db_helpers::{KANA_PATTERN, wip_predicate_text, wip_work_predicate};
use crate::export_helpers::{column_display, column_first_char, column_kana_chars, kana_entries};
use crate::kana::column_table;
use crate::text::{owned, push_char, str_equal};

verus! {

/// A person of a column section with their published works.
pub struct PersonIndexRow {
    pub id: i64,
    pub name: String,
    pub name_kana: String,
    pub work_count: i64,
    pub copyright_flag: bool,
}

/// A person on a published-person index page.
pub struct PersonIndexItem {
    pub id: i64,
    pub name: String,
    pub name_kana: String,
    pub published_works_count: usize,
    pub work_count: usize,
    pub copyright_flag: bool,
}

/// The people whose sort key opens with one kana.
pub struct PersonIndexSection {
    pub kana_char: String,
    pub section_index: usize,
    pub people: Vec<PersonIndexItem>,
}

/// One published-person index page (one column).
pub struct PersonIndexData {
    pub kana_column: String,
    pub column_display: String,
    pub sections: Vec<PersonIndexSection>,
}

/// `LIKE` pattern of the sort keys opening with `kana_char`.
pub open spec fn like_pattern(kana_char: Seq<char>) -> Seq<char> {
    kana_char + "%"@
}

/// The `LIKE` pattern of the sort keys opening with `kana_char`.
pub fn like_pattern_of(kana_char: &str) -> (r: String)
    ensures
        r@ == like_pattern(kana_char@),
{
    let mut s = owned(kana_char);
    s.append("%");
    s
}

/// The heading of a column's section `i`: its kana, or "他" for the column
/// without kana.
pub open spec fn section_char(kana_chars: Seq<char>, i: int) -> Seq<char> {
    if kana_chars.len() == 0 { "他"@ } else { seq![kana_chars[i]] }
}

/// `it` shows `p`, both counts being its published works.
pub open spec fn index_item_fits(p: PersonIndexRow, it: PersonIndexItem) -> bool {
    &&& it.id == p.id
    &&& it.name == p.name
    &&& it.name_kana == p.name_kana
    &&& it.published_works_count == p.work_count as usize
    &&& it.work_count == p.work_count as usize
    &&& it.copyright_flag == p.copyright_flag
}

/// The items of one section.
fn index_items(rows: &Vec<PersonIndexRow>) -> (r: Vec<PersonIndexItem>)
    ensures
        r@.len() == rows@.len(),
        forall|k: int| 0 <= k < rows@.len() ==> index_item_fits(rows@[k], #[trigger] r@[k]),
{
    let mut r: Vec<PersonIndexItem> = Vec::new();
    let mut k: usize = 0;
    while k < rows.len()
        invariant
            k <= rows.len(),
            r@.len() == k,
            forall|j: int| 0 <= j < k ==> index_item_fits(rows@[j], #[trigger] r@[j]),
        decreases rows.len() - k,
    {
        let p = &rows[k];
        r.push(PersonIndexItem {
            id: p.id,
            name: p.name.clone(),
            name_kana: p.name_kana.clone(),
            published_works_count: p.work_count as usize,
            work_count: p.work_count as usize,
            copyright_flag: p.copyright_flag,
        });
        k = k + 1;
    }
    r
}

/// The published-person page of a column, from the people fetched per
/// section: one section per kana of the column (a single "他" section for
/// the column without kana), numbered from 1.
pub fn person_index_page(column_key: &str, kana_chars: &str, fetched: &Vec<Vec<PersonIndexRow>>) -> (r: PersonIndexData)
    requires
        fetched@.len() == if kana_chars@.len() == 0 { 1 } else { kana_chars@.len() },
    ensures
        r.kana_column@ == column_key@,
        r.column_display@ == if kana_chars@.len() == 0 { Seq::empty() } else { seq![kana_chars@[0]] },
        r.sections@.len() == fetched@.len(),
        forall|i: int|
            0 <= i < fetched@.len() ==> {
                &&& (#[trigger] r.sections@[i]).kana_char@ == section_char(kana_chars@, i)
                &&& r.sections@[i].section_index == i + 1
                &&& r.sections@[i].people@.len() == fetched@[i]@.len()
                &&& forall|k: int|
                    0 <= k < fetched@[i]@.len() ==> index_item_fits(fetched@[i]@[k], #[trigger] r.sections@[i].people@[k])
            },
{
    let n = kana_chars.unicode_len();
    let mut display = String::new();
    if n > 0 {
        push_char(&mut display, kana_chars.get_char(0));
    }
    assert(display@ =~= if n == 0 { Seq::<char>::empty() } else { seq![kana_chars@[0]] });
    let mut sections: Vec<PersonIndexSection> = Vec::new();
    let mut i: usize = 0;
    while i < fetched.len()
        invariant
            i <= fetched@.len(),
            n == kana_chars@.len(),
            fetched@.len() == if n == 0 { 1 } else { n as int },
            sections@.len() == i,
            forall|j: int|
                0 <= j < i ==> {
                    &&& (#[trigger] sections@[j]).kana_char@ == section_char(kana_chars@, j)
                    &&& sections@[j].section_index == j + 1
                    &&& sections@[j].people@.len() == fetched@[j]@.len()
                    &&& forall|k: int|
                        0 <= k < fetched@[j]@.len() ==> index_item_fits(fetched@[j]@[k], #[trigger] sections@[j].people@[k])
                },
        decreases fetched.len() - i,
    {
        let mut kana_char = String::new();
        if n == 0 {
            kana_char = owned("他");
        } else {
            push_char(&mut kana_char, kana_chars.get_char(i));
            assert(kana_char@ =~= seq![kana_chars@[i as int]]);
        }
        sections.push(PersonIndexSection { kana_char, section_index: i + 1, people: index_items(&fetched[i]) });
        i = i + 1;
    }
    PersonIndexData { kana_column: owned(column_key), column_display: display, sections }
}

/// A registered person with the counts of their published, unpublished and
/// all works.
pub struct PersonAllRow {
    pub id: i64,
    pub name: String,
    pub published_count: i64,
    pub unpublished_count: i64,
    pub total_count: i64,
    pub copyright_flag: bool,
}

/// A person on an all-people index page.
pub struct PersonAllItem {
    pub id: i64,
    pub name: String,
    pub published_count: i64,
    pub unpublished_count: i64,
    pub total_count: i64,
    pub copyright_flag: bool,
}

/// A section of an all-people page.
pub struct PersonAllSection {
    pub kana_char: String,
    pub section_index: usize,
    pub people: Vec<PersonAllItem>,
}

/// One all-people index page (one column).
pub struct PersonAllIndexData {
    pub kana_column: String,
    pub column_display: String,
    pub sections: Vec<PersonAllSection>,
}

/// The heading of a column on the all-people pages: its first kana, nothing
/// for the "zz" column, "他" for a key that is no column.
pub open spec fn all_column_heading(col: Seq<char>) -> Seq<char> {
    if col == "zz"@ {
        Seq::empty()
    } else if exists|i: int| 0 <= i < column_table().len() && (#[trigger] column_table()[i]).0 == col {
        column_first_char(column_table(), col)
    } else {
        "他"@
    }
}

/// The heading of a column on the all-people pages.
pub fn all_column_display(col: &str) -> (r: String)
    ensures
        r@ == all_column_heading(col@),
{
    if str_equal(col, "zz") {
        return String::new();
    }
    let keys: [&str; 10] = ["a", "ka", "sa", "ta", "na", "ha", "ma", "ya", "ra", "wa"];
    let mut i: usize = 0;
    let mut known = false;
    while i < 10
        invariant
            i <= 10,
            keys@ == seq!["a", "ka", "sa", "ta", "na", "ha", "ma", "ya", "ra", "wa"],
            known == exists|j: int| 0 <= j < i && (#[trigger] column_table()[j]).0 == col@,
        decreases 10 - i,
    {
        if str_equal(keys[i], col) {
            known = true;
        }
        assert(column_table()[i as int].0 == keys@[i as int]@);
        i = i + 1;
    }
    proof {
        if !known {
            assert forall|j: int| 0 <= j < column_table().len() implies (#[trigger] column_table()[j]).0 != col@ by {
                if j == 10 {
                    assert(column_table()[10].0 == "zz"@);
                }
            }
        }
    }
    if known {
        column_display(col)
    } else {
        owned("他")
    }
}

/// `it` shows `p` as it is.
pub open spec fn all_item_fits(p: PersonAllRow, it: PersonAllItem) -> bool {
    &&& it.id == p.id
    &&& it.name == p.name
    &&& it.published_count == p.published_count
    &&& it.unpublished_count == p.unpublished_count
    &&& it.total_count == p.total_count
    &&& it.copyright_flag == p.copyright_flag
}

/// The all-people page of a column, from the people fetched per section:
/// one section per entry of [`kana_entries`] (the kana, or "その他").
pub fn person_all_index_page(column_key: &str, kana_chars: &str, fetched: &Vec<Vec<PersonAllRow>>) -> (r: PersonAllIndexData)
    requires
        fetched@.len() == kana_entries(kana_chars@).len(),
    ensures
        r.kana_column@ == column_key@,
        r.column_display@ == all_column_heading(column_key@),
        r.sections@.len() == fetched@.len(),
        forall|i: int|
            0 <= i < fetched@.len() ==> {
                &&& (#[trigger] r.sections@[i]).kana_char@ == kana_entries(kana_chars@)[i]
                &&& r.sections@[i].section_index == i + 1
                &&& r.sections@[i].people@.len() == fetched@[i]@.len()
                &&& forall|k: int|
                    0 <= k < fetched@[i]@.len() ==> all_item_fits(fetched@[i]@[k], #[trigger] r.sections@[i].people@[k])
            },
{
    let chars = column_kana_chars(kana_chars);
    let mut sections: Vec<PersonAllSection> = Vec::new();
    let mut i: usize = 0;
    while i < fetched.len()
        invariant
            i <= fetched@.len(),
            fetched@.len() == kana_entries(kana_chars@).len(),
            crate::text::views(chars@) == kana_entries(kana_chars@),
            sections@.len() == i,
            forall|j: int|
                0 <= j < i ==> {
                    &&& (#[trigger] sections@[j]).kana_char@ == kana_entries(kana_chars@)[j]
                    &&& sections@[j].section_index == j + 1
                    &&& sections@[j].people@.len() == fetched@[j]@.len()
                    &&& forall|k: int|
                        0 <= k < fetched@[j]@.len() ==> all_item_fits(fetched@[j]@[k], #[trigger] sections@[j].people@[k])
                },
        decreases fetched.len() - i,
    {
        assert(crate::text::views(chars@)[i as int] == chars@[i as int]@);
        let rows = &fetched[i];
        let mut people: Vec<PersonAllItem> = Vec::new();
        let mut k: usize = 0;
        while k < rows.len()
            invariant
                k <= rows.len(),
                people@.len() == k,
                forall|j: int| 0 <= j < k ==> all_item_fits(rows@[j], #[trigger] people@[j]),
            decreases rows.len() - k,
        {
            let p = &rows[k];
            people.push(PersonAllItem {
                id: p.id,
                name: p.name.clone(),
                published_count: p.published_count,
                unpublished_count: p.unpublished_count,
                total_count: p.total_count,
                copyright_flag: p.copyright_flag,
            });
            k = k + 1;
        }
        sections.push(PersonAllSection { kana_char: owned(chars[i].as_str()), section_index: i + 1, people });
        i = i + 1;
    }
    PersonAllIndexData {
        kana_column: owned(column_key),
        column_display: all_column_display(column_key),
        sections,
    }
}

/// A person with the number of their works in progress.
pub struct WipPersonRow {
    pub id: i64,
    pub name: String,
    pub unpublished_count: i64,
    pub copyright_flag: bool,
}

/// A person on a works-in-progress index page.
pub struct WipPersonItem {
    pub id: i64,
    pub name: String,
    pub unpublished_count: i64,
    pub copyright_flag: bool,
}

/// A section of a works-in-progress person page.
pub struct WipPersonSection {
    pub kana_char: String,
    pub section_index: usize,
    pub people: Vec<WipPersonItem>,
}

/// One works-in-progress person index page (one column).
pub struct WipPersonIndexData {
    pub kana_column: String,
    pub column_display: String,
    pub sections: Vec<WipPersonSection>,
}

/// The people with at least one work in progress, in order.
pub open spec fn with_wip(rows: Seq<WipPersonRow>) -> Seq<WipPersonRow>
    decreases rows.len(),
{
    if rows.len() == 0 {
        Seq::empty()
    } else {
        let prev = with_wip(rows.drop_last());
        if rows.last().unpublished_count > 0 { prev.push(rows.last()) } else { prev }
    }
}

/// `it` shows `p` as it is.
pub open spec fn wip_item_fits(p: WipPersonRow, it: WipPersonItem) -> bool {
    &&& it.id == p.id
    &&& it.name == p.name
    &&& it.unpublished_count == p.unpublished_count
    &&& it.copyright_flag == p.copyright_flag
}

/// The items of the people with works in progress.
fn wip_items(rows: &Vec<WipPersonRow>) -> (r: Vec<WipPersonItem>)
    ensures
        r@.len() == with_wip(rows@).len(),
        forall|k: int| 0 <= k < r@.len() ==> wip_item_fits(with_wip(rows@)[k], #[trigger] r@[k]),
{
    let mut r: Vec<WipPersonItem> = Vec::new();
    let mut k: usize = 0;
    while k < rows.len()
        invariant
            k <= rows.len(),
            r@.len() == with_wip(rows@.take(k as int)).len(),
            forall|j: int| 0 <= j < r@.len() ==> wip_item_fits(with_wip(rows@.take(k as int))[j], #[trigger] r@[j]),
        decreases rows.len() - k,
    {
        assert(rows@.take(k + 1).drop_last() =~= rows@.take(k as int));
        let p = &rows[k];
        if p.unpublished_count > 0 {
            r.push(WipPersonItem {
                id: p.id,
                name: p.name.clone(),
                unpublished_count: p.unpublished_count,
                copyright_flag: p.copyright_flag,
            });
        }
        k = k + 1;
    }
    assert(rows@.take(rows.len() as int) =~= rows@);
    r
}

/// The works-in-progress person page of a column, from the people fetched
/// per section (one per entry of [`kana_entries`]): only people with at
/// least one work in progress.
pub fn wip_person_index_page(column_key: &str, kana_chars: &str, fetched: &Vec<Vec<WipPersonRow>>) -> (r: WipPersonIndexData)
    requires
        fetched@.len() == kana_entries(kana_chars@).len(),
    ensures
        r.kana_column@ == column_key@,
        r.column_display@ == column_first_char(column_table(), column_key@),
        r.sections@.len() == fetched@.len(),
        forall|i: int|
            0 <= i < fetched@.len() ==> {
                &&& (#[trigger] r.sections@[i]).kana_char@ == kana_entries(kana_chars@)[i]
                &&& r.sections@[i].section_index == i + 1
                &&& r.sections@[i].people@.len() == with_wip(fetched@[i]@).len()
                &&& forall|k: int|
                    0 <= k < r.sections@[i].people@.len() ==> wip_item_fits(
                        with_wip(fetched@[i]@)[k],
                        #[trigger] r.sections@[i].people@[k],
                    )
            },
{
    let chars = column_kana_chars(kana_chars);
    let mut sections: Vec<WipPersonSection> = Vec::new();
    let mut i: usize = 0;
    while i < fetched.len()
        invariant
            i <= fetched@.len(),
            fetched@.len() == kana_entries(kana_chars@).len(),
            crate::text::views(chars@) == kana_entries(kana_chars@),
            sections@.len() == i,
            forall|j: int|
                0 <= j < i ==> {
                    &&& (#[trigger] sections@[j]).kana_char@ == kana_entries(kana_chars@)[j]
                    &&& sections@[j].section_index == j + 1
                    &&& sections@[j].people@.len() == with_wip(fetched@[j]@).len()
                    &&& forall|k: int|
                        0 <= k < sections@[j].people@.len() ==> wip_item_fits(
                            with_wip(fetched@[j]@)[k],
                            #[trigger] sections@[j].people@[k],
                        )
                },
        decreases fetched.len() - i,
    {
        assert(crate::text::views(chars@)[i as int] == chars@[i as int]@);
        sections.push(WipPersonSection {
            kana_char: owned(chars[i].as_str()),
            section_index: i + 1,
            people: wip_items(&fetched[i]),
        });
        i = i + 1;
    }
    WipPersonIndexData { kana_column: owned(column_key), column_display: column_display(column_key), sections }
}

/// The query for the people of one works-in-progress section: people whose
/// sort key opens with the kana (`LIKE`), or, for the column without kana,
/// whose sort key opens with no kana at all (`!~` [`KANA_PATTERN`]); with
/// their works in progress counted.
pub open spec fn wip_people_sql(kana_op: Seq<char>) -> Seq<char> {
    "\n            SELECT p.id,\n                   CONCAT(COALESCE(p.last_name, ''), ' ', COALESCE(p.first_name, '')) AS name,\n                   COUNT(DISTINCT CASE\n                       WHEN "@ + wip_predicate_text("$2"@)
        + "\n                       THEN w.id\n                   END) AS unpublished_count,\n                   p.copyright_flag\n            FROM people p\n            LEFT JOIN work_people wp ON wp.person_id = p.id\n            LEFT JOIN works w ON w.id = wp.work_id\n            WHERE p.sortkey "@ + kana_op
        + " $1\n            GROUP BY p.id, p.last_name, p.first_name, p.copyright_flag, p.sortkey, p.sortkey2\n            ORDER BY p.sortkey, p.sortkey2, p.id\n            "@
}

/// The query of a works-in-progress section and the value bound to `$1`.
pub fn wip_people_query(column_chars: &str, kana_char: &str) -> (r: (String, String))
    ensures
        column_chars@.len() == 0 ==> r.0@ == wip_people_sql("!~"@) && r.1@ == KANA_PATTERN@,
        column_chars@.len() > 0 ==> r.0@ == wip_people_sql("LIKE"@) && r.1@ == like_pattern(kana_char@),
{
    let empty = column_chars.unicode_len() == 0;
    let pattern = if empty { owned(KANA_PATTERN) } else { like_pattern_of(kana_char) };
    let mut sql = owned("\n            SELECT p.id,\n                   CONCAT(COALESCE(p.last_name, ''), ' ', COALESCE(p.first_name, '')) AS name,\n                   COUNT(DISTINCT CASE\n                       WHEN ");
    let wip = wip_work_predicate("$2");
    sql.append(wip.as_str());
    sql.append("\n                       THEN w.id\n                   END) AS unpublished_count,\n                   p.copyright_flag\n            FROM people p\n            LEFT JOIN work_people wp ON wp.person_id = p.id\n            LEFT JOIN works w ON w.id = wp.work_id\n            WHERE p.sortkey ");
    if empty {
        sql.append("!~");
    } else {
        sql.append("LIKE");
    }
    sql.append(" $1\n            GROUP BY p.id, p.last_name, p.first_name, p.copyright_flag, p.sortkey, p.sortkey2\n            ORDER BY p.sortkey, p.sortkey2, p.id\n            ");
    (sql, pattern)
}

} // verus!
