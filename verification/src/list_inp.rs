//! The lists of works in progress per person, and the yearly news pages.
use vstd::prelude::*;
use crate::db_helpers::{GroupKey, derefs, group_by_key, group_rows, rows_with_key, wip_predicate_text, wip_work_predicate};
use crate::export_helpers::{page_items, paginate, total_pages};
use crate::models::{Date, Duplicate, opt_date_text, opt_date_to_text, opt_view};
use crate::text::{clone_opt, owned};

verus! {

broadcast use vstd::std_specs::hash::group_hash_axioms;

/// The query of the people with works in progress (`$1` the reference date).
pub open spec fn wip_persons_sql() -> Seq<char> {
    "\n        SELECT p.id,\n               CONCAT(COALESCE(p.last_name, ''), ' ', COALESCE(p.first_name, '')) AS name,\n               COUNT(DISTINCT w.id) AS work_count\n        FROM people p\n        JOIN work_people wp ON wp.person_id = p.id\n        JOIN works w ON w.id = wp.work_id\n        WHERE "@ + wip_predicate_text("$1"@) + "\n        GROUP BY p.id, p.last_name, p.first_name\n        HAVING COUNT(DISTINCT w.id) > 0\n        ORDER BY p.id\n        "@
}

/// The query of the people with works in progress.
pub fn wip_persons_query() -> (r: String)
    ensures
        r@ == wip_persons_sql(),
{
    let mut s = owned("\n        SELECT p.id,\n               CONCAT(COALESCE(p.last_name, ''), ' ', COALESCE(p.first_name, '')) AS name,\n               COUNT(DISTINCT w.id) AS work_count\n        FROM people p\n        JOIN work_people wp ON wp.person_id = p.id\n        JOIN works w ON w.id = wp.work_id\n        WHERE ");
    let p = wip_work_predicate("$1");
    s.append(p.as_str());
    s.append("\n        GROUP BY p.id, p.last_name, p.first_name\n        HAVING COUNT(DISTINCT w.id) > 0\n        ORDER BY p.id\n        ");
    s
}

/// The query of those people's works in progress (`$1` the people, `$2`
/// the reference date), ordered by person, then each person's work order.
pub open spec fn persons_wip_works_sql() -> Seq<char> {
    "\n        SELECT DISTINCT wp.person_id, w.id, w.title, w.subtitle,\n               kt.name AS kana_type_name,\n               translators.translator_text,\n               inputers.inputer_text,\n               proofreaders.proofreader_text,\n               ws.name AS work_status_name,\n               w.started_on,\n               teihon.title AS teihon_title,\n               teihon.publisher AS teihon_publisher,\n               teihon.input_edition AS teihon_input_edition,\n               w.sortkey, w.subtitle_kana\n        FROM works w\n        JOIN work_people wp ON wp.work_id = w.id AND wp.person_id = ANY($1)\n        LEFT JOIN kana_types kt ON kt.id = w.kana_type_id\n        LEFT JOIN work_statuses ws ON ws.id = w.work_status_id\n        LEFT JOIN LATERAL (\n            SELECT string_agg(CONCAT(COALESCE(pe.last_name, ''), ' ', COALESCE(pe.first_name, '')), ', ') AS translator_text\n            FROM work_people wp2\n            JOIN people pe ON pe.id = wp2.person_id\n            WHERE wp2.work_id = w.id AND wp2.role_id = 2\n        ) translators ON true\n        LEFT JOIN LATERAL (\n            SELECT string_agg(wk.name, '、') AS inputer_text\n            FROM work_workers ww\n            JOIN workers wk ON wk.id = ww.worker_id\n            WHERE ww.work_id = w.id AND ww.worker_role_id = 1\n        ) inputers ON true\n        LEFT JOIN LATERAL (\n            SELECT string_agg(wk.name, '、') AS proofreader_text\n            FROM work_workers ww\n            JOIN workers wk ON wk.id = ww.worker_id\n            WHERE ww.work_id = w.id AND ww.worker_role_id = 2\n        ) proofreaders ON true\n        LEFT JOIN LATERAL (\n            SELECT ob.title, ob.publisher, ob.input_edition\n            FROM original_books ob\n            WHERE ob.work_id = w.id AND ob.booktype_id = 1\n            ORDER BY ob.id\n            LIMIT 1\n        ) teihon ON true\n        WHERE "@ + wip_predicate_text("$2"@) + "\n        ORDER BY wp.person_id, w.sortkey, w.subtitle_kana, w.id\n        "@
}

/// The query of the people's works in progress.
pub fn persons_wip_works_query() -> (r: String)
    ensures
        r@ == persons_wip_works_sql(),
{
    let mut s = owned("\n        SELECT DISTINCT wp.person_id, w.id, w.title, w.subtitle,\n               kt.name AS kana_type_name,\n               translators.translator_text,\n               inputers.inputer_text,\n               proofreaders.proofreader_text,\n               ws.name AS work_status_name,\n               w.started_on,\n               teihon.title AS teihon_title,\n               teihon.publisher AS teihon_publisher,\n               teihon.input_edition AS teihon_input_edition,\n               w.sortkey, w.subtitle_kana\n        FROM works w\n        JOIN work_people wp ON wp.work_id = w.id AND wp.person_id = ANY($1)\n        LEFT JOIN kana_types kt ON kt.id = w.kana_type_id\n        LEFT JOIN work_statuses ws ON ws.id = w.work_status_id\n        LEFT JOIN LATERAL (\n            SELECT string_agg(CONCAT(COALESCE(pe.last_name, ''), ' ', COALESCE(pe.first_name, '')), ', ') AS translator_text\n            FROM work_people wp2\n            JOIN people pe ON pe.id = wp2.person_id\n            WHERE wp2.work_id = w.id AND wp2.role_id = 2\n        ) translators ON true\n        LEFT JOIN LATERAL (\n            SELECT string_agg(wk.name, '、') AS inputer_text\n            FROM work_workers ww\n            JOIN workers wk ON wk.id = ww.worker_id\n            WHERE ww.work_id = w.id AND ww.worker_role_id = 1\n        ) inputers ON true\n        LEFT JOIN LATERAL (\n            SELECT string_agg(wk.name, '、') AS proofreader_text\n            FROM work_workers ww\n            JOIN workers wk ON wk.id = ww.worker_id\n            WHERE ww.work_id = w.id AND ww.worker_role_id = 2\n        ) proofreaders ON true\n        LEFT JOIN LATERAL (\n            SELECT ob.title, ob.publisher, ob.input_edition\n            FROM original_books ob\n            WHERE ob.work_id = w.id AND ob.booktype_id = 1\n            ORDER BY ob.id\n            LIMIT 1\n        ) teihon ON true\n        WHERE ");
    let p = wip_work_predicate("$2");
    s.append(p.as_str());
    s.append("\n        ORDER BY wp.person_id, w.sortkey, w.subtitle_kana, w.id\n        ");
    s
}

/// A person with works in progress.
pub struct ListInpPersonRow {
    pub id: i64,
    pub name: String,
    pub work_count: i64,
}

/// A work in progress of such a person.
pub struct ListInpWorkRow {
    pub person_id: i64,
    pub id: i64,
    pub title: String,
    pub subtitle: Option<String>,
    pub kana_type_name: Option<String>,
    pub translator_text: Option<String>,
    pub inputer_text: Option<String>,
    pub proofreader_text: Option<String>,
    pub work_status_name: Option<String>,
    pub started_on: Option<Date>,
    pub teihon_title: Option<String>,
    pub teihon_publisher: Option<String>,
    pub teihon_input_edition: Option<String>,
}

/// A work on a person's list page.
pub struct ListInpWorkItem {
    pub id: i64,
    pub title: String,
    pub subtitle: Option<String>,
    pub kana_type_name: Option<String>,
    pub translator_text: Option<String>,
    pub inputer_text: Option<String>,
    pub proofreader_text: Option<String>,
    pub work_status_name: Option<String>,
    pub started_on: Option<String>,
    pub teihon_title: Option<String>,
    pub teihon_publisher: Option<String>,
    pub teihon_input_edition: Option<String>,
}

/// One page of a person's list.
pub struct ListInpData {
    pub person_id: i64,
    pub person_name: String,
    pub page: usize,
    pub total_pages: usize,
    pub works: Vec<ListInpWorkItem>,
}

impl GroupKey for ListInpWorkRow {
    open spec fn group_key(&self) -> i64 {
        self.person_id
    }

    fn key_of(&self) -> (k: i64) {
        self.person_id
    }
}

impl Duplicate for ListInpWorkItem {
    fn duplicate(&self) -> (r: Self) {
        ListInpWorkItem {
            id: self.id,
            title: self.title.clone(),
            subtitle: clone_opt(&self.subtitle),
            kana_type_name: clone_opt(&self.kana_type_name),
            translator_text: clone_opt(&self.translator_text),
            inputer_text: clone_opt(&self.inputer_text),
            proofreader_text: clone_opt(&self.proofreader_text),
            work_status_name: clone_opt(&self.work_status_name),
            started_on: clone_opt(&self.started_on),
            teihon_title: clone_opt(&self.teihon_title),
            teihon_publisher: clone_opt(&self.teihon_publisher),
            teihon_input_edition: clone_opt(&self.teihon_input_edition),
        }
    }
}

/// `it` shows work row `w`, its start date as `YYYY-MM-DD`.
pub open spec fn list_item_fits(w: ListInpWorkRow, it: ListInpWorkItem) -> bool {
    &&& it.id == w.id
    &&& it.title == w.title
    &&& it.subtitle == w.subtitle
    &&& it.kana_type_name == w.kana_type_name
    &&& it.translator_text == w.translator_text
    &&& it.inputer_text == w.inputer_text
    &&& it.proofreader_text == w.proofreader_text
    &&& it.work_status_name == w.work_status_name
    &&& opt_view(it.started_on) == opt_date_text(w.started_on)
    &&& it.teihon_title == w.teihon_title
    &&& it.teihon_publisher == w.teihon_publisher
    &&& it.teihon_input_edition == w.teihon_input_edition
}

fn list_item(w: &ListInpWorkRow) -> (it: ListInpWorkItem)
    ensures
        list_item_fits(*w, it),
{
    ListInpWorkItem {
        id: w.id,
        title: w.title.clone(),
        subtitle: clone_opt(&w.subtitle),
        kana_type_name: clone_opt(&w.kana_type_name),
        translator_text: clone_opt(&w.translator_text),
        inputer_text: clone_opt(&w.inputer_text),
        proofreader_text: clone_opt(&w.proofreader_text),
        work_status_name: clone_opt(&w.work_status_name),
        started_on: opt_date_to_text(&w.started_on),
        teihon_title: clone_opt(&w.teihon_title),
        teihon_publisher: clone_opt(&w.teihon_publisher),
        teihon_input_edition: clone_opt(&w.teihon_input_edition),
    }
}

/// `pages` are the list pages of person `p` with works `works`: pages 1..
/// of fifty works (one page when there are none), page `i` showing
/// [`page_items`]`(works, i)`.
pub open spec fn person_pages_fit(p: ListInpPersonRow, works: Seq<ListInpWorkRow>, pages: Seq<ListInpData>) -> bool {
    &&& pages.len() == total_pages(works.len())
    &&& forall|i: int|
        0 <= i < pages.len() ==> {
            &&& (#[trigger] pages[i]).person_id == p.id
            &&& pages[i].person_name == p.name
            &&& pages[i].page == i + 1
            &&& pages[i].total_pages == total_pages(works.len())
            &&& pages[i].works@.len() == page_items(works, (i + 1) as nat).len()
            &&& forall|k: int|
                0 <= k < pages[i].works@.len() ==> list_item_fits(
                    page_items(works, (i + 1) as nat)[k],
                    #[trigger] pages[i].works@[k],
                )
        }
}

/// The list pages of one person.
fn pages_of_person(p: &ListInpPersonRow, works: &[&ListInpWorkRow]) -> (r: Vec<ListInpData>)
    ensures
        person_pages_fit(*p, derefs(works@), r@),
{
    let ghost s = derefs(works@);
    let mut items: Vec<ListInpWorkItem> = Vec::new();
    let mut k: usize = 0;
    while k < works.len()
        invariant
            k <= works.len(),
            s == derefs(works@),
            items@.len() == k,
            forall|j: int| 0 <= j < k ==> list_item_fits(s[j], #[trigger] items@[j]),
        decreases works.len() - k,
    {
        items.push(list_item(works[k]));
        k = k + 1;
    }
    let chunks = paginate(&items);
    let total = chunks.len();
    let mut chunks = chunks;
    let ghost all = chunks@;
    let mut pages: Vec<ListInpData> = Vec::new();
    let mut i: usize = 0;
    while i < total
        invariant
            i <= total,
            total == all.len(),
            all.len() == total_pages(s.len()),
            items@.len() == s.len(),
            forall|j: int| 0 <= j < s.len() ==> list_item_fits(s[j], #[trigger] items@[j]),
            forall|j: int| 0 <= j < all.len() ==> (#[trigger] all[j])@ == page_items(items@, (j + 1) as nat),
            chunks@ == all.subrange(i as int, total as int),
            pages@.len() == i,
            forall|j: int|
                0 <= j < i ==> {
                    &&& (#[trigger] pages@[j]).person_id == p.id
                    &&& pages@[j].person_name == p.name
                    &&& pages@[j].page == j + 1
                    &&& pages@[j].total_pages == total
                    &&& pages@[j].works@.len() == page_items(s, (j + 1) as nat).len()
                    &&& forall|k: int|
                        0 <= k < pages@[j].works@.len() ==> list_item_fits(
                            page_items(s, (j + 1) as nat)[k],
                            #[trigger] pages@[j].works@[k],
                        )
                },
        decreases total - i,
    {
        let chunk = chunks.remove(0);
        assert(chunk == all[i as int]);
        assert(chunks@ =~= all.subrange(i + 1, total as int));
        let ghost pr = crate::export_helpers::page_range(s.len(), (i + 1) as nat);
        proof {
            crate::export_helpers::lemma_pages_partition(s.len());
        }
        assert forall|k: int| 0 <= k < chunk@.len() implies list_item_fits(
            page_items(s, (i + 1) as nat)[k],
            #[trigger] chunk@[k],
        ) by {
            assert(chunk@[k] == items@[pr.0 + k]);
            assert(page_items(s, (i + 1) as nat)[k] == s[pr.0 + k]);
        }
        pages.push(ListInpData { person_id: p.id, person_name: p.name.clone(), page: i + 1, total_pages: total, works: chunk });
        i = i + 1;
    }
    pages
}

/// The list pages of every person with works in progress, in the order of
/// `persons`: entry `i` holds person `i`'s pages over their works among
/// `works`, in the order of `works`.
pub fn list_inp_pages(persons: &Vec<ListInpPersonRow>, works: &Vec<ListInpWorkRow>) -> (r: Vec<Vec<ListInpData>>)
    ensures
        r@.len() == persons@.len(),
        forall|i: int|
            0 <= i < persons@.len() ==> person_pages_fit(persons@[i], rows_with_key(works@, persons@[i].id), (#[trigger] r@[i])@),
{
    let by_person = group_by_key(works.as_slice());
    let empty: Vec<&ListInpWorkRow> = Vec::new();
    let mut out: Vec<Vec<ListInpData>> = Vec::new();
    let mut i: usize = 0;
    while i < persons.len()
        invariant
            i <= persons.len(),
            forall|k: i64| #[trigger] group_rows(by_person@, k) == rows_with_key(works@, k),
            empty@.len() == 0,
            out@.len() == i,
            forall|j: int|
                0 <= j < i ==> person_pages_fit(persons@[j], rows_with_key(works@, persons@[j].id), (#[trigger] out@[j])@),
        decreases persons.len() - i,
    {
        let p = &persons[i];
        let mine: &[&ListInpWorkRow] = match by_person.get(&p.id) {
            Some(v) => v.as_slice(),
            None => empty.as_slice(),
        };
        assert(derefs(mine@) =~= rows_with_key(works@, p.id)) by {
            assert(group_rows(by_person@, p.id) == rows_with_key(works@, p.id));
        }
        out.push(pages_of_person(p, mine));
        i = i + 1;
    }
    out
}

/// The first year of the news pages.
pub const BEGIN_YEAR: i32 = 1997;

/// A news entry of a year.
pub struct NewsEntryRow {
    pub id: i64,
    pub title: String,
    pub body: String,
    pub published_on: Option<Date>,
    pub flag: bool,
}

/// A news entry as its year page shows it.
pub struct NewsEntry {
    pub id: i64,
    pub title: String,
    pub body: String,
    pub published_on: Option<String>,
    pub flag: bool,
}

/// One year of news.
pub struct NewsData {
    pub year: i32,
    pub entries: Vec<NewsEntry>,
}

/// The years with a news page: from [`BEGIN_YEAR`] through the current year.
pub fn news_years(current_year: i32) -> (r: Vec<i32>)
    ensures
        r@.len() == if current_year >= BEGIN_YEAR { current_year - BEGIN_YEAR + 1 } else { 0 },
        forall|i: int| 0 <= i < r@.len() ==> #[trigger] r@[i] == BEGIN_YEAR + i,
{
    let mut r: Vec<i32> = Vec::new();
    if current_year < BEGIN_YEAR {
        return r;
    }
    let mut y: i32 = BEGIN_YEAR;
    while y < current_year
        invariant
            BEGIN_YEAR <= y <= current_year,
            r@.len() == y - BEGIN_YEAR,
            forall|i: int| 0 <= i < r@.len() ==> #[trigger] r@[i] == BEGIN_YEAR + i,
        decreases current_year - y,
    {
        r.push(y);
        y = y + 1;
    }
    r.push(current_year);
    r
}

/// `e` shows news row `n`, its date as `YYYY-MM-DD`.
pub open spec fn news_entry_fits(n: NewsEntryRow, e: NewsEntry) -> bool {
    &&& e.id == n.id
    &&& e.title == n.title
    &&& e.body == n.body
    &&& opt_view(e.published_on) == opt_date_text(n.published_on)
    &&& e.flag == n.flag
}

/// The news page of a year: its entries in the order given.
pub fn news_data(year: i32, rows: &Vec<NewsEntryRow>) -> (r: NewsData)
    ensures
        r.year == year,
        r.entries@.len() == rows@.len(),
        forall|i: int| 0 <= i < rows@.len() ==> news_entry_fits(rows@[i], #[trigger] r.entries@[i]),
{
    let mut entries: Vec<NewsEntry> = Vec::new();
    let mut i: usize = 0;
    while i < rows.len()
        invariant
            i <= rows.len(),
            entries@.len() == i,
            forall|j: int| 0 <= j < i ==> news_entry_fits(rows@[j], #[trigger] entries@[j]),
        decreases rows.len() - i,
    {
        let n = &rows[i];
        entries.push(NewsEntry {
            id: n.id,
            title: n.title.clone(),
            body: n.body.clone(),
            published_on: opt_date_to_text(&n.published_on),
            flag: n.flag,
        });
        i = i + 1;
    }
    NewsData { year, entries }
}

} // verus!
