//! The work indexes, published and in progress: one series of pages per
//! kana symbol, fifty works a page.
use vstd::prelude::*;
use crate::db_helpers::{KANA_PATTERN, published_predicate_text, published_work_predicate, wip_predicate_text, wip_work_predicate};
use crate::export_helpers::{page_items, paginate, total_pages};
use crate::models::{Date, Duplicate, opt_date_text, opt_date_to_text, opt_view};
use crate::text::{clone_opt, owned};

verus! {

/// The work-index symbols in their fixed order, each with the kana that
/// opens a sort key under it; "zz" gathers the sort keys that open with no
/// kana.
pub open spec fn roma_table() -> Seq<(Seq<char>, Option<Seq<char>>)> {
    seq![
        ("a"@, Some("あ"@)),
        ("i"@, Some("い"@)),
        ("u"@, Some("う"@)),
        ("e"@, Some("え"@)),
        ("o"@, Some("お"@)),
        ("ka"@, Some("か"@)),
        ("ki"@, Some("き"@)),
        ("ku"@, Some("く"@)),
        ("ke"@, Some("け"@)),
        ("ko"@, Some("こ"@)),
        ("sa"@, Some("さ"@)),
        ("si"@, Some("し"@)),
        ("su"@, Some("す"@)),
        ("se"@, Some("せ"@)),
        ("so"@, Some("そ"@)),
        ("ta"@, Some("た"@)),
        ("ti"@, Some("ち"@)),
        ("tu"@, Some("つ"@)),
        ("te"@, Some("て"@)),
        ("to"@, Some("と"@)),
        ("na"@, Some("な"@)),
        ("ni"@, Some("に"@)),
        ("nu"@, Some("ぬ"@)),
        ("ne"@, Some("ね"@)),
        ("no"@, Some("の"@)),
        ("ha"@, Some("は"@)),
        ("hi"@, Some("ひ"@)),
        ("hu"@, Some("ふ"@)),
        ("he"@, Some("へ"@)),
        ("ho"@, Some("ほ"@)),
        ("ma"@, Some("ま"@)),
        ("mi"@, Some("み"@)),
        ("mu"@, Some("む"@)),
        ("me"@, Some("め"@)),
        ("mo"@, Some("も"@)),
        ("ya"@, Some("や"@)),
        ("yu"@, Some("ゆ"@)),
        ("yo"@, Some("よ"@)),
        ("ra"@, Some("ら"@)),
        ("ri"@, Some("り"@)),
        ("ru"@, Some("る"@)),
        ("re"@, Some("れ"@)),
        ("ro"@, Some("ろ"@)),
        ("wa"@, Some("わ"@)),
        ("wo"@, Some("を"@)),
        ("n"@, Some("ん"@)),
        ("zz"@, None),
    ]
}

/// Character views of the symbol table.
pub open spec fn roma_views(v: Seq<(String, Option<String>)>) -> Seq<(Seq<char>, Option<Seq<char>>)> {
    v.map_values(|p: (String, Option<String>)| (p.0@, opt_view(p.1)))
}

fn roma_entry(symbol: &str, kana: Option<&str>) -> (r: (String, Option<String>))
    ensures
        r.0@ == symbol@,
        opt_view(r.1) == match kana {
            Some(k) => Some(k@),
            None => None,
        },
{
    (owned(symbol), match kana {
        Some(k) => Some(owned(k)),
        None => None,
    })
}

/// The work-index symbols, as [`roma_table`] lists them.
pub fn roma2kana() -> (r: Vec<(String, Option<String>)>)
    ensures
        roma_views(r@) == roma_table(),
{
    let mut v: Vec<(String, Option<String>)> = Vec::new();
    v.push(roma_entry("a", Some("あ")));
    v.push(roma_entry("i", Some("い")));
    v.push(roma_entry("u", Some("う")));
    v.push(roma_entry("e", Some("え")));
    v.push(roma_entry("o", Some("お")));
    v.push(roma_entry("ka", Some("か")));
    v.push(roma_entry("ki", Some("き")));
    v.push(roma_entry("ku", Some("く")));
    v.push(roma_entry("ke", Some("け")));
    v.push(roma_entry("ko", Some("こ")));
    v.push(roma_entry("sa", Some("さ")));
    v.push(roma_entry("si", Some("し")));
    v.push(roma_entry("su", Some("す")));
    v.push(roma_entry("se", Some("せ")));
    v.push(roma_entry("so", Some("そ")));
    v.push(roma_entry("ta", Some("た")));
    v.push(roma_entry("ti", Some("ち")));
    v.push(roma_entry("tu", Some("つ")));
    v.push(roma_entry("te", Some("て")));
    v.push(roma_entry("to", Some("と")));
    v.push(roma_entry("na", Some("な")));
    v.push(roma_entry("ni", Some("に")));
    v.push(roma_entry("nu", Some("ぬ")));
    v.push(roma_entry("ne", Some("ね")));
    v.push(roma_entry("no", Some("の")));
    v.push(roma_entry("ha", Some("は")));
    v.push(roma_entry("hi", Some("ひ")));
    v.push(roma_entry("hu", Some("ふ")));
    v.push(roma_entry("he", Some("へ")));
    v.push(roma_entry("ho", Some("ほ")));
    v.push(roma_entry("ma", Some("ま")));
    v.push(roma_entry("mi", Some("み")));
    v.push(roma_entry("mu", Some("む")));
    v.push(roma_entry("me", Some("め")));
    v.push(roma_entry("mo", Some("も")));
    v.push(roma_entry("ya", Some("や")));
    v.push(roma_entry("yu", Some("ゆ")));
    v.push(roma_entry("yo", Some("よ")));
    v.push(roma_entry("ra", Some("ら")));
    v.push(roma_entry("ri", Some("り")));
    v.push(roma_entry("ru", Some("る")));
    v.push(roma_entry("re", Some("れ")));
    v.push(roma_entry("ro", Some("ろ")));
    v.push(roma_entry("wa", Some("わ")));
    v.push(roma_entry("wo", Some("を")));
    v.push(roma_entry("n", Some("ん")));
    v.push(roma_entry("zz", None));
    assert(roma_views(v@) =~= roma_table());
    v
}

/// How the sort keys of a symbol are matched: a symbol's kana opens the key
/// (`~ ^kana`), or, without kana, no kana opens it (`!~` [`KANA_PATTERN`]).
pub open spec fn kana_filter_spec(kana: Option<Seq<char>>) -> (Seq<char>, Seq<char>) {
    match kana {
        Some(k) => ("~"@, "^"@ + k),
        None => ("!~"@, KANA_PATTERN@),
    }
}

/// The match operator and pattern for the sort keys of a symbol.
pub fn kana_filter(kana: &Option<String>) -> (r: (String, String))
    ensures
        (r.0@, r.1@) == kana_filter_spec(opt_view(*kana)),
{
    match kana {
        Some(k) => {
            let mut p = owned("^");
            p.append(k.as_str());
            (owned("~"), p)
        },
        None => (owned("!~"), owned(KANA_PATTERN)),
    }
}

/// The query of the published works of a symbol: `$1` the reference date,
/// `$2` the sort-key pattern.
pub open spec fn works_sql(kana_op: Seq<char>) -> Seq<char> {
    "\n            SELECT w.id, w.title, w.title_kana, w.subtitle,\n                   CONCAT(COALESCE(p.last_name, ''), ' ', COALESCE(p.first_name, '')) AS author_name,\n                   p.id AS person_id,\n                   CASE WHEN p.id IS NOT NULL THEN LPAD(p.id::text, 6, '0') END AS card_person_id,\n                   kt.name AS kana_type,\n                   (SELECT string_agg(CONCAT(COALESCE(pe2.last_name, ''), ' ', COALESCE(pe2.first_name, '')), ', ' ORDER BY wp2.id)\n                    FROM work_people wp2\n                    JOIN people pe2 ON pe2.id = wp2.person_id\n                    WHERE wp2.work_id = w.id AND wp2.role_id = 1) AS author_text,\n                   COALESCE((SELECT string_agg(CONCAT(COALESCE(op.last_name, ''), ' ', COALESCE(op.first_name, '')), ', ' ORDER BY wp3.id)\n                    FROM work_people wp3\n                    JOIN people pe3 ON pe3.id = wp3.person_id\n                    JOIN base_people bp ON bp.person_id = pe3.id\n                    JOIN people op ON op.id = bp.original_person_id\n                    WHERE wp3.work_id = w.id AND wp3.role_id = 1), '') AS base_author_text,\n                   COALESCE((SELECT string_agg(CONCAT(COALESCE(pe4.last_name, ''), ' ', COALESCE(pe4.first_name, '')), ', ' ORDER BY wp4.id)\n                    FROM work_people wp4\n                    JOIN people pe4 ON pe4.id = wp4.person_id\n                    WHERE wp4.work_id = w.id AND wp4.role_id = 2), '') AS translator_text\n            FROM works w\n            LEFT JOIN LATERAL (\n                SELECT pe.id, pe.last_name, pe.first_name\n                FROM work_people wp2\n                JOIN people pe ON pe.id = wp2.person_id\n                WHERE wp2.work_id = w.id AND wp2.role_id = 1\n                ORDER BY wp2.id\n                LIMIT 1\n            ) p ON true\n            LEFT JOIN kana_types kt ON kt.id = w.kana_type_id\n            WHERE "@ + published_predicate_text("$1"@) + "\n              AND w.sortkey "@ + kana_op + " $2\n            ORDER BY w.sortkey, w.id\n            "@
}

/// The query of the published works under a match operator.
pub fn works_query(kana_op: &str) -> (r: String)
    ensures
        r@ == works_sql(kana_op@),
{
    let mut s = owned("\n            SELECT w.id, w.title, w.title_kana, w.subtitle,\n                   CONCAT(COALESCE(p.last_name, ''), ' ', COALESCE(p.first_name, '')) AS author_name,\n                   p.id AS person_id,\n                   CASE WHEN p.id IS NOT NULL THEN LPAD(p.id::text, 6, '0') END AS card_person_id,\n                   kt.name AS kana_type,\n                   (SELECT string_agg(CONCAT(COALESCE(pe2.last_name, ''), ' ', COALESCE(pe2.first_name, '')), ', ' ORDER BY wp2.id)\n                    FROM work_people wp2\n                    JOIN people pe2 ON pe2.id = wp2.person_id\n                    WHERE wp2.work_id = w.id AND wp2.role_id = 1) AS author_text,\n                   COALESCE((SELECT string_agg(CONCAT(COALESCE(op.last_name, ''), ' ', COALESCE(op.first_name, '')), ', ' ORDER BY wp3.id)\n                    FROM work_people wp3\n                    JOIN people pe3 ON pe3.id = wp3.person_id\n                    JOIN base_people bp ON bp.person_id = pe3.id\n                    JOIN people op ON op.id = bp.original_person_id\n                    WHERE wp3.work_id = w.id AND wp3.role_id = 1), '') AS base_author_text,\n                   COALESCE((SELECT string_agg(CONCAT(COALESCE(pe4.last_name, ''), ' ', COALESCE(pe4.first_name, '')), ', ' ORDER BY wp4.id)\n                    FROM work_people wp4\n                    JOIN people pe4 ON pe4.id = wp4.person_id\n                    WHERE wp4.work_id = w.id AND wp4.role_id = 2), '') AS translator_text\n            FROM works w\n            LEFT JOIN LATERAL (\n                SELECT pe.id, pe.last_name, pe.first_name\n                FROM work_people wp2\n                JOIN people pe ON pe.id = wp2.person_id\n                WHERE wp2.work_id = w.id AND wp2.role_id = 1\n                ORDER BY wp2.id\n                LIMIT 1\n            ) p ON true\n            LEFT JOIN kana_types kt ON kt.id = w.kana_type_id\n            WHERE ");
    let p = published_work_predicate("$1");
    s.append(p.as_str());
    s.append("\n              AND w.sortkey ");
    s.append(kana_op);
    s.append(" $2\n            ORDER BY w.sortkey, w.id\n            ");
    s
}

/// The query of the works in progress of a symbol: `$1` the reference date,
/// `$2` the sort-key pattern.
pub open spec fn wip_works_sql(kana_op: Seq<char>) -> Seq<char> {
    "\n            SELECT w.id, w.title, w.subtitle,\n                   kt.name AS kana_type_name,\n                   CONCAT(COALESCE(author_p.last_name, ''), ' ', COALESCE(author_p.first_name, '')) AS author_name,\n                   author_p.id AS author_id,\n                   CASE WHEN orig_p.id IS NULL THEN NULL\n                        ELSE CONCAT(COALESCE(orig_p.last_name, ''), ' ', COALESCE(orig_p.first_name, ''))\n                   END AS base_author_name,\n                   translators.translator_text,\n                   inputers.inputer_text,\n                   proofreaders.proofreader_text,\n                   ws.name AS work_status_name,\n                   w.started_on,\n                   teihon.title AS teihon_title,\n                   teihon.publisher AS teihon_publisher,\n                   teihon.input_edition AS teihon_input_edition\n            FROM works w\n            LEFT JOIN kana_types kt ON kt.id = w.kana_type_id\n            LEFT JOIN work_statuses ws ON ws.id = w.work_status_id\n            LEFT JOIN LATERAL (\n                SELECT pe.id, pe.last_name, pe.first_name\n                FROM work_people wp2\n                JOIN people pe ON pe.id = wp2.person_id\n                WHERE wp2.work_id = w.id AND wp2.role_id = 1\n                ORDER BY wp2.id\n                LIMIT 1\n            ) author_p ON true\n            LEFT JOIN base_people bp ON bp.person_id = author_p.id\n            LEFT JOIN people orig_p ON orig_p.id = bp.original_person_id\n            LEFT JOIN LATERAL (\n                SELECT string_agg(CONCAT(COALESCE(pe.last_name, ''), ' ', COALESCE(pe.first_name, '')), ', ') AS translator_text\n                FROM work_people wp2\n                JOIN people pe ON pe.id = wp2.person_id\n                WHERE wp2.work_id = w.id AND wp2.role_id = 2\n            ) translators ON true\n            LEFT JOIN LATERAL (\n                SELECT string_agg(wk.name, '、') AS inputer_text\n                FROM work_workers ww\n                JOIN workers wk ON wk.id = ww.worker_id\n                WHERE ww.work_id = w.id AND ww.worker_role_id = 1\n            ) inputers ON true\n            LEFT JOIN LATERAL (\n                SELECT string_agg(wk.name, '、') AS proofreader_text\n                FROM work_workers ww\n                JOIN workers wk ON wk.id = ww.worker_id\n                WHERE ww.work_id = w.id AND ww.worker_role_id = 2\n            ) proofreaders ON true\n            LEFT JOIN LATERAL (\n                SELECT ob.title, ob.publisher, ob.input_edition\n                FROM original_books ob\n                WHERE ob.work_id = w.id AND ob.booktype_id = 1\n                ORDER BY ob.id\n                LIMIT 1\n            ) teihon ON true\n            WHERE "@ + wip_predicate_text("$1"@) + "\n              AND w.sortkey "@ + kana_op + " $2\n            ORDER BY w.sortkey, w.id\n            "@
}

/// The query of the works in progress under a match operator.
pub fn wip_works_query(kana_op: &str) -> (r: String)
    ensures
        r@ == wip_works_sql(kana_op@),
{
    let mut s = owned("\n            SELECT w.id, w.title, w.subtitle,\n                   kt.name AS kana_type_name,\n                   CONCAT(COALESCE(author_p.last_name, ''), ' ', COALESCE(author_p.first_name, '')) AS author_name,\n                   author_p.id AS author_id,\n                   CASE WHEN orig_p.id IS NULL THEN NULL\n                        ELSE CONCAT(COALESCE(orig_p.last_name, ''), ' ', COALESCE(orig_p.first_name, ''))\n                   END AS base_author_name,\n                   translators.translator_text,\n                   inputers.inputer_text,\n                   proofreaders.proofreader_text,\n                   ws.name AS work_status_name,\n                   w.started_on,\n                   teihon.title AS teihon_title,\n                   teihon.publisher AS teihon_publisher,\n                   teihon.input_edition AS teihon_input_edition\n            FROM works w\n            LEFT JOIN kana_types kt ON kt.id = w.kana_type_id\n            LEFT JOIN work_statuses ws ON ws.id = w.work_status_id\n            LEFT JOIN LATERAL (\n                SELECT pe.id, pe.last_name, pe.first_name\n                FROM work_people wp2\n                JOIN people pe ON pe.id = wp2.person_id\n                WHERE wp2.work_id = w.id AND wp2.role_id = 1\n                ORDER BY wp2.id\n                LIMIT 1\n            ) author_p ON true\n            LEFT JOIN base_people bp ON bp.person_id = author_p.id\n            LEFT JOIN people orig_p ON orig_p.id = bp.original_person_id\n            LEFT JOIN LATERAL (\n                SELECT string_agg(CONCAT(COALESCE(pe.last_name, ''), ' ', COALESCE(pe.first_name, '')), ', ') AS translator_text\n                FROM work_people wp2\n                JOIN people pe ON pe.id = wp2.person_id\n                WHERE wp2.work_id = w.id AND wp2.role_id = 2\n            ) translators ON true\n            LEFT JOIN LATERAL (\n                SELECT string_agg(wk.name, '、') AS inputer_text\n                FROM work_workers ww\n                JOIN workers wk ON wk.id = ww.worker_id\n                WHERE ww.work_id = w.id AND ww.worker_role_id = 1\n            ) inputers ON true\n            LEFT JOIN LATERAL (\n                SELECT string_agg(wk.name, '、') AS proofreader_text\n                FROM work_workers ww\n                JOIN workers wk ON wk.id = ww.worker_id\n                WHERE ww.work_id = w.id AND ww.worker_role_id = 2\n            ) proofreaders ON true\n            LEFT JOIN LATERAL (\n                SELECT ob.title, ob.publisher, ob.input_edition\n                FROM original_books ob\n                WHERE ob.work_id = w.id AND ob.booktype_id = 1\n                ORDER BY ob.id\n                LIMIT 1\n            ) teihon ON true\n            WHERE ");
    let p = wip_work_predicate("$1");
    s.append(p.as_str());
    s.append("\n              AND w.sortkey ");
    s.append(kana_op);
    s.append(" $2\n            ORDER BY w.sortkey, w.id\n            ");
    s
}

/// A published work of a symbol.
pub struct WorkIndexRow {
    pub id: i64,
    pub title: String,
    pub title_kana: Option<String>,
    pub subtitle: Option<String>,
    pub author_name: Option<String>,
    pub person_id: Option<i64>,
    pub card_person_id: Option<String>,
    pub kana_type: Option<String>,
    pub author_text: Option<String>,
    pub base_author_text: String,
    pub translator_text: String,
}

/// A work on a work-index page.
pub struct WorkIndexItem {
    pub id: i64,
    pub title: String,
    pub title_kana: Option<String>,
    pub subtitle: Option<String>,
    pub author_name: Option<String>,
    pub person_id: Option<i64>,
    pub card_person_id: Option<String>,
    pub kana_type: Option<String>,
    pub author_text: Option<String>,
    pub base_author_text: Option<String>,
    pub translator_text: Option<String>,
}

/// One work-index page.
pub struct WorkIndexData {
    pub kana_symbol: String,
    pub page: usize,
    pub total_pages: usize,
    pub works: Vec<WorkIndexItem>,
}

impl Duplicate for WorkIndexItem {
    fn duplicate(&self) -> (r: Self) {
        WorkIndexItem {
            id: self.id,
            title: self.title.clone(),
            title_kana: clone_opt(&self.title_kana),
            subtitle: clone_opt(&self.subtitle),
            author_name: clone_opt(&self.author_name),
            person_id: self.person_id,
            card_person_id: clone_opt(&self.card_person_id),
            kana_type: clone_opt(&self.kana_type),
            author_text: clone_opt(&self.author_text),
            base_author_text: clone_opt(&self.base_author_text),
            translator_text: clone_opt(&self.translator_text),
        }
    }
}

/// `it` shows work row `w`.
pub open spec fn work_item_fits(w: WorkIndexRow, it: WorkIndexItem) -> bool {
    &&& it.id == w.id
    &&& it.title == w.title
    &&& it.title_kana == w.title_kana
    &&& it.subtitle == w.subtitle
    &&& it.author_name == w.author_name
    &&& it.person_id == w.person_id
    &&& it.card_person_id == w.card_person_id
    &&& it.kana_type == w.kana_type
    &&& it.author_text == w.author_text
    &&& it.base_author_text == Some(w.base_author_text)
    &&& it.translator_text == Some(w.translator_text)
}

/// The work-index pages of a symbol: pages 1.. of fifty works (one page
/// when there are none), each knowing the page count; page `p` shows
/// [`page_items`]`(works, p)`.
pub fn work_index_pages(symbol: &str, works: &Vec<WorkIndexRow>) -> (r: Vec<WorkIndexData>)
    ensures
        r@.len() == total_pages(works@.len()),
        forall|i: int|
            0 <= i < r@.len() ==> {
                &&& (#[trigger] r@[i]).kana_symbol@ == symbol@
                &&& r@[i].page == i + 1
                &&& r@[i].total_pages == total_pages(works@.len())
                &&& r@[i].works@.len() == page_items(works@, (i + 1) as nat).len()
                &&& forall|k: int|
                    0 <= k < r@[i].works@.len() ==> work_item_fits(
                        page_items(works@, (i + 1) as nat)[k],
                        #[trigger] r@[i].works@[k],
                    )
            },
{
    let mut items: Vec<WorkIndexItem> = Vec::new();
    let mut k: usize = 0;
    while k < works.len()
        invariant
            k <= works.len(),
            items@.len() == k,
            forall|j: int| 0 <= j < k ==> work_item_fits(works@[j], #[trigger] items@[j]),
        decreases works.len() - k,
    {
        let w = &works[k];
        items.push(WorkIndexItem {
            id: w.id,
            title: w.title.clone(),
            title_kana: clone_opt(&w.title_kana),
            subtitle: clone_opt(&w.subtitle),
            author_name: clone_opt(&w.author_name),
            person_id: w.person_id,
            card_person_id: clone_opt(&w.card_person_id),
            kana_type: clone_opt(&w.kana_type),
            author_text: clone_opt(&w.author_text),
            base_author_text: Some(w.base_author_text.clone()),
            translator_text: Some(w.translator_text.clone()),
        });
        k = k + 1;
    }
    let chunks = paginate(&items);
    let total = chunks.len();
    let mut chunks = chunks;
    let ghost all = chunks@;
    let mut pages: Vec<WorkIndexData> = Vec::new();
    let mut i: usize = 0;
    while i < total
        invariant
            i <= total,
            total == all.len(),
            all.len() == total_pages(works@.len()),
            items@.len() == works@.len(),
            forall|j: int| 0 <= j < works@.len() ==> work_item_fits(works@[j], #[trigger] items@[j]),
            forall|j: int| 0 <= j < all.len() ==> (#[trigger] all[j])@ == page_items(items@, (j + 1) as nat),
            chunks@ == all.subrange(i as int, total as int),
            pages@.len() == i,
            forall|j: int|
                0 <= j < i ==> {
                    &&& (#[trigger] pages@[j]).kana_symbol@ == symbol@
                    &&& pages@[j].page == j + 1
                    &&& pages@[j].total_pages == total
                    &&& pages@[j].works@.len() == page_items(works@, (j + 1) as nat).len()
                    &&& forall|k: int|
                        0 <= k < pages@[j].works@.len() ==> work_item_fits(
                            page_items(works@, (j + 1) as nat)[k],
                            #[trigger] pages@[j].works@[k],
                        )
                },
        decreases total - i,
    {
        let chunk = chunks.remove(0);
        assert(chunk == all[i as int]);
        assert(chunks@ =~= all.subrange(i + 1, total as int));
        let ghost pr = crate::export_helpers::page_range(works@.len(), (i + 1) as nat);
        proof {
            crate::export_helpers::lemma_pages_partition(works@.len());
        }
        assert forall|k: int| 0 <= k < chunk@.len() implies work_item_fits(
            page_items(works@, (i + 1) as nat)[k],
            #[trigger] chunk@[k],
        ) by {
            assert(chunk@[k] == items@[pr.0 + k]);
            assert(page_items(works@, (i + 1) as nat)[k] == works@[pr.0 + k]);
        }
        pages.push(WorkIndexData { kana_symbol: owned(symbol), page: i + 1, total_pages: total, works: chunk });
        i = i + 1;
    }
    pages
}

/// A work in progress of a symbol.
pub struct WipWorkRow {
    pub id: i64,
    pub title: String,
    pub subtitle: Option<String>,
    pub kana_type_name: Option<String>,
    pub author_name: Option<String>,
    pub author_id: Option<i64>,
    pub base_author_name: Option<String>,
    pub translator_text: Option<String>,
    pub inputer_text: Option<String>,
    pub proofreader_text: Option<String>,
    pub work_status_name: Option<String>,
    pub started_on: Option<Date>,
    pub teihon_title: Option<String>,
    pub teihon_publisher: Option<String>,
    pub teihon_input_edition: Option<String>,
}

/// A work on a works-in-progress index page.
pub struct WipWorkIndexItem {
    pub id: i64,
    pub title: String,
    pub subtitle: Option<String>,
    pub kana_type_name: Option<String>,
    pub author_name: Option<String>,
    pub author_id: Option<i64>,
    pub base_author_name: Option<String>,
    pub translator_text: Option<String>,
    pub inputer_text: Option<String>,
    pub proofreader_text: Option<String>,
    pub work_status_name: Option<String>,
    pub started_on: Option<String>,
    pub teihon_title: Option<String>,
    pub teihon_publisher: Option<String>,
    pub teihon_input_edition: Option<String>,
}

/// The page number and the page count.
pub struct Pagination {
    pub page: usize,
    pub total_pages: usize,
}

/// One works-in-progress index page.
pub struct WipWorkIndexData {
    pub kana_symbol: String,
    pub pagination: Pagination,
    pub works: Vec<WipWorkIndexItem>,
}

impl Duplicate for WipWorkIndexItem {
    fn duplicate(&self) -> (r: Self) {
        WipWorkIndexItem {
            id: self.id,
            title: self.title.clone(),
            subtitle: clone_opt(&self.subtitle),
            kana_type_name: clone_opt(&self.kana_type_name),
            author_name: clone_opt(&self.author_name),
            author_id: self.author_id,
            base_author_name: clone_opt(&self.base_author_name),
            translator_text: clone_opt(&self.translator_text),
            inputer_text: clone_opt(&self.inputer_text),
            proofreader_text: clone_opt(&self.proofreader_text),
            work_status_name: clone_opt(&self.work_status_name),
            started_on: clone_opt(&self.started_on),
            teihon_title: clone_opt(&self.teihon_title),
            teihon_publisher: clone_opt(&self.teihon_publisher),
            teihon_input_edition: clone_opt(&self.teihon_input_edition),
        }
    }
}

/// `it` shows work row `w`, its start date as `YYYY-MM-DD`.
pub open spec fn wip_item_fits(w: WipWorkRow, it: WipWorkIndexItem) -> bool {
    &&& it.id == w.id
    &&& it.title == w.title
    &&& it.subtitle == w.subtitle
    &&& it.kana_type_name == w.kana_type_name
    &&& it.author_name == w.author_name
    &&& it.author_id == w.author_id
    &&& it.base_author_name == w.base_author_name
    &&& it.translator_text == w.translator_text
    &&& it.inputer_text == w.inputer_text
    &&& it.proofreader_text == w.proofreader_text
    &&& it.work_status_name == w.work_status_name
    &&& opt_view(it.started_on) == opt_date_text(w.started_on)
    &&& it.teihon_title == w.teihon_title
    &&& it.teihon_publisher == w.teihon_publisher
    &&& it.teihon_input_edition == w.teihon_input_edition
}

fn wip_item(w: &WipWorkRow) -> (it: WipWorkIndexItem)
    ensures
        wip_item_fits(*w, it),
{
    WipWorkIndexItem {
        id: w.id,
        title: w.title.clone(),
        subtitle: clone_opt(&w.subtitle),
        kana_type_name: clone_opt(&w.kana_type_name),
        author_name: clone_opt(&w.author_name),
        author_id: w.author_id,
        base_author_name: clone_opt(&w.base_author_name),
        translator_text: clone_opt(&w.translator_text),
        inputer_text: clone_opt(&w.inputer_text),
        proofreader_text: clone_opt(&w.proofreader_text),
        work_status_name: clone_opt(&w.work_status_name),
        started_on: opt_date_to_text(&w.started_on),
        teihon_title: clone_opt(&w.teihon_title),
        teihon_publisher: clone_opt(&w.teihon_publisher),
        teihon_input_edition: clone_opt(&w.teihon_input_edition),
    }
}

/// The works-in-progress index pages of a symbol, paged as
/// [`work_index_pages`] pages.
pub fn wip_work_index_pages(symbol: &str, works: &Vec<WipWorkRow>) -> (r: Vec<WipWorkIndexData>)
    ensures
        r@.len() == total_pages(works@.len()),
        forall|i: int|
            0 <= i < r@.len() ==> {
                &&& (#[trigger] r@[i]).kana_symbol@ == symbol@
                &&& r@[i].pagination.page == i + 1
                &&& r@[i].pagination.total_pages == total_pages(works@.len())
                &&& r@[i].works@.len() == page_items(works@, (i + 1) as nat).len()
                &&& forall|k: int|
                    0 <= k < r@[i].works@.len() ==> wip_item_fits(
                        page_items(works@, (i + 1) as nat)[k],
                        #[trigger] r@[i].works@[k],
                    )
            },
{
    let mut items: Vec<WipWorkIndexItem> = Vec::new();
    let mut k: usize = 0;
    while k < works.len()
        invariant
            k <= works.len(),
            items@.len() == k,
            forall|j: int| 0 <= j < k ==> wip_item_fits(works@[j], #[trigger] items@[j]),
        decreases works.len() - k,
    {
        items.push(wip_item(&works[k]));
        k = k + 1;
    }
    let chunks = paginate(&items);
    let total = chunks.len();
    let mut chunks = chunks;
    let ghost all = chunks@;
    let mut pages: Vec<WipWorkIndexData> = Vec::new();
    let mut i: usize = 0;
    while i < total
        invariant
            i <= total,
            total == all.len(),
            all.len() == total_pages(works@.len()),
            items@.len() == works@.len(),
            forall|j: int| 0 <= j < works@.len() ==> wip_item_fits(works@[j], #[trigger] items@[j]),
            forall|j: int| 0 <= j < all.len() ==> (#[trigger] all[j])@ == page_items(items@, (j + 1) as nat),
            chunks@ == all.subrange(i as int, total as int),
            pages@.len() == i,
            forall|j: int|
                0 <= j < i ==> {
                    &&& (#[trigger] pages@[j]).kana_symbol@ == symbol@
                    &&& pages@[j].pagination.page == j + 1
                    &&& pages@[j].pagination.total_pages == total
                    &&& pages@[j].works@.len() == page_items(works@, (j + 1) as nat).len()
                    &&& forall|k: int|
                        0 <= k < pages@[j].works@.len() ==> wip_item_fits(
                            page_items(works@, (j + 1) as nat)[k],
                            #[trigger] pages@[j].works@[k],
                        )
                },
        decreases total - i,
    {
        let chunk = chunks.remove(0);
        assert(chunk == all[i as int]);
        assert(chunks@ =~= all.subrange(i + 1, total as int));
        let ghost pr = crate::export_helpers::page_range(works@.len(), (i + 1) as nat);
        proof {
            crate::export_helpers::lemma_pages_partition(works@.len());
        }
        assert forall|k: int| 0 <= k < chunk@.len() implies wip_item_fits(
            page_items(works@, (i + 1) as nat)[k],
            #[trigger] chunk@[k],
        ) by {
            assert(chunk@[k] == items@[pr.0 + k]);
            assert(page_items(works@, (i + 1) as nat)[k] == works@[pr.0 + k]);
        }
        pages.push(WipWorkIndexData {
            kana_symbol: owned(symbol),
            pagination: Pagination { page: i + 1, total_pages: total },
            works: chunk,
        });
        i = i + 1;
    }
    pages
}

} // verus!
