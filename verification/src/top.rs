//! The top page: the works published on the latest publication day with
//! their authors, the latest news, the flagged topics and the work counts.
use vstd::prelude::*;
use crate::db_helpers::{GroupKey, derefs, group_by_key, group_rows, rows_with_key};
use crate::models::{Date, opt_date_text, opt_date_to_text, opt_view};
use crate::text::{clone_opt, join, owned, seq_join, views};
use crate::whatsnew::{non_empty, non_empty_text};

verus! {

broadcast use vstd::std_specs::hash::group_hash_axioms;

/// A work published on the latest publication day.
pub struct NewWorkRow {
    pub id: i64,
    pub title: String,
    pub subtitle: Option<String>,
}

/// An author of such a work, in the work's author order.
pub struct WorkPersonRow {
    pub work_id: i64,
    pub person_id: i64,
    pub person_name: String,
}

/// A news entry.
pub struct NewsRow {
    pub id: i64,
    pub title: String,
    pub published_on: Option<Date>,
}

/// A new work as the top page lists it.
pub struct NewWork {
    pub work_id: i64,
    pub title: String,
    pub subtitle: Option<String>,
    pub author_text: Option<String>,
    pub card_person_id: Option<i64>,
}

/// A topic (a flagged news entry).
pub struct TopicEntry {
    pub id: i64,
    pub title: String,
    pub published_on: Option<String>,
    pub year: Option<i32>,
}

/// Everything the top page shows.
pub struct TopData {
    pub new_works: Vec<NewWork>,
    pub new_works_published_on: Option<String>,
    pub latest_news_published_on: Option<String>,
    pub topics: Vec<TopicEntry>,
    pub works_count: i64,
    pub works_copyright_count: i64,
    pub works_noncopyright_count: i64,
}

impl GroupKey for WorkPersonRow {
    open spec fn group_key(&self) -> i64 {
        self.work_id
    }

    fn key_of(&self) -> (k: i64) {
        self.work_id
    }
}

/// The latest publication day: this year's when there is one, else last year's.
pub fn latest_published(this_year: Option<Date>, last_year: Option<Date>) -> (r: Option<Date>)
    ensures
        r == match this_year {
            Some(d) => Some(d),
            None => last_year,
        },
{
    match this_year {
        Some(d) => Some(d),
        None => last_year,
    }
}

/// The authors' names joined with "、", absent when that is empty.
pub open spec fn author_text(authors: Seq<WorkPersonRow>) -> Option<Seq<char>> {
    non_empty_text(seq_join(authors.map_values(|a: WorkPersonRow| a.person_name@), "、"@))
}

/// `w` lists `row` with its authors: their names, and the first author as
/// the person whose card the link opens.
pub open spec fn new_work_fits(row: NewWorkRow, authors: Seq<WorkPersonRow>, w: NewWork) -> bool {
    &&& w.work_id == row.id
    &&& w.title == row.title
    &&& w.subtitle == row.subtitle
    &&& opt_view(w.author_text) == author_text(authors)
    &&& w.card_person_id == if authors.len() > 0 { Some(authors[0].person_id) } else { None }
}

/// The names of the authors joined with "、".
fn join_authors(authors: &[&WorkPersonRow]) -> (r: String)
    ensures
        r@ == seq_join(derefs(authors@).map_values(|a: WorkPersonRow| a.person_name@), "、"@),
{
    let ghost all = derefs(authors@).map_values(|a: WorkPersonRow| a.person_name@);
    let mut names: Vec<String> = Vec::new();
    let mut i: usize = 0;
    while i < authors.len()
        invariant
            i <= authors.len(),
            all == derefs(authors@).map_values(|a: WorkPersonRow| a.person_name@),
            views(names@) == all.take(i as int),
        decreases authors.len() - i,
    {
        let ghost before = views(names@);
        names.push(owned(authors[i].person_name.as_str()));
        assert(views(names@) =~= before.push(authors@[i as int].person_name@));
        assert(all.take(i + 1) =~= all.take(i as int).push(all[i as int]));
        i = i + 1;
    }
    assert(all.take(authors.len() as int) =~= all);
    join(&names, "、")
}

/// The new works in the order of `rows`, each with its authors among `authors`.
pub fn new_works(rows: &Vec<NewWorkRow>, authors: &Vec<WorkPersonRow>) -> (r: Vec<NewWork>)
    ensures
        r@.len() == rows@.len(),
        forall|i: int|
            0 <= i < rows@.len() ==> new_work_fits(rows@[i], rows_with_key(authors@, rows@[i].id), #[trigger] r@[i]),
{
    let by_work = group_by_key(authors.as_slice());
    let empty: Vec<&WorkPersonRow> = Vec::new();
    let mut out: Vec<NewWork> = Vec::new();
    let mut i: usize = 0;
    while i < rows.len()
        invariant
            i <= rows.len(),
            forall|k: i64| #[trigger] group_rows(by_work@, k) == rows_with_key(authors@, k),
            empty@.len() == 0,
            out@.len() == i,
            forall|j: int|
                0 <= j < i ==> new_work_fits(rows@[j], rows_with_key(authors@, rows@[j].id), #[trigger] out@[j]),
        decreases rows.len() - i,
    {
        let row = &rows[i];
        let work_authors: &[&WorkPersonRow] = match by_work.get(&row.id) {
            Some(v) => v.as_slice(),
            None => empty.as_slice(),
        };
        assert(derefs(work_authors@) =~= rows_with_key(authors@, row.id)) by {
            assert(group_rows(by_work@, row.id) == rows_with_key(authors@, row.id));
        }
        let text = join_authors(work_authors);
        let card_person_id = if work_authors.len() > 0 {
            Some(work_authors[0].person_id)
        } else {
            None
        };
        out.push(NewWork {
            work_id: row.id,
            title: row.title.clone(),
            subtitle: clone_opt(&row.subtitle),
            author_text: non_empty(text),
            card_person_id,
        });
        i = i + 1;
    }
    out
}

/// `t` is the topic of news entry `n`.
pub open spec fn topic_fits(n: NewsRow, t: TopicEntry) -> bool {
    &&& t.id == n.id
    &&& t.title == n.title
    &&& opt_view(t.published_on) == opt_date_text(n.published_on)
    &&& t.year == match n.published_on {
        Some(d) => Some(d.year),
        None => None,
    }
}

/// The topics, one per news entry, in order.
pub fn topics(rows: &Vec<NewsRow>) -> (r: Vec<TopicEntry>)
    ensures
        r@.len() == rows@.len(),
        forall|i: int| 0 <= i < rows@.len() ==> topic_fits(rows@[i], #[trigger] r@[i]),
{
    let mut out: Vec<TopicEntry> = Vec::new();
    let mut i: usize = 0;
    while i < rows.len()
        invariant
            i <= rows.len(),
            out@.len() == i,
            forall|j: int| 0 <= j < i ==> topic_fits(rows@[j], #[trigger] out@[j]),
        decreases rows.len() - i,
    {
        let n = &rows[i];
        let year = match &n.published_on {
            Some(d) => Some(d.year),
            None => None,
        };
        out.push(TopicEntry { id: n.id, title: n.title.clone(), published_on: opt_date_to_text(&n.published_on), year });
        i = i + 1;
    }
    out
}

/// The top page from what the database gave: the latest publication day,
/// its works and their authors, the latest news entry, the topics, and the
/// counts of published works and of those under copyright.
pub fn top_data(
    latest_date: &Option<Date>,
    new_work_rows: &Vec<NewWorkRow>,
    authors: &Vec<WorkPersonRow>,
    latest_news: &Option<NewsRow>,
    topic_rows: &Vec<NewsRow>,
    works_count: i64,
    works_copyright_count: i64,
) -> (r: TopData)
    requires
        i64::MIN <= works_count - works_copyright_count <= i64::MAX,
    ensures
        r.new_works@.len() == new_work_rows@.len(),
        forall|i: int|
            0 <= i < new_work_rows@.len() ==> new_work_fits(
                new_work_rows@[i],
                rows_with_key(authors@, new_work_rows@[i].id),
                #[trigger] r.new_works@[i],
            ),
        opt_view(r.new_works_published_on) == opt_date_text(*latest_date),
        opt_view(r.latest_news_published_on) == match *latest_news {
            Some(n) => opt_date_text(n.published_on),
            None => None,
        },
        r.topics@.len() == topic_rows@.len(),
        forall|i: int| 0 <= i < topic_rows@.len() ==> topic_fits(topic_rows@[i], #[trigger] r.topics@[i]),
        r.works_count == works_count,
        r.works_copyright_count == works_copyright_count,
        r.works_noncopyright_count == works_count - works_copyright_count,
{
    let latest_news_published_on = match latest_news {
        Some(n) => opt_date_to_text(&n.published_on),
        None => None,
    };
    TopData {
        new_works: new_works(new_work_rows, authors),
        new_works_published_on: opt_date_to_text(latest_date),
        latest_news_published_on,
        topics: topics(topic_rows),
        works_count,
        works_copyright_count,
        works_noncopyright_count: works_count - works_copyright_count,
    }
}

} // verus!
