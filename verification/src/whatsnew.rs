//! "What's new": the works published in a year, newest first, with the
//! people and volunteers of each work, split into pages.
use vstd::prelude::*;
use std::collections::HashMap;
use crate::db_helpers::{derefs, group_by_key, group_rows, rows_with_key, GroupKey};
use crate::export_helpers::{page_items, paginate, total_pages};
use crate::models::{Date, Duplicate, opt_date_text, opt_date_to_text, opt_view};
use crate::text::{clone_opt, join, seq_join, views};

verus! {

broadcast use vstd::std_specs::hash::group_hash_axioms;

/// The first year that has past-year pages.
pub const FIRST_YEAR: i32 = 2001;

/// A work published in the year.
pub struct WorkRow {
    pub id: i64,
    pub title: String,
    pub subtitle: Option<String>,
    pub started_on: Option<Date>,
}

/// A person of such a work (role 1 author, 2 translator).
pub struct WorkPersonRow {
    pub work_id: i64,
    pub role_id: i64,
    pub person_name: String,
}

/// A volunteer of such a work (worker role 1 inputter, 2 proofreader).
pub struct WorkWorkerRow {
    pub work_id: i64,
    pub worker_role_id: i64,
    pub worker_name: Option<String>,
}

/// One line of a "what's new" page.
pub struct WhatsnewEntry {
    pub work_id: i64,
    pub title: String,
    pub subtitle: Option<String>,
    pub card_person_id: Option<i64>,
    pub author_text: Option<String>,
    pub inputer_text: Option<String>,
    pub proofreader_text: Option<String>,
    pub translator_text: Option<String>,
    pub started_on: Option<String>,
}

/// One "what's new" page: the current year has no year.
pub struct WhatsnewPageData {
    pub year: Option<i32>,
    pub page: usize,
    pub total_pages: usize,
    pub entries: Vec<WhatsnewEntry>,
}

impl GroupKey for WorkPersonRow {
    open spec fn group_key(&self) -> i64 {
        self.work_id
    }

    fn key_of(&self) -> (k: i64) {
        self.work_id
    }
}

impl GroupKey for WorkWorkerRow {
    open spec fn group_key(&self) -> i64 {
        self.work_id
    }

    fn key_of(&self) -> (k: i64) {
        self.work_id
    }
}

impl Duplicate for WhatsnewEntry {
    fn duplicate(&self) -> (r: Self) {
        WhatsnewEntry {
            work_id: self.work_id,
            title: self.title.clone(),
            subtitle: clone_opt(&self.subtitle),
            card_person_id: self.card_person_id,
            author_text: clone_opt(&self.author_text),
            inputer_text: clone_opt(&self.inputer_text),
            proofreader_text: clone_opt(&self.proofreader_text),
            translator_text: clone_opt(&self.translator_text),
            started_on: clone_opt(&self.started_on),
        }
    }
}

/// Text that is absent when empty.
pub open spec fn non_empty_text(s: Seq<char>) -> Option<Seq<char>> {
    if s.len() == 0 { None } else { Some(s) }
}

/// `None` for the empty string, the string otherwise.
pub fn non_empty(s: String) -> (r: Option<String>)
    ensures
        opt_view(r) == non_empty_text(s@),
{
    if s.as_str().unicode_len() == 0 { None } else { Some(s) }
}

/// The person names of `people` joined with `sep`.
pub fn join_names(people: &[&WorkPersonRow], sep: &str) -> (r: String)
    ensures
        r@ == seq_join(derefs(people@).map_values(|p: WorkPersonRow| p.person_name@), sep@),
{
    let mut names: Vec<String> = Vec::new();
    let mut i: usize = 0;
    while i < people.len()
        invariant
            i <= people.len(),
            views(names@) == derefs(people@).take(i as int).map_values(|p: WorkPersonRow| p.person_name@),
        decreases people.len() - i,
    {
        let ghost before = names@;
        names.push(people[i].person_name.clone());
        assert(views(names@) =~= views(before).push(people@[i as int].person_name@));
        assert(derefs(people@).take(i + 1).map_values(|p: WorkPersonRow| p.person_name@)
            =~= derefs(people@).take(i as int).map_values(|p: WorkPersonRow| p.person_name@).push(people@[i as int].person_name@));
        i = i + 1;
    }
    assert(derefs(people@).take(people.len() as int) =~= derefs(people@));
    join(&names, sep)
}

/// The names of `workers` that have one, joined with `sep`.
pub fn join_worker_names(workers: &[&WorkWorkerRow], sep: &str) -> (r: String)
    ensures
        r@ == seq_join(named_workers(derefs(workers@)), sep@),
{
    let mut names: Vec<String> = Vec::new();
    let mut i: usize = 0;
    while i < workers.len()
        invariant
            i <= workers.len(),
            views(names@) == named_workers(derefs(workers@).take(i as int)),
        decreases workers.len() - i,
    {
        let ghost before = names@;
        assert(derefs(workers@).take(i + 1).drop_last() =~= derefs(workers@).take(i as int));
        match &workers[i].worker_name {
            Some(n) => {
                names.push(n.clone());
                assert(views(names@) =~= views(before).push(n@));
            },
            None => {},
        }
        i = i + 1;
    }
    assert(derefs(workers@).take(workers.len() as int) =~= derefs(workers@));
    join(&names, sep)
}

/// The names of the volunteers that have one, in order.
pub open spec fn named_workers(workers: Seq<WorkWorkerRow>) -> Seq<Seq<char>>
    decreases workers.len(),
{
    if workers.len() == 0 {
        Seq::empty()
    } else {
        let prev = named_workers(workers.drop_last());
        match workers.last().worker_name {
            Some(n) => prev.push(n@),
            None => prev,
        }
    }
}

/// The volunteers of a work in worker role `role_id`.
pub open spec fn workers_in_role(workers: Seq<WorkWorkerRow>, role_id: i64) -> Seq<WorkWorkerRow>
    decreases workers.len(),
{
    if workers.len() == 0 {
        Seq::empty()
    } else {
        let prev = workers_in_role(workers.drop_last(), role_id);
        if workers.last().worker_role_id == role_id { prev.push(workers.last()) } else { prev }
    }
}

/// The people of a work in role `role_id`.
pub open spec fn people_in_role(people: Seq<WorkPersonRow>, role_id: i64) -> Seq<WorkPersonRow>
    decreases people.len(),
{
    if people.len() == 0 {
        Seq::empty()
    } else {
        let prev = people_in_role(people.drop_last(), role_id);
        if people.last().role_id == role_id { prev.push(people.last()) } else { prev }
    }
}

fn select_people<'a>(people: &[&'a WorkPersonRow], role_id: i64) -> (r: Vec<&'a WorkPersonRow>)
    ensures
        derefs(r@) == people_in_role(derefs(people@), role_id),
{
    let ghost s = derefs(people@);
    let mut r: Vec<&'a WorkPersonRow> = Vec::new();
    let mut i: usize = 0;
    while i < people.len()
        invariant
            i <= people.len(),
            s == derefs(people@),
            derefs(r@) == people_in_role(s.take(i as int), role_id),
        decreases people.len() - i,
    {
        assert(s.take(i + 1).drop_last() =~= s.take(i as int));
        if people[i].role_id == role_id {
            let ghost before = r@;
            r.push(people[i]);
            assert(derefs(r@) =~= derefs(before).push(s[i as int]));
        }
        i = i + 1;
    }
    assert(s.take(people.len() as int) =~= s);
    r
}

fn select_workers<'a>(workers: &[&'a WorkWorkerRow], role_id: i64) -> (r: Vec<&'a WorkWorkerRow>)
    ensures
        derefs(r@) == workers_in_role(derefs(workers@), role_id),
{
    let ghost s = derefs(workers@);
    let mut r: Vec<&'a WorkWorkerRow> = Vec::new();
    let mut i: usize = 0;
    while i < workers.len()
        invariant
            i <= workers.len(),
            s == derefs(workers@),
            derefs(r@) == workers_in_role(s.take(i as int), role_id),
        decreases workers.len() - i,
    {
        assert(s.take(i + 1).drop_last() =~= s.take(i as int));
        if workers[i].worker_role_id == role_id {
            let ghost before = r@;
            r.push(workers[i]);
            assert(derefs(r@) =~= derefs(before).push(s[i as int]));
        }
        i = i + 1;
    }
    assert(s.take(workers.len() as int) =~= s);
    r
}

/// Names of people joined with `sep`, absent when there are none to join.
pub open spec fn joined_names(people: Seq<WorkPersonRow>, sep: Seq<char>) -> Option<Seq<char>> {
    non_empty_text(seq_join(people.map_values(|p: WorkPersonRow| p.person_name@), sep))
}

/// Names of volunteers joined with `sep`, absent when the text is empty.
pub open spec fn joined_workers(workers: Seq<WorkWorkerRow>, sep: Seq<char>) -> Option<Seq<char>> {
    non_empty_text(seq_join(named_workers(workers), sep))
}

/// `e` is the "what's new" line of `work`, given the work's people and
/// volunteers and the first author of each work.
pub open spec fn entry_fits(
    work: WorkRow,
    people: Seq<WorkPersonRow>,
    workers: Seq<WorkWorkerRow>,
    first_authors: Map<i64, i64>,
    e: WhatsnewEntry,
) -> bool {
    &&& e.work_id == work.id
    &&& e.title == work.title
    &&& e.subtitle == work.subtitle
    &&& e.card_person_id == if first_authors.contains_key(work.id) { Some(first_authors[work.id]) } else { None }
    &&& opt_view(e.author_text) == joined_names(people_in_role(people, 1), ", "@)
    &&& opt_view(e.translator_text) == joined_names(people_in_role(people, 2), ", "@)
    &&& opt_view(e.inputer_text) == joined_workers(workers_in_role(workers, 1), "、"@)
    &&& opt_view(e.proofreader_text) == joined_workers(workers_in_role(workers, 2), "、"@)
    &&& opt_view(e.started_on) == opt_date_text(work.started_on)
}

/// The "what's new" lines of the year's works, in the order of `works`:
/// authors and translators joined with ", ", inputters and proofreaders with
/// "、", each absent when empty; the card person is the work's first author
/// as `card_person_ids` records it.
pub fn year_entries(
    works: &Vec<WorkRow>,
    work_people: &Vec<WorkPersonRow>,
    card_person_ids: &HashMap<i64, i64>,
    work_workers: &Vec<WorkWorkerRow>,
) -> (entries: Vec<WhatsnewEntry>)
    ensures
        entries@.len() == works@.len(),
        forall|i: int|
            0 <= i < works@.len() ==> entry_fits(
                works@[i],
                rows_with_key(work_people@, works@[i].id),
                rows_with_key(work_workers@, works@[i].id),
                card_person_ids@,
                #[trigger] entries@[i],
            ),
{
    let people_by_work = group_by_key(work_people.as_slice());
    let workers_by_work = group_by_key(work_workers.as_slice());
    let empty_people: Vec<&WorkPersonRow> = Vec::new();
    let empty_workers: Vec<&WorkWorkerRow> = Vec::new();
    let mut entries: Vec<WhatsnewEntry> = Vec::new();
    let mut i: usize = 0;
    while i < works.len()
        invariant
            i <= works.len(),
            forall|k: i64| #[trigger] group_rows(people_by_work@, k) == rows_with_key(work_people@, k),
            forall|k: i64| #[trigger] group_rows(workers_by_work@, k) == rows_with_key(work_workers@, k),
            empty_people@.len() == 0,
            empty_workers@.len() == 0,
            entries@.len() == i,
            forall|j: int|
                0 <= j < i ==> entry_fits(
                    works@[j],
                    rows_with_key(work_people@, works@[j].id),
                    rows_with_key(work_workers@, works@[j].id),
                    card_person_ids@,
                    #[trigger] entries@[j],
                ),
        decreases works.len() - i,
    {
        let work = &works[i];
        let people: &[&WorkPersonRow] = match people_by_work.get(&work.id) {
            Some(v) => v.as_slice(),
            None => empty_people.as_slice(),
        };
        let workers: &[&WorkWorkerRow] = match workers_by_work.get(&work.id) {
            Some(v) => v.as_slice(),
            None => empty_workers.as_slice(),
        };
        assert(derefs(people@) =~= rows_with_key(work_people@, work.id)) by {
            assert(group_rows(people_by_work@, work.id) == rows_with_key(work_people@, work.id));
        }
        assert(derefs(workers@) =~= rows_with_key(work_workers@, work.id)) by {
            assert(group_rows(workers_by_work@, work.id) == rows_with_key(work_workers@, work.id));
        }
        let authors = select_people(people, 1);
        let translators = select_people(people, 2);
        let inputers = select_workers(workers, 1);
        let proofreaders = select_workers(workers, 2);
        let author_text = join_names(authors.as_slice(), ", ");
        let translator_text = join_names(translators.as_slice(), ", ");
        let inputer_text = join_worker_names(inputers.as_slice(), "、");
        let proofreader_text = join_worker_names(proofreaders.as_slice(), "、");
        let card_person_id = match card_person_ids.get(&work.id) {
            Some(p) => Some(*p),
            None => None,
        };
        let entry = WhatsnewEntry {
            work_id: work.id,
            title: work.title.clone(),
            subtitle: clone_opt(&work.subtitle),
            card_person_id,
            author_text: non_empty(author_text),
            inputer_text: non_empty(inputer_text),
            proofreader_text: non_empty(proofreader_text),
            translator_text: non_empty(translator_text),
            started_on: opt_date_to_text(&work.started_on),
        };
        entries.push(entry);
        i = i + 1;
    }
    entries
}

/// `pages` are the pages of `entries` for `year`: page numbers 1.. in order,
/// every page knowing the page count, page `p` holding
/// [`page_items`]`(entries, p)`.
pub open spec fn pages_fit(entries: Seq<WhatsnewEntry>, year: Option<i32>, pages: Seq<WhatsnewPageData>) -> bool {
    &&& pages.len() == total_pages(entries.len())
    &&& forall|i: int|
        0 <= i < pages.len() ==> {
            &&& (#[trigger] pages[i]).year == year
            &&& pages[i].page == i + 1
            &&& pages[i].total_pages == total_pages(entries.len())
            &&& pages[i].entries@ == page_items(entries, (i + 1) as nat)
        }
}

/// Splits a year's entries into numbered pages (always at least one page).
pub fn paginate_entries(entries: &Vec<WhatsnewEntry>, year: Option<i32>) -> (pages: Vec<WhatsnewPageData>)
    ensures
        pages_fit(entries@, year, pages@),
{
    let chunks = paginate(entries);
    let total = chunks.len();
    let mut pages: Vec<WhatsnewPageData> = Vec::new();
    let mut chunks = chunks;
    let ghost all = chunks@;
    let mut i: usize = 0;
    while i < total
        invariant
            i <= total,
            total == all.len(),
            all.len() == total_pages(entries@.len()),
            forall|j: int| 0 <= j < all.len() ==> (#[trigger] all[j])@ == page_items(entries@, (j + 1) as nat),
            chunks@ == all.subrange(i as int, total as int),
            pages@.len() == i,
            forall|j: int|
                0 <= j < i ==> {
                    &&& (#[trigger] pages@[j]).year == year
                    &&& pages@[j].page == j + 1
                    &&& pages@[j].total_pages == total
                    &&& pages@[j].entries@ == page_items(entries@, (j + 1) as nat)
                },
        decreases total - i,
    {
        let chunk = chunks.remove(0);
        assert(chunk == all[i as int]);
        assert(chunks@ =~= all.subrange(i + 1, total as int));
        pages.push(WhatsnewPageData { year, page: i + 1, total_pages: total, entries: chunk });
        i = i + 1;
    }
    pages
}

/// The years of the "what's new" pages in the order they are written: the
/// current year first (no year), then each past year from [`FIRST_YEAR`]
/// up to the year before the current one.
pub fn whatsnew_years(current_year: i32) -> (r: Vec<Option<i32>>)
    ensures
        r@.len() == 1 + if current_year > FIRST_YEAR { current_year - FIRST_YEAR } else { 0 },
        r@[0] == None::<i32>,
        forall|i: int| 1 <= i < r@.len() ==> #[trigger] r@[i] == Some((FIRST_YEAR + i - 1) as i32),
{
    let mut r: Vec<Option<i32>> = Vec::new();
    r.push(None);
    let mut y: i32 = FIRST_YEAR;
    while y < current_year
        invariant
            FIRST_YEAR <= y,
            y <= current_year || y == FIRST_YEAR,
            r@.len() == 1 + y - FIRST_YEAR,
            r@[0] == None::<i32>,
            forall|i: int| 1 <= i < r@.len() ==> #[trigger] r@[i] == Some((FIRST_YEAR + i - 1) as i32),
        decreases current_year - y,
    {
        r.push(Some(y));
        y = y + 1;
    }
    r
}

/// With no volunteer in worker role `role`, the role's names are empty.
proof fn lemma_no_workers_in_role(workers: Seq<WorkWorkerRow>, role: i64)
    requires
        forall|k: int| 0 <= k < workers.len() ==> #[trigger] workers[k].worker_role_id != role,
    ensures
        workers_in_role(workers, role).len() == 0,
    decreases workers.len(),
{
    if workers.len() > 0 {
        assert forall|k: int| 0 <= k < workers.drop_last().len() implies #[trigger] workers.drop_last()[k].worker_role_id
            != role by {
            assert(workers.drop_last()[k] == workers[k]);
        }
        lemma_no_workers_in_role(workers.drop_last(), role);
    }
}

/// Joining one more part after at least one keeps the text at least as long.
proof fn lemma_join_push(parts: Seq<Seq<char>>, x: Seq<char>, sep: Seq<char>)
    requires
        parts.len() >= 1,
    ensures
        seq_join(parts.push(x), sep) == seq_join(parts, sep) + sep + x,
{
    assert(parts.push(x).drop_last() =~= parts);
}

/// A named volunteer in worker role `role` makes the role's joined names
/// non-empty.
proof fn lemma_named_worker_in_role(workers: Seq<WorkWorkerRow>, role: i64, k: int, sep: Seq<char>)
    requires
        0 <= k < workers.len(),
        workers[k].worker_role_id == role,
        workers[k].worker_name is Some,
        workers[k].worker_name->0@.len() > 0,
    ensures
        seq_join(named_workers(workers_in_role(workers, role)), sep).len() > 0,
    decreases workers.len(),
{
    let prev = workers.drop_last();
    let last = workers.last();
    let np = named_workers(workers_in_role(prev, role));
    if k == workers.len() - 1 {
        assert(workers_in_role(workers, role) == workers_in_role(prev, role).push(last));
        assert(workers_in_role(prev, role).push(last).drop_last() =~= workers_in_role(prev, role));
        assert(named_workers(workers_in_role(workers, role)) == np.push(last.worker_name->0@));
        if np.len() >= 1 {
            lemma_join_push(np, last.worker_name->0@, sep);
        } else {
            assert(np.push(last.worker_name->0@).len() == 1);
        }
    } else {
        assert(prev[k] == workers[k]);
        lemma_named_worker_in_role(prev, role, k, sep);
        if last.worker_role_id == role {
            assert(workers_in_role(prev, role).push(last).drop_last() =~= workers_in_role(prev, role));
            match last.worker_name {
                Some(n) => {
                    assert(named_workers(workers_in_role(workers, role)) == np.push(n@));
                    lemma_join_push(np, n@, sep);
                },
                None => {
                    assert(named_workers(workers_in_role(workers, role)) == np);
                },
            }
        } else {
            assert(workers_in_role(workers, role) == workers_in_role(prev, role));
        }
    }
}

/// On a "what's new" line, the inputters are the volunteers in worker role
/// 1 and the proofreaders those in role 2: a role without volunteers shows
/// nothing, and a role with a named volunteer shows a text; a work whose
/// only volunteer is one proofreader shows exactly that name as proofreader
/// and no inputter.
pub proof fn lemma_entry_volunteers(
    work: WorkRow,
    people: Seq<WorkPersonRow>,
    workers: Seq<WorkWorkerRow>,
    first_authors: Map<i64, i64>,
    e: WhatsnewEntry,
)
    requires
        entry_fits(work, people, workers, first_authors, e),
    ensures
        (forall|k: int| 0 <= k < workers.len() ==> #[trigger] workers[k].worker_role_id != 1) ==> e.inputer_text is None,
        (forall|k: int| 0 <= k < workers.len() ==> #[trigger] workers[k].worker_role_id != 2) ==> e.proofreader_text is None,
        forall|k: int|
            0 <= k < workers.len() && #[trigger] workers[k].worker_role_id == 1 && workers[k].worker_name is Some
                && workers[k].worker_name->0@.len() > 0 ==> e.inputer_text is Some,
        forall|k: int|
            0 <= k < workers.len() && #[trigger] workers[k].worker_role_id == 2 && workers[k].worker_name is Some
                && workers[k].worker_name->0@.len() > 0 ==> e.proofreader_text is Some,
        workers.len() == 1 && workers[0].worker_role_id == 2 && workers[0].worker_name is Some
            && workers[0].worker_name->0@.len() > 0 ==> (e.inputer_text is None && e.proofreader_text is Some
            && e.proofreader_text->0@ == workers[0].worker_name->0@),
{
    if forall|k: int| 0 <= k < workers.len() ==> #[trigger] workers[k].worker_role_id != 1 {
        lemma_no_workers_in_role(workers, 1);
        assert(named_workers(workers_in_role(workers, 1)).len() == 0);
    }
    if forall|k: int| 0 <= k < workers.len() ==> #[trigger] workers[k].worker_role_id != 2 {
        lemma_no_workers_in_role(workers, 2);
        assert(named_workers(workers_in_role(workers, 2)).len() == 0);
    }
    assert forall|k: int|
        0 <= k < workers.len() && #[trigger] workers[k].worker_role_id == 1 && workers[k].worker_name is Some
            && workers[k].worker_name->0@.len() > 0 implies e.inputer_text is Some by {
        lemma_named_worker_in_role(workers, 1, k, "、"@);
    }
    assert forall|k: int|
        0 <= k < workers.len() && #[trigger] workers[k].worker_role_id == 2 && workers[k].worker_name is Some
            && workers[k].worker_name->0@.len() > 0 implies e.proofreader_text is Some by {
        lemma_named_worker_in_role(workers, 2, k, "、"@);
    }
    if workers.len() == 1 && workers[0].worker_role_id == 2 && workers[0].worker_name is Some
        && workers[0].worker_name->0@.len() > 0 {
        let w = workers[0];
        assert(workers.drop_last() =~= Seq::<WorkWorkerRow>::empty());
        assert(workers.last() == w);
        assert(workers_in_role(Seq::<WorkWorkerRow>::empty(), 2) =~= Seq::<WorkWorkerRow>::empty());
        assert(workers_in_role(Seq::<WorkWorkerRow>::empty(), 1) =~= Seq::<WorkWorkerRow>::empty());
        assert(workers_in_role(workers, 2) == workers_in_role(workers.drop_last(), 2).push(w));
        assert(workers_in_role(workers, 2) =~= seq![w]);
        assert(workers_in_role(workers, 1) =~= Seq::<WorkWorkerRow>::empty());
        assert(seq![w].drop_last() =~= Seq::<WorkWorkerRow>::empty());
        assert(named_workers(seq![w]) =~= seq![w.worker_name->0@]);
        assert(named_workers(Seq::<WorkWorkerRow>::empty()).len() == 0);
    }
}

/// With nobody in role `role`, the role's people are none.
proof fn lemma_no_people_in_role(people: Seq<WorkPersonRow>, role: i64)
    requires
        forall|k: int| 0 <= k < people.len() ==> #[trigger] people[k].role_id != role,
    ensures
        people_in_role(people, role).len() == 0,
    decreases people.len(),
{
    if people.len() > 0 {
        assert forall|k: int| 0 <= k < people.drop_last().len() implies #[trigger] people.drop_last()[k].role_id
            != role by {
            assert(people.drop_last()[k] == people[k]);
        }
        lemma_no_people_in_role(people.drop_last(), role);
    }
}

/// A person with a non-empty name in role `role` makes the role's joined
/// names non-empty.
proof fn lemma_named_person_in_role(people: Seq<WorkPersonRow>, role: i64, k: int, sep: Seq<char>)
    requires
        0 <= k < people.len(),
        people[k].role_id == role,
        people[k].person_name@.len() > 0,
    ensures
        seq_join(people_in_role(people, role).map_values(|p: WorkPersonRow| p.person_name@), sep).len() > 0,
    decreases people.len(),
{
    let prev = people.drop_last();
    let last = people.last();
    let pr = people_in_role(prev, role);
    let np = pr.map_values(|p: WorkPersonRow| p.person_name@);
    if last.role_id == role {
        assert(people_in_role(people, role) == pr.push(last));
        assert(pr.push(last).map_values(|p: WorkPersonRow| p.person_name@) =~= np.push(last.person_name@));
        if k < people.len() - 1 {
            assert(prev[k] == people[k]);
            lemma_named_person_in_role(prev, role, k, sep);
        }
        if np.len() >= 1 {
            lemma_join_push(np, last.person_name@, sep);
            if k == people.len() - 1 {
                assert(seq_join(np.push(last.person_name@), sep).len() >= last.person_name@.len());
            }
        } else {
            assert(np.push(last.person_name@).len() == 1);
            if k < people.len() - 1 {
                assert(np.len() > 0);
            }
        }
    } else {
        assert(k < people.len() - 1);
        assert(prev[k] == people[k]);
        assert(people_in_role(people, role) == pr);
        lemma_named_person_in_role(prev, role, k, sep);
    }
}

/// On a "what's new" line, the authors are the people in role 1 and the
/// translators those in role 2: a role without people shows nothing, and a
/// role with a named person shows a text; a work whose only person is one
/// author shows exactly that name as author and no translator.
pub proof fn lemma_entry_people(
    work: WorkRow,
    people: Seq<WorkPersonRow>,
    workers: Seq<WorkWorkerRow>,
    first_authors: Map<i64, i64>,
    e: WhatsnewEntry,
)
    requires
        entry_fits(work, people, workers, first_authors, e),
    ensures
        (forall|k: int| 0 <= k < people.len() ==> #[trigger] people[k].role_id != 1) ==> e.author_text is None,
        (forall|k: int| 0 <= k < people.len() ==> #[trigger] people[k].role_id != 2) ==> e.translator_text is None,
        forall|k: int|
            0 <= k < people.len() && #[trigger] people[k].role_id == 1 && people[k].person_name@.len() > 0
                ==> e.author_text is Some,
        forall|k: int|
            0 <= k < people.len() && #[trigger] people[k].role_id == 2 && people[k].person_name@.len() > 0
                ==> e.translator_text is Some,
        people.len() == 1 && people[0].role_id == 1 && people[0].person_name@.len() > 0 ==> (e.translator_text is None
            && e.author_text is Some && e.author_text->0@ == people[0].person_name@),
{
    if forall|k: int| 0 <= k < people.len() ==> #[trigger] people[k].role_id != 1 {
        lemma_no_people_in_role(people, 1);
    }
    if forall|k: int| 0 <= k < people.len() ==> #[trigger] people[k].role_id != 2 {
        lemma_no_people_in_role(people, 2);
    }
    assert forall|k: int|
        0 <= k < people.len() && #[trigger] people[k].role_id == 1 && people[k].person_name@.len() > 0 implies e.author_text is Some by {
        lemma_named_person_in_role(people, 1, k, ", "@);
    }
    assert forall|k: int|
        0 <= k < people.len() && #[trigger] people[k].role_id == 2 && people[k].person_name@.len() > 0 implies e.translator_text is Some by {
        lemma_named_person_in_role(people, 2, k, ", "@);
    }
    if people.len() == 1 && people[0].role_id == 1 && people[0].person_name@.len() > 0 {
        let p = people[0];
        assert(people.drop_last() =~= Seq::<WorkPersonRow>::empty());
        assert(people.last() == p);
        assert(people_in_role(Seq::<WorkPersonRow>::empty(), 1) =~= Seq::<WorkPersonRow>::empty());
        assert(people_in_role(Seq::<WorkPersonRow>::empty(), 2) =~= Seq::<WorkPersonRow>::empty());
        assert(people_in_role(people, 1) == people_in_role(people.drop_last(), 1).push(p));
        assert(people_in_role(people, 1) =~= seq![p]);
        assert(people_in_role(people, 2) =~= Seq::<WorkPersonRow>::empty());
        assert(seq![p].map_values(|q: WorkPersonRow| q.person_name@) =~= seq![p.person_name@]);
    }
}

} // verus!
