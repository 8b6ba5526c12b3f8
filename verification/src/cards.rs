//! Book cards: one record per (published work, related person), assembled
//! from the rows of the works and of the tables that hang off them.
use vstd::prelude::*;
use std::collections::HashMap;
use crate::db_helpers::{derefs, group_by_key, group_rows, rows_with_key, GroupKey};
use crate::models::{AuthorInfo, BibclassInfo, CardData, Date, OriginalBookInfo, PersonRef, SiteInfo, WorkPersonDetail, WorkWorkerInfo, WorkfileInfo, dup_vec, opt_date_text, opt_date_to_text, opt_view, Duplicate};
use crate::regex_text::{regex_replace_all, regex_replaced_all};
use crate::text::clone_opt;

verus! {

broadcast use vstd::std_specs::hash::group_hash_axioms;

/// A published work.
pub struct WorkRow {
    pub id: i64,
    pub title: String,
    pub title_kana: Option<String>,
    pub subtitle: Option<String>,
    pub subtitle_kana: Option<String>,
    pub original_title: Option<String>,
    pub collection: Option<String>,
    pub collection_kana: Option<String>,
    pub kana_type_name: Option<String>,
    pub started_on: Option<Date>,
    pub note: Option<String>,
    pub first_appearance: Option<String>,
    pub description: Option<String>,
}

/// A person linked to a work in a role (1 author, 2 translator, 3 editor, ...).
pub struct WorkPersonRow {
    pub work_id: i64,
    pub person_id: i64,
    pub role_id: i64,
    pub role_name: String,
    pub person_name: String,
    pub person_name_kana: String,
    pub person_name_en: Option<String>,
    pub born_on: Option<String>,
    pub died_on: Option<String>,
    pub person_description: Option<String>,
    pub copyright_flag: bool,
}

/// A file of a work.
pub struct WorkfileRow {
    pub id: i64,
    pub work_id: i64,
    pub filename: Option<String>,
    pub filesize: Option<i32>,
    pub filetype_name: Option<String>,
    pub filetype_id: i64,
    pub is_html: bool,
    pub compresstype_name: Option<String>,
    pub charset_name: Option<String>,
    pub file_encoding_name: Option<String>,
    pub url: Option<String>,
    pub registered_on: Option<Date>,
    pub last_updated_on: Option<Date>,
}

/// A source book of a work.
pub struct OriginalBookRow {
    pub work_id: i64,
    pub title: String,
    pub publisher: Option<String>,
    pub first_pubdate: Option<String>,
    pub input_edition: Option<String>,
    pub proof_edition: Option<String>,
    pub booktype_name: Option<String>,
    pub booktype_id: Option<i64>,
}

/// A volunteer linked to a work.
pub struct WorkWorkerRow {
    pub work_id: i64,
    pub worker_name: Option<String>,
    pub worker_role_name: Option<String>,
}

/// A classification of a work.
pub struct BibclassRow {
    pub work_id: i64,
    pub name: String,
    pub num: String,
    pub note: Option<String>,
}

/// A web site linked to a work.
pub struct WorkSiteRow {
    pub work_id: i64,
    pub site_name: Option<String>,
    pub site_url: Option<String>,
}

/// Rows that convert to a card record of type `D`.
pub trait ToInfo<D>: GroupKey {
    /// Whether `d` is the record this row converts to.
    spec fn converts_to(&self, d: D) -> bool;

    fn to_info(&self) -> (d: D)
        ensures
            self.converts_to(d),
    ;
}

impl GroupKey for WorkfileRow {
    open spec fn group_key(&self) -> i64 {
        self.work_id
    }

    fn key_of(&self) -> (k: i64) {
        self.work_id
    }
}

impl ToInfo<WorkfileInfo> for WorkfileRow {
    open spec fn converts_to(&self, d: WorkfileInfo) -> bool {
        &&& d.id == self.id
        &&& d.filename == self.filename
        &&& d.filesize == self.filesize
        &&& d.filetype == self.filetype_name
        &&& d.filetype_id == self.filetype_id
        &&& d.is_html == self.is_html
        &&& d.compresstype == self.compresstype_name
        &&& d.charset == self.charset_name
        &&& d.file_encoding == self.file_encoding_name
        &&& d.url == self.url
        &&& opt_view(d.registered_on) == opt_date_text(self.registered_on)
        &&& opt_view(d.last_updated_on) == opt_date_text(self.last_updated_on)
    }

    fn to_info(&self) -> (d: WorkfileInfo) {
        WorkfileInfo {
            id: self.id,
            filename: clone_opt(&self.filename),
            filesize: self.filesize,
            filetype: clone_opt(&self.filetype_name),
            filetype_id: self.filetype_id,
            is_html: self.is_html,
            compresstype: clone_opt(&self.compresstype_name),
            charset: clone_opt(&self.charset_name),
            file_encoding: clone_opt(&self.file_encoding_name),
            url: clone_opt(&self.url),
            registered_on: opt_date_to_text(&self.registered_on),
            last_updated_on: opt_date_to_text(&self.last_updated_on),
        }
    }
}

impl GroupKey for OriginalBookRow {
    open spec fn group_key(&self) -> i64 {
        self.work_id
    }

    fn key_of(&self) -> (k: i64) {
        self.work_id
    }
}

impl ToInfo<OriginalBookInfo> for OriginalBookRow {
    open spec fn converts_to(&self, d: OriginalBookInfo) -> bool {
        d == OriginalBookInfo {
            title: self.title,
            publisher: self.publisher,
            first_pubdate: self.first_pubdate,
            input_edition: self.input_edition,
            proof_edition: self.proof_edition,
            booktype: self.booktype_name,
            booktype_id: self.booktype_id,
        }
    }

    fn to_info(&self) -> (d: OriginalBookInfo) {
        OriginalBookInfo {
            title: self.title.clone(),
            publisher: clone_opt(&self.publisher),
            first_pubdate: clone_opt(&self.first_pubdate),
            input_edition: clone_opt(&self.input_edition),
            proof_edition: clone_opt(&self.proof_edition),
            booktype: clone_opt(&self.booktype_name),
            booktype_id: self.booktype_id,
        }
    }
}

impl GroupKey for WorkWorkerRow {
    open spec fn group_key(&self) -> i64 {
        self.work_id
    }

    fn key_of(&self) -> (k: i64) {
        self.work_id
    }
}

impl ToInfo<WorkWorkerInfo> for WorkWorkerRow {
    open spec fn converts_to(&self, d: WorkWorkerInfo) -> bool {
        d == WorkWorkerInfo { name: self.worker_name, role: self.worker_role_name }
    }

    fn to_info(&self) -> (d: WorkWorkerInfo) {
        WorkWorkerInfo { name: clone_opt(&self.worker_name), role: clone_opt(&self.worker_role_name) }
    }
}

impl GroupKey for BibclassRow {
    open spec fn group_key(&self) -> i64 {
        self.work_id
    }

    fn key_of(&self) -> (k: i64) {
        self.work_id
    }
}

impl ToInfo<BibclassInfo> for BibclassRow {
    open spec fn converts_to(&self, d: BibclassInfo) -> bool {
        d == BibclassInfo { name: self.name, num: self.num, note: self.note }
    }

    fn to_info(&self) -> (d: BibclassInfo) {
        BibclassInfo { name: self.name.clone(), num: self.num.clone(), note: clone_opt(&self.note) }
    }
}

impl GroupKey for WorkSiteRow {
    open spec fn group_key(&self) -> i64 {
        self.work_id
    }

    fn key_of(&self) -> (k: i64) {
        self.work_id
    }
}

impl ToInfo<SiteInfo> for WorkSiteRow {
    open spec fn converts_to(&self, d: SiteInfo) -> bool {
        d == SiteInfo { name: self.site_name, url: self.site_url }
    }

    fn to_info(&self) -> (d: SiteInfo) {
        SiteInfo { name: clone_opt(&self.site_name), url: clone_opt(&self.site_url) }
    }
}

impl GroupKey for WorkPersonRow {
    open spec fn group_key(&self) -> i64 {
        self.work_id
    }

    fn key_of(&self) -> (k: i64) {
        self.work_id
    }
}

impl ToInfo<WorkPersonDetail> for WorkPersonRow {
    open spec fn converts_to(&self, d: WorkPersonDetail) -> bool {
        d == detail_of(*self)
    }

    fn to_info(&self) -> (d: WorkPersonDetail) {
        WorkPersonDetail {
            role_name: self.role_name.clone(),
            person_id: self.person_id,
            name: self.person_name.clone(),
            name_kana: self.person_name_kana.clone(),
            name_en: clone_opt(&self.person_name_en),
            born_on: clone_opt(&self.born_on),
            died_on: clone_opt(&self.died_on),
            description: clone_opt(&self.person_description),
            copyright_flag: self.copyright_flag,
        }
    }
}

/// The full-detail record of a work-person row.
pub open spec fn detail_of(r: WorkPersonRow) -> WorkPersonDetail {
    WorkPersonDetail {
        role_name: r.role_name,
        person_id: r.person_id,
        name: r.person_name,
        name_kana: r.person_name_kana,
        name_en: r.person_name_en,
        born_on: r.born_on,
        died_on: r.died_on,
        description: r.person_description,
        copyright_flag: r.copyright_flag,
    }
}

/// `out` holds the records that `rows` convert to, one for one.
pub open spec fn converted<R: ToInfo<D>, D>(rows: Seq<R>, out: Seq<D>) -> bool {
    &&& out.len() == rows.len()
    &&& forall|i: int| 0 <= i < rows.len() ==> rows[i].converts_to(#[trigger] out[i])
}

/// Converts the rows that `grouped` holds for `work_id` into card records
/// (none when the work has no rows).
pub fn collect_infos<R: ToInfo<D>, D>(grouped: &HashMap<i64, Vec<&R>>, work_id: i64) -> (r: Vec<D>)
    ensures
        converted(group_rows(grouped@, work_id), r@),
{
    let mut out: Vec<D> = Vec::new();
    match grouped.get(&work_id) {
        Some(rows) => {
            let ghost src = derefs(rows@);
            let mut i: usize = 0;
            while i < rows.len()
                invariant
                    i <= rows.len(),
                    src == derefs(rows@),
                    out@.len() == i,
                    forall|j: int| 0 <= j < i ==> src[j].converts_to(#[trigger] out@[j]),
                decreases rows.len() - i,
            {
                let d = rows[i].to_info();
                out.push(d);
                i = i + 1;
            }
            out
        },
        None => out,
    }
}

/// The authors (role 1) among a work's people, in order.
pub open spec fn authors_of(people: Seq<WorkPersonRow>) -> Seq<AuthorInfo>
    decreases people.len(),
{
    if people.len() == 0 {
        Seq::empty()
    } else {
        let prev = authors_of(people.drop_last());
        let wp = people.last();
        if wp.role_id == 1 {
            prev.push(AuthorInfo { id: wp.person_id, name: wp.person_name, name_kana: wp.person_name_kana, copyright_flag: wp.copyright_flag })
        } else {
            prev
        }
    }
}

/// The people of a work in role `role_id`, in order.
pub open spec fn person_refs_of(people: Seq<WorkPersonRow>, role_id: i64) -> Seq<PersonRef>
    decreases people.len(),
{
    if people.len() == 0 {
        Seq::empty()
    } else {
        let prev = person_refs_of(people.drop_last(), role_id);
        let wp = people.last();
        if wp.role_id == role_id {
            prev.push(PersonRef { id: wp.person_id, name: wp.person_name, name_kana: wp.person_name_kana })
        } else {
            prev
        }
    }
}

/// The people a work gets a card for: every person id of the work in order of
/// first appearance, whatever the role, without repeats and without the
/// placeholder id 0.
pub open spec fn card_person_ids(people: Seq<WorkPersonRow>) -> Seq<i64>
    decreases people.len(),
{
    if people.len() == 0 {
        Seq::empty()
    } else {
        let prev = card_person_ids(people.drop_last());
        let p = people.last().person_id;
        if p != 0 && !prev.contains(p) { prev.push(p) } else { prev }
    }
}

/// Order of work people on a card: by role, then by person id.
pub open spec fn role_person_le(a: WorkPersonRow, b: WorkPersonRow) -> bool {
    a.role_id < b.role_id || (a.role_id == b.role_id && a.person_id <= b.person_id)
}

/// `s` with `x` inserted after the last element that is not greater than `x`
/// (the insertion step of a stable sort).
pub open spec fn insert_sorted(s: Seq<WorkPersonRow>, x: WorkPersonRow) -> Seq<WorkPersonRow>
    decreases s.len(),
{
    if s.len() == 0 {
        seq![x]
    } else if role_person_le(s.last(), x) {
        s.push(x)
    } else {
        insert_sorted(s.drop_last(), x).push(s.last())
    }
}

/// `s` stably sorted by (role, person id).
pub open spec fn sort_by_role_person(s: Seq<WorkPersonRow>) -> Seq<WorkPersonRow>
    decreases s.len(),
{
    if s.len() == 0 {
        Seq::empty()
    } else {
        insert_sorted(sort_by_role_person(s.drop_last()), s.last())
    }
}

/// Position at which [`insert_sorted`] places `x`.
pub open spec fn insert_pos(s: Seq<WorkPersonRow>, x: WorkPersonRow) -> nat
    decreases s.len(),
{
    if s.len() == 0 {
        0
    } else if role_person_le(s.last(), x) {
        s.len()
    } else {
        insert_pos(s.drop_last(), x)
    }
}

proof fn lemma_insert_sorted_at(s: Seq<WorkPersonRow>, x: WorkPersonRow)
    ensures
        insert_pos(s, x) <= s.len(),
        insert_sorted(s, x) == s.insert(insert_pos(s, x) as int, x),
    decreases s.len(),
{
    if s.len() > 0 && !role_person_le(s.last(), x) {
        lemma_insert_sorted_at(s.drop_last(), x);
        assert(insert_sorted(s, x) =~= s.insert(insert_pos(s, x) as int, x));
    } else if s.len() > 0 {
        assert(insert_sorted(s, x) =~= s.insert(insert_pos(s, x) as int, x));
    } else {
        assert(insert_sorted(s, x) =~= s.insert(0, x));
    }
}

/// Inserts `x` into `v` as [`insert_sorted`] does.
fn insert_in_order<'a>(v: &mut Vec<&'a WorkPersonRow>, x: &'a WorkPersonRow)
    ensures
        derefs(final(v)@) == insert_sorted(derefs(old(v)@), *x),
{
    let ghost s = derefs(v@);
    let mut j: usize = v.len();
    assert(s.take(j as int) =~= s);
    while j > 0 && !(v[j - 1].role_id < x.role_id || (v[j - 1].role_id == x.role_id && v[j - 1].person_id <= x.person_id))
        invariant
            j <= v.len(),
            s == derefs(v@),
            insert_pos(s, *x) == insert_pos(s.take(j as int), *x),
        decreases j,
    {
        assert(s.take(j as int).drop_last() =~= s.take(j - 1));
        j = j - 1;
    }
    proof {
        if j > 0 {
            assert(s.take(j as int).last() == s[j - 1]);
        }
        assert(insert_pos(s.take(j as int), *x) == j);
        lemma_insert_sorted_at(s, *x);
    }
    v.insert(j, x);
    assert(derefs(v@) =~= s.insert(j as int, *x));
}

/// A work's people stably sorted by (role, person id).
pub fn sort_people<'a>(people: &[&'a WorkPersonRow]) -> (r: Vec<&'a WorkPersonRow>)
    ensures
        derefs(r@) == sort_by_role_person(derefs(people@)),
{
    let ghost s = derefs(people@);
    let mut r: Vec<&'a WorkPersonRow> = Vec::new();
    let mut i: usize = 0;
    while i < people.len()
        invariant
            i <= people.len(),
            s == derefs(people@),
            derefs(r@) == sort_by_role_person(s.take(i as int)),
        decreases people.len() - i,
    {
        insert_in_order(&mut r, people[i]);
        assert(s.take(i + 1).drop_last() =~= s.take(i as int));
        i = i + 1;
    }
    assert(s.take(people.len() as int) =~= s);
    r
}

/// Legacy link-script markup that older notes end with.
pub const LINK_TAG_PATTERN: &'static str = "(<br\\s*/?>)?<div id=?\"?link\"?></div><script[^>]*src=\"[^\"]*link\\.js\"[^>]*></script>";

/// A note with the legacy link-script markup removed.
pub open spec fn note_without_link_tag(note: Seq<char>) -> Seq<char> {
    match regex_replaced_all(LINK_TAG_PATTERN@, note, ""@) {
        Some(t) => t,
        None => note,
    }
}

/// Removes every occurrence of the legacy link-script markup from a note.
pub fn remove_link_tag(note: &str) -> (r: String)
    ensures
        r@ == note_without_link_tag(note@),
{
    match regex_replace_all(LINK_TAG_PATTERN, note, "") {
        Some(t) => t,
        None => String::from_str(note),
    }
}

/// The records shared by every card of one work.
pub struct WorkAssociations {
    pub authors: Vec<AuthorInfo>,
    pub translators: Vec<PersonRef>,
    pub editors: Vec<PersonRef>,
    pub workfiles: Vec<WorkfileInfo>,
    pub original_books: Vec<OriginalBookInfo>,
    pub work_workers: Vec<WorkWorkerInfo>,
    pub bibclasses: Vec<BibclassInfo>,
    pub sites: Vec<SiteInfo>,
    pub work_people_details: Vec<WorkPersonDetail>,
    pub note: Option<String>,
    /// The people that get a card for this work.
    pub person_ids: Vec<i64>,
}

/// `a` holds what a work's cards share, given the work, its people and the
/// rows of its other tables.
pub open spec fn assoc_matches(
    work: WorkRow,
    people: Seq<WorkPersonRow>,
    files: Seq<WorkfileRow>,
    books: Seq<OriginalBookRow>,
    workers: Seq<WorkWorkerRow>,
    bibs: Seq<BibclassRow>,
    sites: Seq<WorkSiteRow>,
    a: WorkAssociations,
) -> bool {
    &&& a.authors@ == authors_of(people)
    &&& a.translators@ == person_refs_of(people, 2)
    &&& a.editors@ == person_refs_of(people, 3)
    &&& converted(files, a.workfiles@)
    &&& converted(books, a.original_books@)
    &&& converted(workers, a.work_workers@)
    &&& converted(bibs, a.bibclasses@)
    &&& converted(sites, a.sites@)
    &&& a.work_people_details@ == sort_by_role_person(people).map_values(|r: WorkPersonRow| detail_of(r))
    &&& opt_view(a.note) == match work.note {
        Some(n) => Some(note_without_link_tag(n@)),
        None => None,
    }
    &&& a.person_ids@ == card_person_ids(people)
}

fn authors(people: &[&WorkPersonRow]) -> (r: Vec<AuthorInfo>)
    ensures
        r@ == authors_of(derefs(people@)),
{
    let ghost s = derefs(people@);
    let mut r: Vec<AuthorInfo> = Vec::new();
    let mut i: usize = 0;
    while i < people.len()
        invariant
            i <= people.len(),
            s == derefs(people@),
            r@ == authors_of(s.take(i as int)),
        decreases people.len() - i,
    {
        let wp = people[i];
        assert(s.take(i + 1).drop_last() =~= s.take(i as int));
        if wp.role_id == 1 {
            r.push(AuthorInfo { id: wp.person_id, name: wp.person_name.clone(), name_kana: wp.person_name_kana.clone(), copyright_flag: wp.copyright_flag });
        }
        i = i + 1;
    }
    assert(s.take(people.len() as int) =~= s);
    r
}

fn person_refs(people: &[&WorkPersonRow], role_id: i64) -> (r: Vec<PersonRef>)
    ensures
        r@ == person_refs_of(derefs(people@), role_id),
{
    let ghost s = derefs(people@);
    let mut r: Vec<PersonRef> = Vec::new();
    let mut i: usize = 0;
    while i < people.len()
        invariant
            i <= people.len(),
            s == derefs(people@),
            r@ == person_refs_of(s.take(i as int), role_id),
        decreases people.len() - i,
    {
        let wp = people[i];
        assert(s.take(i + 1).drop_last() =~= s.take(i as int));
        if wp.role_id == role_id {
            r.push(PersonRef { id: wp.person_id, name: wp.person_name.clone(), name_kana: wp.person_name_kana.clone() });
        }
        i = i + 1;
    }
    assert(s.take(people.len() as int) =~= s);
    r
}

fn person_ids_for_cards(people: &[&WorkPersonRow]) -> (r: Vec<i64>)
    ensures
        r@ == card_person_ids(derefs(people@)),
{
    let ghost s = derefs(people@);
    let mut r: Vec<i64> = Vec::new();
    let mut i: usize = 0;
    while i < people.len()
        invariant
            i <= people.len(),
            s == derefs(people@),
            r@ == card_person_ids(s.take(i as int)),
        decreases people.len() - i,
    {
        let p = people[i].person_id;
        assert(s.take(i + 1).drop_last() =~= s.take(i as int));
        if p != 0 {
            let mut seen = false;
            let mut j: usize = 0;
            while j < r.len()
                invariant
                    j <= r.len(),
                    seen == r@.take(j as int).contains(p),
                decreases r.len() - j,
            {
                assert(r@.take(j + 1) =~= r@.take(j as int).push(r@[j as int]));
                if r[j] == p {
                    seen = true;
                    assert(r@.take(j + 1)[j as int] == p);
                } else {
                    assert(r@.take(j + 1).contains(p) ==> r@.take(j as int).contains(p)) by {
                        if r@.take(j + 1).contains(p) {
                            let k = choose|k: int| 0 <= k < j + 1 && #[trigger] r@.take(j + 1)[k] == p;
                            assert(k < j);
                            assert(r@.take(j as int)[k] == p);
                        }
                    }
                    assert(r@.take(j as int).contains(p) ==> r@.take(j + 1).contains(p)) by {
                        if r@.take(j as int).contains(p) {
                            let k = choose|k: int| 0 <= k < j && #[trigger] r@.take(j as int)[k] == p;
                            assert(r@.take(j + 1)[k] == p);
                        }
                    }
                }
                j = j + 1;
            }
            assert(r@.take(r.len() as int) =~= r@);
            if !seen {
                r.push(p);
            }
        }
        i = i + 1;
    }
    assert(s.take(people.len() as int) =~= s);
    r
}

fn details(sorted: &Vec<&WorkPersonRow>) -> (r: Vec<WorkPersonDetail>)
    ensures
        r@ == derefs(sorted@).map_values(|x: WorkPersonRow| detail_of(x)),
{
    let mut r: Vec<WorkPersonDetail> = Vec::new();
    let mut i: usize = 0;
    while i < sorted.len()
        invariant
            i <= sorted.len(),
            r@ == derefs(sorted@).take(i as int).map_values(|x: WorkPersonRow| detail_of(x)),
        decreases sorted.len() - i,
    {
        r.push(sorted[i].to_info());
        assert(derefs(sorted@).take(i + 1).map_values(|x: WorkPersonRow| detail_of(x))
            =~= derefs(sorted@).take(i as int).map_values(|x: WorkPersonRow| detail_of(x)).push(detail_of(*sorted@[i as int])));
        i = i + 1;
    }
    assert(derefs(sorted@).take(sorted.len() as int) =~= derefs(sorted@));
    r
}

impl WorkAssociations {
    /// Gathers what every card of `work` shares, from the work's people and
    /// the other tables' rows grouped by work.
    pub fn build(
        work: &WorkRow,
        people: &[&WorkPersonRow],
        files_by_work: &HashMap<i64, Vec<&WorkfileRow>>,
        books_by_work: &HashMap<i64, Vec<&OriginalBookRow>>,
        workers_by_work: &HashMap<i64, Vec<&WorkWorkerRow>>,
        bibclasses_by_work: &HashMap<i64, Vec<&BibclassRow>>,
        sites_by_work: &HashMap<i64, Vec<&WorkSiteRow>>,
    ) -> (a: WorkAssociations)
        ensures
            assoc_matches(
                *work,
                derefs(people@),
                group_rows(files_by_work@, work.id),
                group_rows(books_by_work@, work.id),
                group_rows(workers_by_work@, work.id),
                group_rows(bibclasses_by_work@, work.id),
                group_rows(sites_by_work@, work.id),
                a,
            ),
    {
        let sorted = sort_people(people);
        let note = match &work.note {
            Some(n) => Some(remove_link_tag(n.as_str())),
            None => None,
        };
        WorkAssociations {
            authors: authors(people),
            translators: person_refs(people, 2),
            editors: person_refs(people, 3),
            workfiles: collect_infos(files_by_work, work.id),
            original_books: collect_infos(books_by_work, work.id),
            work_workers: collect_infos(workers_by_work, work.id),
            bibclasses: collect_infos(bibclasses_by_work, work.id),
            sites: collect_infos(sites_by_work, work.id),
            work_people_details: details(&sorted),
            note,
            person_ids: person_ids_for_cards(people),
        }
    }
}

/// `card` is the card of `work` for `person_id`, given what the work's cards share.
pub open spec fn card_matches(work: WorkRow, person_id: i64, a: WorkAssociations, card: CardData) -> bool {
    &&& card.work_id == work.id
    &&& card.person_id == person_id
    &&& card.title == work.title
    &&& card.title_kana == work.title_kana
    &&& card.subtitle == work.subtitle
    &&& card.subtitle_kana == work.subtitle_kana
    &&& card.original_title == work.original_title
    &&& card.collection == work.collection
    &&& card.collection_kana == work.collection_kana
    &&& card.kana_type == work.kana_type_name
    &&& opt_view(card.started_on) == opt_date_text(work.started_on)
    &&& card.note == a.note
    &&& card.first_appearance == work.first_appearance
    &&& card.description == work.description
    &&& card.authors@ == a.authors@
    &&& card.translators@ == a.translators@
    &&& card.editors@ == a.editors@
    &&& card.workfiles@ == a.workfiles@
    &&& card.original_books@ == a.original_books@
    &&& card.work_workers@ == a.work_workers@
    &&& card.bibclasses@ == a.bibclasses@
    &&& card.sites@ == a.sites@
    &&& card.work_people_details@ == a.work_people_details@
}

/// The card of `work` for `person_id`.
pub fn build_card(work: &WorkRow, person_id: i64, assoc: &WorkAssociations) -> (card: CardData)
    ensures
        card_matches(*work, person_id, *assoc, card),
{
    CardData {
        work_id: work.id,
        person_id,
        title: work.title.clone(),
        title_kana: clone_opt(&work.title_kana),
        subtitle: clone_opt(&work.subtitle),
        subtitle_kana: clone_opt(&work.subtitle_kana),
        original_title: clone_opt(&work.original_title),
        collection: clone_opt(&work.collection),
        collection_kana: clone_opt(&work.collection_kana),
        kana_type: clone_opt(&work.kana_type_name),
        started_on: opt_date_to_text(&work.started_on),
        note: clone_opt(&assoc.note),
        first_appearance: clone_opt(&work.first_appearance),
        description: clone_opt(&work.description),
        authors: dup_vec(&assoc.authors),
        translators: dup_vec(&assoc.translators),
        editors: dup_vec(&assoc.editors),
        workfiles: dup_vec(&assoc.workfiles),
        original_books: dup_vec(&assoc.original_books),
        work_workers: dup_vec(&assoc.work_workers),
        bibclasses: dup_vec(&assoc.bibclasses),
        sites: dup_vec(&assoc.sites),
        work_people_details: dup_vec(&assoc.work_people_details),
    }
}

/// `card` is the card of `work` for `person_id`, given the work's own rows in
/// each table.
pub open spec fn card_fits(
    work: WorkRow,
    person_id: i64,
    people: Seq<WorkPersonRow>,
    files: Seq<WorkfileRow>,
    books: Seq<OriginalBookRow>,
    workers: Seq<WorkWorkerRow>,
    bibs: Seq<BibclassRow>,
    sites: Seq<WorkSiteRow>,
    card: CardData,
) -> bool {
    &&& card.work_id == work.id
    &&& card.person_id == person_id
    &&& card.title == work.title
    &&& card.title_kana == work.title_kana
    &&& card.subtitle == work.subtitle
    &&& card.subtitle_kana == work.subtitle_kana
    &&& card.original_title == work.original_title
    &&& card.collection == work.collection
    &&& card.collection_kana == work.collection_kana
    &&& card.kana_type == work.kana_type_name
    &&& opt_view(card.started_on) == opt_date_text(work.started_on)
    &&& opt_view(card.note) == match work.note {
        Some(n) => Some(note_without_link_tag(n@)),
        None => None,
    }
    &&& card.first_appearance == work.first_appearance
    &&& card.description == work.description
    &&& card.authors@ == authors_of(people)
    &&& card.translators@ == person_refs_of(people, 2)
    &&& card.editors@ == person_refs_of(people, 3)
    &&& converted(files, card.workfiles@)
    &&& converted(books, card.original_books@)
    &&& converted(workers, card.work_workers@)
    &&& converted(bibs, card.bibclasses@)
    &&& converted(sites, card.sites@)
    &&& card.work_people_details@ == sort_by_role_person(people).map_values(|r: WorkPersonRow| detail_of(r))
}

/// Which card comes where: for each work in order, one slot (work index,
/// person id) per person of [`card_person_ids`] of that work's people.
pub open spec fn card_slots(works: Seq<WorkRow>, people: Seq<WorkPersonRow>) -> Seq<(int, i64)>
    decreases works.len(),
{
    if works.len() == 0 {
        Seq::empty()
    } else {
        let w = works.len() - 1;
        let ids = card_person_ids(rows_with_key::<WorkPersonRow>(people, works.last().id));
        card_slots(works.drop_last(), people) + ids.map_values(|p: i64| (w, p))
    }
}

/// `card` is the card for `slot` (work index, person id) among `works`, given
/// every table's rows.
pub open spec fn card_at(
    works: Seq<WorkRow>,
    people: Seq<WorkPersonRow>,
    files: Seq<WorkfileRow>,
    books: Seq<OriginalBookRow>,
    workers: Seq<WorkWorkerRow>,
    bibs: Seq<BibclassRow>,
    sites: Seq<WorkSiteRow>,
    slot: (int, i64),
    card: CardData,
) -> bool {
    let work = works[slot.0];
    &&& 0 <= slot.0 < works.len()
    &&& card_fits(
        work,
        slot.1,
        rows_with_key::<WorkPersonRow>(people, work.id),
        rows_with_key::<WorkfileRow>(files, work.id),
        rows_with_key::<OriginalBookRow>(books, work.id),
        rows_with_key::<WorkWorkerRow>(workers, work.id),
        rows_with_key::<BibclassRow>(bibs, work.id),
        rows_with_key::<WorkSiteRow>(sites, work.id),
        card,
    )
}

/// All book cards of the given published works and their related rows: for
/// each work in order, one card per related person (any role, first
/// appearance order, no repeats, person 0 skipped); a work without related
/// people gets no card.
pub fn assemble_cards(
    works: &Vec<WorkRow>,
    work_people: &Vec<WorkPersonRow>,
    workfiles: &Vec<WorkfileRow>,
    original_books: &Vec<OriginalBookRow>,
    work_workers: &Vec<WorkWorkerRow>,
    bibclasses: &Vec<BibclassRow>,
    work_sites: &Vec<WorkSiteRow>,
) -> (cards: Vec<CardData>)
    ensures
        cards@.len() == card_slots(works@, work_people@).len(),
        forall|i: int|
            0 <= i < cards@.len() ==> card_at(
                works@,
                work_people@,
                workfiles@,
                original_books@,
                work_workers@,
                bibclasses@,
                work_sites@,
                card_slots(works@, work_people@)[i],
                #[trigger] cards@[i],
            ),
{
    let people_by_work = group_by_key::<WorkPersonRow>(work_people.as_slice());
    let files_by_work = group_by_key::<WorkfileRow>(workfiles.as_slice());
    let books_by_work = group_by_key::<OriginalBookRow>(original_books.as_slice());
    let workers_by_work = group_by_key::<WorkWorkerRow>(work_workers.as_slice());
    let bibclasses_by_work = group_by_key::<BibclassRow>(bibclasses.as_slice());
    let sites_by_work = group_by_key::<WorkSiteRow>(work_sites.as_slice());
    let empty_people: Vec<&WorkPersonRow> = Vec::new();
    let mut cards: Vec<CardData> = Vec::new();
    let mut w: usize = 0;
    while w < works.len()
        invariant
            w <= works.len(),
            forall|k: i64| #[trigger] group_rows(people_by_work@, k) == rows_with_key::<WorkPersonRow>(work_people@, k),
            forall|k: i64| #[trigger] group_rows(files_by_work@, k) == rows_with_key::<WorkfileRow>(workfiles@, k),
            forall|k: i64| #[trigger] group_rows(books_by_work@, k) == rows_with_key::<OriginalBookRow>(original_books@, k),
            forall|k: i64| #[trigger] group_rows(workers_by_work@, k) == rows_with_key::<WorkWorkerRow>(work_workers@, k),
            forall|k: i64| #[trigger] group_rows(bibclasses_by_work@, k) == rows_with_key::<BibclassRow>(bibclasses@, k),
            forall|k: i64| #[trigger] group_rows(sites_by_work@, k) == rows_with_key::<WorkSiteRow>(work_sites@, k),
            empty_people@.len() == 0,
            cards@.len() == card_slots(works@.take(w as int), work_people@).len(),
            forall|i: int|
                0 <= i < cards@.len() ==> card_at(
                    works@,
                    work_people@,
                    workfiles@,
                    original_books@,
                    work_workers@,
                    bibclasses@,
                    work_sites@,
                    card_slots(works@.take(w as int), work_people@)[i],
                    #[trigger] cards@[i],
                ),
        decreases works.len() - w,
    {
        let work = &works[w];
        let people: &[&WorkPersonRow] = match people_by_work.get(&work.id) {
            Some(v) => v.as_slice(),
            None => empty_people.as_slice(),
        };
        assert(derefs(people@) =~= rows_with_key::<WorkPersonRow>(work_people@, work.id)) by {
            assert(group_rows(people_by_work@, work.id) == rows_with_key::<WorkPersonRow>(work_people@, work.id));
        }
        let assoc = WorkAssociations::build(
            work,
            people,
            &files_by_work,
            &books_by_work,
            &workers_by_work,
            &bibclasses_by_work,
            &sites_by_work,
        );
        proof {
            assert(group_rows(files_by_work@, work.id) == rows_with_key::<WorkfileRow>(workfiles@, work.id));
            assert(group_rows(books_by_work@, work.id) == rows_with_key::<OriginalBookRow>(original_books@, work.id));
            assert(group_rows(workers_by_work@, work.id) == rows_with_key::<WorkWorkerRow>(work_workers@, work.id));
            assert(group_rows(bibclasses_by_work@, work.id) == rows_with_key::<BibclassRow>(bibclasses@, work.id));
            assert(group_rows(sites_by_work@, work.id) == rows_with_key::<WorkSiteRow>(work_sites@, work.id));
        }
        let ghost base = cards@.len();
        let ghost prev_slots = card_slots(works@.take(w as int), work_people@);
        let ghost next_slots = card_slots(works@.take(w + 1), work_people@);
        let ghost ids = assoc.person_ids@;
        proof {
            assert(works@.take(w + 1).drop_last() =~= works@.take(w as int));
            assert(next_slots =~= prev_slots + ids.map_values(|p: i64| (w as int, p)));
            assert forall|i: int| 0 <= i < base implies next_slots[i] == prev_slots[i] by {}
        }
        let mut j: usize = 0;
        while j < assoc.person_ids.len()
            invariant
                j <= assoc.person_ids.len(),
                ids == assoc.person_ids@,
                w < works.len(),
                *work == works@[w as int],
                base == prev_slots.len(),
                next_slots == prev_slots + ids.map_values(|p: i64| (w as int, p)),
                cards@.len() == base + j,
                assoc_matches(
                    *work,
                    rows_with_key::<WorkPersonRow>(work_people@, work.id),
                    rows_with_key::<WorkfileRow>(workfiles@, work.id),
                    rows_with_key::<OriginalBookRow>(original_books@, work.id),
                    rows_with_key::<WorkWorkerRow>(work_workers@, work.id),
                    rows_with_key::<BibclassRow>(bibclasses@, work.id),
                    rows_with_key::<WorkSiteRow>(work_sites@, work.id),
                    assoc,
                ),
                forall|i: int|
                    0 <= i < cards@.len() ==> card_at(
                        works@,
                        work_people@,
                        workfiles@,
                        original_books@,
                        work_workers@,
                        bibclasses@,
                        work_sites@,
                        next_slots[i],
                        #[trigger] cards@[i],
                    ),
            decreases assoc.person_ids.len() - j,
        {
            let card = build_card(work, assoc.person_ids[j], &assoc);
            let ghost before = cards@;
            cards.push(card);
            proof {
                assert(next_slots[base + j] == (w as int, ids[j as int]));
                assert forall|i: int| 0 <= i < cards@.len() implies card_at(
                    works@,
                    work_people@,
                    workfiles@,
                    original_books@,
                    work_workers@,
                    bibclasses@,
                    work_sites@,
                    next_slots[i],
                    #[trigger] cards@[i],
                ) by {
                    if i < base + j {
                        assert(cards@[i] == before[i]);
                    }
                }
            }
            j = j + 1;
        }
        w = w + 1;
    }
    assert(works@.take(works.len() as int) =~= works@);
    cards
}

/// A work's card people are its people without repeats and without the
/// placeholder 0: every id listed belongs to a person of the work, none twice,
/// none 0, and every person of the work other than 0 is listed.
pub proof fn lemma_card_person_ids(people: Seq<WorkPersonRow>)
    ensures
        card_person_ids(people).no_duplicates(),
        forall|i: int| 0 <= i < card_person_ids(people).len() ==> #[trigger] card_person_ids(people)[i] != 0,
        forall|i: int|
            0 <= i < card_person_ids(people).len() ==> exists|j: int|
                0 <= j < people.len() && #[trigger] people[j].person_id == #[trigger] card_person_ids(people)[i],
        forall|j: int|
            0 <= j < people.len() && (#[trigger] people[j]).person_id != 0 ==> card_person_ids(people).contains(
                people[j].person_id,
            ),
    decreases people.len(),
{
    if people.len() > 0 {
        let prev = people.drop_last();
        lemma_card_person_ids(prev);
        let ids = card_person_ids(people);
        let pids = card_person_ids(prev);
        let p = people.last().person_id;
        assert forall|i: int| 0 <= i < ids.len() implies exists|j: int|
            0 <= j < people.len() && #[trigger] people[j].person_id == #[trigger] ids[i] by {
            if i < pids.len() {
                let j = choose|j: int| 0 <= j < prev.len() && #[trigger] prev[j].person_id == pids[i];
                assert(people[j] == prev[j]);
            } else {
                assert(people[people.len() - 1].person_id == ids[i]);
            }
        }
        assert forall|j: int| 0 <= j < people.len() && (#[trigger] people[j]).person_id != 0 implies ids.contains(
            people[j].person_id,
        ) by {
            if j < prev.len() {
                assert(prev[j] == people[j]);
                assert(pids.contains(people[j].person_id));
                let k = choose|k: int| 0 <= k < pids.len() && pids[k] == people[j].person_id;
                assert(ids[k] == pids[k]);
            } else {
                if pids.contains(p) {
                } else {
                    assert(ids[ids.len() - 1] == p);
                }
            }
        }
    }
}

/// How often `x` occurs in `s`.
pub open spec fn occurrences(s: Seq<WorkPersonRow>, x: WorkPersonRow) -> nat
    decreases s.len(),
{
    if s.len() == 0 {
        0
    } else {
        occurrences(s.drop_last(), x) + if s.last() == x { 1nat } else { 0nat }
    }
}

proof fn lemma_occurrences_insert(s: Seq<WorkPersonRow>, i: int, y: WorkPersonRow, x: WorkPersonRow)
    requires
        0 <= i <= s.len(),
    ensures
        occurrences(s.insert(i, y), x) == occurrences(s, x) + if y == x { 1nat } else { 0nat },
    decreases s.len(),
{
    if i == s.len() {
        assert(s.insert(i, y).drop_last() =~= s);
    } else {
        lemma_occurrences_insert(s.drop_last(), i, y, x);
        assert(s.insert(i, y).drop_last() =~= s.drop_last().insert(i, y));
        assert(s.insert(i, y).last() == s.last());
    }
}

/// Whether `s` is ordered by role, then person id.
pub open spec fn role_person_sorted(s: Seq<WorkPersonRow>) -> bool {
    forall|i: int, j: int| 0 <= i < j < s.len() ==> role_person_le(#[trigger] s[i], #[trigger] s[j])
}

proof fn lemma_insert_sorted_keeps_order(s: Seq<WorkPersonRow>, x: WorkPersonRow)
    requires
        role_person_sorted(s),
    ensures
        role_person_sorted(insert_sorted(s, x)),
    decreases s.len(),
{
    if s.len() > 0 && !role_person_le(s.last(), x) {
        let t = insert_sorted(s.drop_last(), x);
        assert(role_person_sorted(s.drop_last())) by {
            assert forall|i: int, j: int| 0 <= i < j < s.drop_last().len() implies role_person_le(
                #[trigger] s.drop_last()[i],
                #[trigger] s.drop_last()[j],
            ) by {
                assert(s.drop_last()[i] == s[i] && s.drop_last()[j] == s[j]);
            }
        }
        lemma_insert_sorted_keeps_order(s.drop_last(), x);
        lemma_insert_sorted_at(s.drop_last(), x);
        let k = insert_pos(s.drop_last(), x) as int;
        let r = insert_sorted(s, x);
        assert(r == t.push(s.last()));
        assert forall|i: int, j: int| 0 <= i < j < r.len() implies role_person_le(#[trigger] r[i], #[trigger] r[j]) by {
            if j == r.len() - 1 {
                assert(r[j] == s.last());
                if i == k {
                    assert(t[i] == x);
                } else if i < k {
                    assert(t[i] == s.drop_last()[i]);
                    assert(s[i] == s.drop_last()[i]);
                } else {
                    assert(t[i] == s.drop_last()[i - 1]);
                    assert(s[i - 1] == s.drop_last()[i - 1]);
                }
            } else {
                assert(r[i] == t[i] && r[j] == t[j]);
            }
        }
    } else if s.len() > 0 {
        let r = insert_sorted(s, x);
        assert(r == s.push(x));
        assert forall|i: int, j: int| 0 <= i < j < r.len() implies role_person_le(#[trigger] r[i], #[trigger] r[j]) by {
            if j == r.len() - 1 {
                assert(r[j] == x);
                assert(r[i] == s[i]);
                if i < s.len() - 1 {
                    assert(role_person_le(s[i], s[s.len() - 1]));
                }
            } else {
                assert(r[i] == s[i] && r[j] == s[j]);
            }
        }
    }
}

/// The people on a card are ordered by role, then person id, and are the
/// work's people, each as often as in the input.
pub proof fn lemma_sort_by_role_person(s: Seq<WorkPersonRow>)
    ensures
        role_person_sorted(sort_by_role_person(s)),
        sort_by_role_person(s).len() == s.len(),
        forall|x: WorkPersonRow| #[trigger] occurrences(sort_by_role_person(s), x) == occurrences(s, x),
    decreases s.len(),
{
    if s.len() > 0 {
        let prev = sort_by_role_person(s.drop_last());
        lemma_sort_by_role_person(s.drop_last());
        lemma_insert_sorted_keeps_order(prev, s.last());
        lemma_insert_sorted_at(prev, s.last());
        assert forall|x: WorkPersonRow| #[trigger] occurrences(sort_by_role_person(s), x) == occurrences(s, x) by {
            lemma_occurrences_insert(prev, insert_pos(prev, s.last()) as int, s.last(), x);
        }
    }
}

/// Every file record on a card is the file row of its work at the same
/// position, column for column: the id, the file name and size, the file
/// type (name and id), whether it is HTML, the compression, the character
/// set, the file encoding and the address.
pub proof fn lemma_card_workfiles(
    works: Seq<WorkRow>,
    people: Seq<WorkPersonRow>,
    files: Seq<WorkfileRow>,
    books: Seq<OriginalBookRow>,
    workers: Seq<WorkWorkerRow>,
    bibs: Seq<BibclassRow>,
    sites: Seq<WorkSiteRow>,
    slot: (int, i64),
    card: CardData,
)
    requires
        card_at(works, people, files, books, workers, bibs, sites, slot, card),
    ensures
        card.workfiles@.len() == rows_with_key::<WorkfileRow>(files, works[slot.0].id).len(),
        forall|j: int|
            0 <= j < card.workfiles@.len() ==> {
                let r = rows_with_key::<WorkfileRow>(files, works[slot.0].id)[j];
                let d = #[trigger] card.workfiles@[j];
                &&& d.id == r.id
                &&& d.filename == r.filename
                &&& d.filesize == r.filesize
                &&& d.filetype == r.filetype_name
                &&& d.filetype_id == r.filetype_id
                &&& d.is_html == r.is_html
                &&& d.compresstype == r.compresstype_name
                &&& d.charset == r.charset_name
                &&& d.file_encoding == r.file_encoding_name
                &&& d.url == r.url
            },
{
    let rows = rows_with_key::<WorkfileRow>(files, works[slot.0].id);
    assert forall|j: int| 0 <= j < card.workfiles@.len() implies {
        let r = rows[j];
        let d = #[trigger] card.workfiles@[j];
        &&& d.id == r.id
        &&& d.filename == r.filename
        &&& d.filesize == r.filesize
        &&& d.filetype == r.filetype_name
        &&& d.filetype_id == r.filetype_id
        &&& d.is_html == r.is_html
        &&& d.compresstype == r.compresstype_name
        &&& d.charset == r.charset_name
        &&& d.file_encoding == r.file_encoding_name
        &&& d.url == r.url
    } by {
        assert(rows[j].converts_to(card.workfiles@[j]));
    }
}

/// The books, volunteers, classifications and sites on a card are the rows
/// of its work at the same positions: each book's title, publisher, first
/// publication date, input and proof editions and type; each volunteer's
/// name and role; each classification's name, number and note; each site's
/// name and address.
pub proof fn lemma_card_book_worker_site_rows(
    works: Seq<WorkRow>,
    people: Seq<WorkPersonRow>,
    files: Seq<WorkfileRow>,
    books: Seq<OriginalBookRow>,
    workers: Seq<WorkWorkerRow>,
    bibs: Seq<BibclassRow>,
    sites: Seq<WorkSiteRow>,
    slot: (int, i64),
    card: CardData,
)
    requires
        card_at(works, people, files, books, workers, bibs, sites, slot, card),
    ensures
        ({
            let id = works[slot.0].id;
            let bk = rows_with_key::<OriginalBookRow>(books, id);
            let wk = rows_with_key::<WorkWorkerRow>(workers, id);
            let bc = rows_with_key::<BibclassRow>(bibs, id);
            let st = rows_with_key::<WorkSiteRow>(sites, id);
            &&& card.original_books@.len() == bk.len()
            &&& (forall|j: int|
                0 <= j < bk.len() ==> {
                    let d = #[trigger] card.original_books@[j];
                    &&& d.title == bk[j].title
                    &&& d.publisher == bk[j].publisher
                    &&& d.first_pubdate == bk[j].first_pubdate
                    &&& d.input_edition == bk[j].input_edition
                    &&& d.proof_edition == bk[j].proof_edition
                    &&& d.booktype == bk[j].booktype_name
                    &&& d.booktype_id == bk[j].booktype_id
                })
            &&& card.work_workers@.len() == wk.len()
            &&& (forall|j: int|
                0 <= j < wk.len() ==> (#[trigger] card.work_workers@[j]).name == wk[j].worker_name
                    && card.work_workers@[j].role == wk[j].worker_role_name)
            &&& card.bibclasses@.len() == bc.len()
            &&& (forall|j: int|
                0 <= j < bc.len() ==> (#[trigger] card.bibclasses@[j]).name == bc[j].name && card.bibclasses@[j].num
                    == bc[j].num && card.bibclasses@[j].note == bc[j].note)
            &&& card.sites@.len() == st.len()
            &&& (forall|j: int|
                0 <= j < st.len() ==> (#[trigger] card.sites@[j]).name == st[j].site_name && card.sites@[j].url
                    == st[j].site_url)
        }),
{
    let id = works[slot.0].id;
    let bk = rows_with_key::<OriginalBookRow>(books, id);
    let wk = rows_with_key::<WorkWorkerRow>(workers, id);
    let bc = rows_with_key::<BibclassRow>(bibs, id);
    let st = rows_with_key::<WorkSiteRow>(sites, id);
    assert forall|j: int| 0 <= j < bk.len() implies bk[j].converts_to(#[trigger] card.original_books@[j]) by {}
    assert forall|j: int| 0 <= j < wk.len() implies wk[j].converts_to(#[trigger] card.work_workers@[j]) by {}
    assert forall|j: int| 0 <= j < bc.len() implies bc[j].converts_to(#[trigger] card.bibclasses@[j]) by {}
    assert forall|j: int| 0 <= j < st.len() implies st[j].converts_to(#[trigger] card.sites@[j]) by {}
}

} // verus!
