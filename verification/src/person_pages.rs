//! Person pages: each person with their published and unpublished works
//! (and the other people of each work), their web sites and the people they
//! are based on.
use vstd::prelude::*;
use crate::db_helpers::{GroupKey, derefs, group_by_key, group_rows, rows_with_key};
use crate::models::SiteInfo;
use crate::text::clone_opt;

verus! {

broadcast use vstd::std_specs::hash::group_hash_axioms;

/// A person as the database holds them.
pub struct PersonRow {
    pub id: i64,
    pub last_name: String,
    pub first_name: Option<String>,
    pub last_name_kana: String,
    pub first_name_kana: Option<String>,
    pub name_en: Option<String>,
    pub born_on: Option<String>,
    pub died_on: Option<String>,
    pub copyright_flag: bool,
    pub description: Option<String>,
    pub sortkey: Option<String>,
}

/// A work of a person, in the person's work order.
pub struct PersonWorkRow {
    pub person_id: i64,
    pub work_id: i64,
    pub title: String,
    pub title_kana: Option<String>,
    pub subtitle: Option<String>,
    pub sortkey: Option<String>,
    pub subtitle_kana: Option<String>,
    pub role_name: Option<String>,
    pub role_id: i64,
    pub kana_type_name: Option<String>,
    /// The first author of the work, as six digits.
    pub card_person_id: Option<String>,
}

/// A person of a work.
pub struct WorkPersonRow {
    pub work_id: i64,
    pub person_id: i64,
    pub name: String,
    pub role_name: Option<String>,
    pub role_id: i64,
}

/// A web site about a person.
pub struct PersonSiteRow {
    pub person_id: i64,
    pub site_name: Option<String>,
    pub site_url: Option<String>,
}

/// A person that a person is based on.
pub struct OtherBasePersonRow {
    pub person_id: i64,
    pub original_person_id: i64,
    pub name: String,
}

/// The person shown on their page.
pub struct Person {
    pub id: i64,
    pub last_name: String,
    pub first_name: Option<String>,
    pub last_name_kana: String,
    pub first_name_kana: Option<String>,
    pub name_en: Option<String>,
    pub born_on: Option<String>,
    pub died_on: Option<String>,
    pub copyright_flag: bool,
    pub description: Option<String>,
    pub sortkey: Option<String>,
}

/// Another person of a work.
pub struct WorkPersonRef {
    pub person_id: i64,
    pub name: String,
    pub role_name: Option<String>,
}

/// A work on a person page.
pub struct PersonWorkInfo {
    pub id: i64,
    pub title: String,
    pub title_kana: Option<String>,
    pub subtitle: Option<String>,
    pub sortkey: Option<String>,
    pub subtitle_kana: Option<String>,
    pub role: Option<String>,
    pub role_id: i64,
    pub kana_type: Option<String>,
    pub card_person_id: Option<String>,
    pub work_people: Vec<WorkPersonRef>,
}

/// A person that the page's person is based on.
pub struct OtherBasePerson {
    pub id: i64,
    pub name: String,
}

/// One person page.
pub struct PersonPageData {
    pub person: Person,
    pub works: Vec<PersonWorkInfo>,
    pub unpublished_works: Vec<PersonWorkInfo>,
    pub sites: Vec<SiteInfo>,
    pub other_base_people: Vec<OtherBasePerson>,
}

impl GroupKey for PersonWorkRow {
    open spec fn group_key(&self) -> i64 {
        self.person_id
    }

    fn key_of(&self) -> (k: i64) {
        self.person_id
    }
}

impl GroupKey for WorkPersonRow {
    open spec fn group_key(&self) -> i64 {
        self.work_id
    }

    fn key_of(&self) -> (k: i64) {
        self.work_id
    }
}

impl GroupKey for PersonSiteRow {
    open spec fn group_key(&self) -> i64 {
        self.person_id
    }

    fn key_of(&self) -> (k: i64) {
        self.person_id
    }
}

impl GroupKey for OtherBasePersonRow {
    open spec fn group_key(&self) -> i64 {
        self.person_id
    }

    fn key_of(&self) -> (k: i64) {
        self.person_id
    }
}

/// The people of a work other than `person_id`, in order.
pub open spec fn others(rows: Seq<WorkPersonRow>, person_id: i64) -> Seq<WorkPersonRow>
    decreases rows.len(),
{
    if rows.len() == 0 {
        Seq::empty()
    } else {
        let prev = others(rows.drop_last(), person_id);
        if rows.last().person_id != person_id { prev.push(rows.last()) } else { prev }
    }
}

/// `r` names person row `p`.
pub open spec fn ref_fits(p: WorkPersonRow, r: WorkPersonRef) -> bool {
    r.person_id == p.person_id && r.name == p.name && r.role_name == p.role_name
}

/// `info` shows work row `wr` with `people` as its other people.
pub open spec fn work_info_fits(wr: PersonWorkRow, people: Seq<WorkPersonRow>, info: PersonWorkInfo) -> bool {
    &&& info.id == wr.work_id
    &&& info.title == wr.title
    &&& info.title_kana == wr.title_kana
    &&& info.subtitle == wr.subtitle
    &&& info.sortkey == wr.sortkey
    &&& info.subtitle_kana == wr.subtitle_kana
    &&& info.role == wr.role_name
    &&& info.role_id == wr.role_id
    &&& info.kana_type == wr.kana_type_name
    &&& info.card_person_id == wr.card_person_id
    &&& info.work_people@.len() == people.len()
    &&& forall|k: int| 0 <= k < people.len() ==> ref_fits(people[k], #[trigger] info.work_people@[k])
}

/// `infos` show the work rows of person `person_id`, each with the other
/// people of its work among `work_people`.
pub open spec fn works_fit(
    rows: Seq<PersonWorkRow>,
    work_people: Seq<WorkPersonRow>,
    person_id: i64,
    infos: Seq<PersonWorkInfo>,
) -> bool {
    &&& infos.len() == rows.len()
    &&& forall|i: int|
        0 <= i < rows.len() ==> work_info_fits(
            rows[i],
            others(rows_with_key(work_people, rows[i].work_id), person_id),
            #[trigger] infos[i],
        )
}

/// `d` shows person row `p` as it is.
pub open spec fn person_fits(p: PersonRow, d: Person) -> bool {
    &&& d.id == p.id
    &&& d.last_name == p.last_name
    &&& d.first_name == p.first_name
    &&& d.last_name_kana == p.last_name_kana
    &&& d.first_name_kana == p.first_name_kana
    &&& d.name_en == p.name_en
    &&& d.born_on == p.born_on
    &&& d.died_on == p.died_on
    &&& d.copyright_flag == p.copyright_flag
    &&& d.description == p.description
    &&& d.sortkey == p.sortkey
}

/// The page of person `p`, given every row that the export read.
pub open spec fn page_fits(
    p: PersonRow,
    works: Seq<PersonWorkRow>,
    unpublished: Seq<PersonWorkRow>,
    work_people: Seq<WorkPersonRow>,
    sites: Seq<PersonSiteRow>,
    bases: Seq<OtherBasePersonRow>,
    d: PersonPageData,
) -> bool {
    let my_sites = rows_with_key(sites, p.id);
    let my_bases = rows_with_key(bases, p.id);
    &&& person_fits(p, d.person)
    &&& works_fit(rows_with_key(works, p.id), work_people, p.id, d.works@)
    &&& works_fit(rows_with_key(unpublished, p.id), work_people, p.id, d.unpublished_works@)
    &&& d.sites@.len() == my_sites.len()
    &&& forall|k: int|
        0 <= k < my_sites.len() ==> (#[trigger] d.sites@[k]).name == my_sites[k].site_name && d.sites@[k].url
            == my_sites[k].site_url
    &&& d.other_base_people@.len() == my_bases.len()
    &&& forall|k: int|
        0 <= k < my_bases.len() ==> (#[trigger] d.other_base_people@[k]).id == my_bases[k].original_person_id
            && d.other_base_people@[k].name == my_bases[k].name
}

/// The other people of a work, as references.
fn other_refs(people: &[&WorkPersonRow], person_id: i64) -> (r: Vec<WorkPersonRef>)
    ensures
        r@.len() == others(derefs(people@), person_id).len(),
        forall|k: int|
            0 <= k < r@.len() ==> ref_fits(others(derefs(people@), person_id)[k], #[trigger] r@[k]),
{
    let ghost s = derefs(people@);
    let mut r: Vec<WorkPersonRef> = Vec::new();
    let mut i: usize = 0;
    while i < people.len()
        invariant
            i <= people.len(),
            s == derefs(people@),
            r@.len() == others(s.take(i as int), person_id).len(),
            forall|k: int| 0 <= k < r@.len() ==> ref_fits(others(s.take(i as int), person_id)[k], #[trigger] r@[k]),
        decreases people.len() - i,
    {
        assert(s.take(i + 1).drop_last() =~= s.take(i as int));
        let wp = people[i];
        if wp.person_id != person_id {
            r.push(WorkPersonRef { person_id: wp.person_id, name: wp.name.clone(), role_name: clone_opt(&wp.role_name) });
        }
        i = i + 1;
    }
    assert(s.take(people.len() as int) =~= s);
    r
}

/// The works of a person, each with the other people of its work.
fn build_works(
    rows: &[&PersonWorkRow],
    by_work: &std::collections::HashMap<i64, Vec<&WorkPersonRow>>,
    all_people: Ghost<Seq<WorkPersonRow>>,
    person_id: i64,
) -> (r: Vec<PersonWorkInfo>)
    requires
        forall|k: i64| #[trigger] group_rows(by_work@, k) == rows_with_key(all_people@, k),
    ensures
        works_fit(derefs(rows@), all_people@, person_id, r@),
{
    let ghost s = derefs(rows@);
    let empty: Vec<&WorkPersonRow> = Vec::new();
    let mut r: Vec<PersonWorkInfo> = Vec::new();
    let mut i: usize = 0;
    while i < rows.len()
        invariant
            i <= rows.len(),
            s == derefs(rows@),
            empty@.len() == 0,
            forall|k: i64| #[trigger] group_rows(by_work@, k) == rows_with_key(all_people@, k),
            r@.len() == i,
            forall|j: int|
                0 <= j < i ==> work_info_fits(
                    s[j],
                    others(rows_with_key(all_people@, s[j].work_id), person_id),
                    #[trigger] r@[j],
                ),
        decreases rows.len() - i,
    {
        let wr = rows[i];
        let people: &[&WorkPersonRow] = match by_work.get(&wr.work_id) {
            Some(v) => v.as_slice(),
            None => empty.as_slice(),
        };
        assert(derefs(people@) =~= rows_with_key(all_people@, wr.work_id)) by {
            assert(group_rows(by_work@, wr.work_id) == rows_with_key(all_people@, wr.work_id));
        }
        let work_people = other_refs(people, person_id);
        r.push(PersonWorkInfo {
            id: wr.work_id,
            title: wr.title.clone(),
            title_kana: clone_opt(&wr.title_kana),
            subtitle: clone_opt(&wr.subtitle),
            sortkey: clone_opt(&wr.sortkey),
            subtitle_kana: clone_opt(&wr.subtitle_kana),
            role: clone_opt(&wr.role_name),
            role_id: wr.role_id,
            kana_type: clone_opt(&wr.kana_type_name),
            card_person_id: clone_opt(&wr.card_person_id),
            work_people,
        });
        i = i + 1;
    }
    r
}

/// The person part of a page.
fn person_of(p: &PersonRow) -> (d: Person)
    ensures
        person_fits(*p, d),
{
    Person {
        id: p.id,
        last_name: p.last_name.clone(),
        first_name: clone_opt(&p.first_name),
        last_name_kana: p.last_name_kana.clone(),
        first_name_kana: clone_opt(&p.first_name_kana),
        name_en: clone_opt(&p.name_en),
        born_on: clone_opt(&p.born_on),
        died_on: clone_opt(&p.died_on),
        copyright_flag: p.copyright_flag,
        description: clone_opt(&p.description),
        sortkey: clone_opt(&p.sortkey),
    }
}

/// One page per person, in the order of `people`, from the rows that the
/// export read: published and unpublished works by person (in each
/// person's work order), the people of those works, sites and base people.
pub fn person_pages(
    people: &Vec<PersonRow>,
    works: &Vec<PersonWorkRow>,
    unpublished: &Vec<PersonWorkRow>,
    work_people: &Vec<WorkPersonRow>,
    sites: &Vec<PersonSiteRow>,
    bases: &Vec<OtherBasePersonRow>,
) -> (r: Vec<PersonPageData>)
    ensures
        r@.len() == people@.len(),
        forall|i: int|
            0 <= i < people@.len() ==> page_fits(
                people@[i],
                works@,
                unpublished@,
                work_people@,
                sites@,
                bases@,
                #[trigger] r@[i],
            ),
{
    let works_by_person = group_by_key(works.as_slice());
    let unpub_by_person = group_by_key(unpublished.as_slice());
    let people_by_work = group_by_key(work_people.as_slice());
    let sites_by_person = group_by_key(sites.as_slice());
    let bases_by_person = group_by_key(bases.as_slice());
    let no_works: Vec<&PersonWorkRow> = Vec::new();
    let no_sites: Vec<&PersonSiteRow> = Vec::new();
    let no_bases: Vec<&OtherBasePersonRow> = Vec::new();
    let mut pages: Vec<PersonPageData> = Vec::new();
    let mut i: usize = 0;
    while i < people.len()
        invariant
            i <= people.len(),
            forall|k: i64| #[trigger] group_rows(works_by_person@, k) == rows_with_key(works@, k),
            forall|k: i64| #[trigger] group_rows(unpub_by_person@, k) == rows_with_key(unpublished@, k),
            forall|k: i64| #[trigger] group_rows(people_by_work@, k) == rows_with_key(work_people@, k),
            forall|k: i64| #[trigger] group_rows(sites_by_person@, k) == rows_with_key(sites@, k),
            forall|k: i64| #[trigger] group_rows(bases_by_person@, k) == rows_with_key(bases@, k),
            no_works@.len() == 0,
            no_sites@.len() == 0,
            no_bases@.len() == 0,
            pages@.len() == i,
            forall|j: int|
                0 <= j < i ==> page_fits(
                    people@[j],
                    works@,
                    unpublished@,
                    work_people@,
                    sites@,
                    bases@,
                    #[trigger] pages@[j],
                ),
        decreases people.len() - i,
    {
        let p = &people[i];
        let my_works: &[&PersonWorkRow] = match works_by_person.get(&p.id) {
            Some(v) => v.as_slice(),
            None => no_works.as_slice(),
        };
        let my_unpub: &[&PersonWorkRow] = match unpub_by_person.get(&p.id) {
            Some(v) => v.as_slice(),
            None => no_works.as_slice(),
        };
        let my_sites: &[&PersonSiteRow] = match sites_by_person.get(&p.id) {
            Some(v) => v.as_slice(),
            None => no_sites.as_slice(),
        };
        let my_bases: &[&OtherBasePersonRow] = match bases_by_person.get(&p.id) {
            Some(v) => v.as_slice(),
            None => no_bases.as_slice(),
        };
        assert(derefs(my_works@) =~= rows_with_key(works@, p.id)) by {
            assert(group_rows(works_by_person@, p.id) == rows_with_key(works@, p.id));
        }
        assert(derefs(my_unpub@) =~= rows_with_key(unpublished@, p.id)) by {
            assert(group_rows(unpub_by_person@, p.id) == rows_with_key(unpublished@, p.id));
        }
        assert(derefs(my_sites@) =~= rows_with_key(sites@, p.id)) by {
            assert(group_rows(sites_by_person@, p.id) == rows_with_key(sites@, p.id));
        }
        assert(derefs(my_bases@) =~= rows_with_key(bases@, p.id)) by {
            assert(group_rows(bases_by_person@, p.id) == rows_with_key(bases@, p.id));
        }
        let page_works = build_works(my_works, &people_by_work, Ghost(work_people@), p.id);
        let page_unpub = build_works(my_unpub, &people_by_work, Ghost(work_people@), p.id);
        let mut page_sites: Vec<SiteInfo> = Vec::new();
        let mut k: usize = 0;
        while k < my_sites.len()
            invariant
                k <= my_sites.len(),
                page_sites@.len() == k,
                forall|j: int|
                    0 <= j < k ==> (#[trigger] page_sites@[j]).name == my_sites@[j].site_name
                        && page_sites@[j].url == my_sites@[j].site_url,
            decreases my_sites.len() - k,
        {
            page_sites.push(SiteInfo { name: clone_opt(&my_sites[k].site_name), url: clone_opt(&my_sites[k].site_url) });
            k = k + 1;
        }
        let mut page_bases: Vec<OtherBasePerson> = Vec::new();
        let mut k: usize = 0;
        while k < my_bases.len()
            invariant
                k <= my_bases.len(),
                page_bases@.len() == k,
                forall|j: int|
                    0 <= j < k ==> (#[trigger] page_bases@[j]).id == my_bases@[j].original_person_id
                        && page_bases@[j].name == my_bases@[j].name,
            decreases my_bases.len() - k,
        {
            page_bases.push(OtherBasePerson { id: my_bases[k].original_person_id, name: my_bases[k].name.clone() });
            k = k + 1;
        }
        let page = PersonPageData {
            person: person_of(p),
            works: page_works,
            unpublished_works: page_unpub,
            sites: page_sites,
            other_base_people: page_bases,
        };
        assert(page_fits(people@[i as int], works@, unpublished@, work_people@, sites@, bases@, page));
        pages.push(page);
        i = i + 1;
    }
    pages
}

/// A person's page shows that person: the same id, names, English name,
/// birth and death dates, copyright flag, description and sort key as the
/// person's row.
pub proof fn lemma_person_page_person(
    p: PersonRow,
    works: Seq<PersonWorkRow>,
    unpublished: Seq<PersonWorkRow>,
    work_people: Seq<WorkPersonRow>,
    sites: Seq<PersonSiteRow>,
    bases: Seq<OtherBasePersonRow>,
    d: PersonPageData,
)
    requires
        page_fits(p, works, unpublished, work_people, sites, bases, d),
    ensures
        d.person.id == p.id,
        d.person.last_name == p.last_name,
        d.person.first_name == p.first_name,
        d.person.last_name_kana == p.last_name_kana,
        d.person.first_name_kana == p.first_name_kana,
        d.person.name_en == p.name_en,
        d.person.born_on == p.born_on,
        d.person.died_on == p.died_on,
        d.person.copyright_flag == p.copyright_flag,
        d.person.description == p.description,
        d.person.sortkey == p.sortkey,
{
}

} // verus!
