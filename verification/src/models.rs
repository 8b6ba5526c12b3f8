//! Records that the exporters write and the site builder reads, and the
//! calendar values they carry.
use vstd::prelude::*;
use crate::text::{clone_opt, push_char, push_two_digits, push_year, two_digits, year_text};

verus! {

/// A calendar date.
#[derive(Clone, Copy, PartialEq, Eq, Structural)]
pub struct Date {
    pub year: i32,
    pub month: u32,
    pub day: u32,
}

/// A date and a time of day, without time zone.
#[derive(Clone, Copy, PartialEq, Eq, Structural)]
pub struct DateTime {
    pub date: Date,
    pub hour: u32,
    pub minute: u32,
    pub second: u32,
}

/// `YYYY-MM-DD`, the year written as [`year_text`] writes it.
pub open spec fn date_text(d: Date) -> Seq<char> {
    year_text(d.year as int) + seq!['-'] + two_digits(d.month as nat) + seq!['-'] + two_digits(d.day as nat)
}

/// `YYYY-MM-DD HH:MM:SS`.
pub open spec fn date_time_text(t: DateTime) -> Seq<char> {
    date_text(t.date) + seq![' '] + two_digits(t.hour as nat) + seq![':'] + two_digits(t.minute as nat)
        + seq![':'] + two_digits(t.second as nat)
}

/// Appends the `YYYY-MM-DD` text of `d`.
pub fn push_date(s: &mut String, d: &Date)
    ensures
        final(s)@ == old(s)@ + date_text(*d),
{
    let ghost s0 = s@;
    push_year(s, d.year);
    push_char(s, '-');
    push_two_digits(s, d.month);
    push_char(s, '-');
    push_two_digits(s, d.day);
    assert(s@ =~= s0 + date_text(*d));
}

/// The `YYYY-MM-DD` text of `d`.
pub fn date_to_text(d: &Date) -> (r: String)
    ensures
        r@ == date_text(*d),
{
    let mut s = String::new();
    push_date(&mut s, d);
    assert(s@ =~= date_text(*d));
    s
}

/// The `YYYY-MM-DD HH:MM:SS` text of `t`.
pub fn date_time_to_text(t: &DateTime) -> (r: String)
    ensures
        r@ == date_time_text(*t),
{
    let mut s = String::new();
    push_date(&mut s, &t.date);
    push_char(&mut s, ' ');
    push_two_digits(&mut s, t.hour);
    push_char(&mut s, ':');
    push_two_digits(&mut s, t.minute);
    push_char(&mut s, ':');
    push_two_digits(&mut s, t.second);
    assert(s@ =~= date_time_text(*t));
    s
}

/// Optional date as optional text.
pub open spec fn opt_date_text(d: Option<Date>) -> Option<Seq<char>> {
    match d {
        Some(d) => Some(date_text(d)),
        None => None,
    }
}

/// Character view of an optional string.
pub open spec fn opt_view(o: Option<String>) -> Option<Seq<char>> {
    match o {
        Some(s) => Some(s@),
        None => None,
    }
}

/// Optional date as optional `YYYY-MM-DD` text.
pub fn opt_date_to_text(d: &Option<Date>) -> (r: Option<String>)
    ensures
        opt_view(r) == opt_date_text(*d),
{
    match d {
        Some(d) => Some(date_to_text(d)),
        None => None,
    }
}

/// Values that can be copied with the copy equal to the original.
pub trait Duplicate: Sized {
    fn duplicate(&self) -> (r: Self)
        ensures
            r == *self,
    ;
}

/// Copy of a vector of duplicable values.
pub fn dup_vec<T: Duplicate>(v: &Vec<T>) -> (r: Vec<T>)
    ensures
        r@ == v@,
{
    let mut r: Vec<T> = Vec::new();
    let mut i: usize = 0;
    while i < v.len()
        invariant
            i <= v.len(),
            r@ == v@.take(i as int),
        decreases v.len() - i,
    {
        r.push(v[i].duplicate());
        assert(r@ =~= v@.take(i + 1));
        i = i + 1;
    }
    assert(v@.take(v.len() as int) =~= v@);
    r
}

/// A book-card author.
pub struct AuthorInfo {
    pub id: i64,
    pub name: String,
    pub name_kana: String,
    pub copyright_flag: bool,
}

/// A person named on a card in a given role (translator, editor, ...).
pub struct PersonRef {
    pub id: i64,
    pub name: String,
    pub name_kana: String,
}

/// A downloadable file of a work.
pub struct WorkfileInfo {
    pub id: i64,
    pub filename: Option<String>,
    pub filesize: Option<i32>,
    pub filetype: Option<String>,
    pub filetype_id: i64,
    pub is_html: bool,
    pub compresstype: Option<String>,
    pub charset: Option<String>,
    pub file_encoding: Option<String>,
    pub url: Option<String>,
    pub registered_on: Option<String>,
    pub last_updated_on: Option<String>,
}

/// A source book of a work.
pub struct OriginalBookInfo {
    pub title: String,
    pub publisher: Option<String>,
    pub first_pubdate: Option<String>,
    pub input_edition: Option<String>,
    pub proof_edition: Option<String>,
    pub booktype: Option<String>,
    pub booktype_id: Option<i64>,
}

/// A volunteer (inputter, proofreader) who worked on a work.
pub struct WorkWorkerInfo {
    pub name: Option<String>,
    pub role: Option<String>,
}

/// A library classification of a work.
pub struct BibclassInfo {
    pub name: String,
    pub num: String,
    pub note: Option<String>,
}

/// A related web site.
pub struct SiteInfo {
    pub name: Option<String>,
    pub url: Option<String>,
}

/// Full details of a person involved in a work.
pub struct WorkPersonDetail {
    pub role_name: String,
    pub person_id: i64,
    pub name: String,
    pub name_kana: String,
    pub name_en: Option<String>,
    pub born_on: Option<String>,
    pub died_on: Option<String>,
    pub description: Option<String>,
    pub copyright_flag: bool,
}

/// One book card: one work as seen from one of its people.
pub struct CardData {
    pub work_id: i64,
    pub person_id: i64,
    pub title: String,
    pub title_kana: Option<String>,
    pub subtitle: Option<String>,
    pub subtitle_kana: Option<String>,
    pub original_title: Option<String>,
    pub collection: Option<String>,
    pub collection_kana: Option<String>,
    pub kana_type: Option<String>,
    pub started_on: Option<String>,
    pub note: Option<String>,
    pub first_appearance: Option<String>,
    pub description: Option<String>,
    pub authors: Vec<AuthorInfo>,
    pub translators: Vec<PersonRef>,
    pub editors: Vec<PersonRef>,
    pub workfiles: Vec<WorkfileInfo>,
    pub original_books: Vec<OriginalBookInfo>,
    pub work_workers: Vec<WorkWorkerInfo>,
    pub bibclasses: Vec<BibclassInfo>,
    pub sites: Vec<SiteInfo>,
    pub work_people_details: Vec<WorkPersonDetail>,
}

impl Duplicate for AuthorInfo {
    fn duplicate(&self) -> (r: Self) {
        AuthorInfo { id: self.id, name: self.name.clone(), name_kana: self.name_kana.clone(), copyright_flag: self.copyright_flag }
    }
}

impl Duplicate for PersonRef {
    fn duplicate(&self) -> (r: Self) {
        PersonRef { id: self.id, name: self.name.clone(), name_kana: self.name_kana.clone() }
    }
}

impl Duplicate for WorkfileInfo {
    fn duplicate(&self) -> (r: Self) {
        WorkfileInfo {
            id: self.id,
            filename: clone_opt(&self.filename),
            filesize: self.filesize,
            filetype: clone_opt(&self.filetype),
            filetype_id: self.filetype_id,
            is_html: self.is_html,
            compresstype: clone_opt(&self.compresstype),
            charset: clone_opt(&self.charset),
            file_encoding: clone_opt(&self.file_encoding),
            url: clone_opt(&self.url),
            registered_on: clone_opt(&self.registered_on),
            last_updated_on: clone_opt(&self.last_updated_on),
        }
    }
}

impl Duplicate for OriginalBookInfo {
    fn duplicate(&self) -> (r: Self) {
        OriginalBookInfo {
            title: self.title.clone(),
            publisher: clone_opt(&self.publisher),
            first_pubdate: clone_opt(&self.first_pubdate),
            input_edition: clone_opt(&self.input_edition),
            proof_edition: clone_opt(&self.proof_edition),
            booktype: clone_opt(&self.booktype),
            booktype_id: self.booktype_id,
        }
    }
}

impl Duplicate for WorkWorkerInfo {
    fn duplicate(&self) -> (r: Self) {
        WorkWorkerInfo { name: clone_opt(&self.name), role: clone_opt(&self.role) }
    }
}

impl Duplicate for BibclassInfo {
    fn duplicate(&self) -> (r: Self) {
        BibclassInfo { name: self.name.clone(), num: self.num.clone(), note: clone_opt(&self.note) }
    }
}

impl Duplicate for SiteInfo {
    fn duplicate(&self) -> (r: Self) {
        SiteInfo { name: clone_opt(&self.name), url: clone_opt(&self.url) }
    }
}

impl Duplicate for WorkPersonDetail {
    fn duplicate(&self) -> (r: Self) {
        WorkPersonDetail {
            role_name: self.role_name.clone(),
            person_id: self.person_id,
            name: self.name.clone(),
            name_kana: self.name_kana.clone(),
            name_en: clone_opt(&self.name_en),
            born_on: clone_opt(&self.born_on),
            died_on: clone_opt(&self.died_on),
            description: clone_opt(&self.description),
            copyright_flag: self.copyright_flag,
        }
    }
}

} // verus!
