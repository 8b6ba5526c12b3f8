use std::collections::HashMap;

use komadome::list_inp::{list_inp_pages, news_data, news_years, ListInpPersonRow, ListInpWorkRow, NewsEntryRow};
use komadome::models::Date;
use komadome::person_indexes::{
    all_column_display, like_pattern_of, person_all_index_page, person_index_page, wip_people_query,
    wip_person_index_page, PersonAllRow, PersonIndexRow, WipPersonRow,
};
use komadome::person_pages::{person_pages, OtherBasePersonRow, PersonRow, PersonSiteRow, PersonWorkRow, WorkPersonRow};
use komadome::top::{latest_published, new_works, top_data, topics, NewWorkRow, NewsRow};
use komadome::whatsnew::{paginate_entries, whatsnew_years, year_entries, WorkRow, WorkWorkerRow, FIRST_YEAR};
use komadome::work_indexes::{
    kana_filter, roma2kana, wip_work_index_pages, work_index_pages, works_query, WipWorkRow, WorkIndexRow,
};

fn d(year: i32, month: u32, day: u32) -> Date {
    Date { year, month, day }
}

#[test]
fn top_new_works_join_authors() {
    let rows = vec![
        NewWorkRow { id: 1, title: "A".to_string(), subtitle: None },
        NewWorkRow { id: 2, title: "B".to_string(), subtitle: Some("副".to_string()) },
    ];
    let authors = vec![
        komadome::top::WorkPersonRow { work_id: 1, person_id: 10, person_name: "甲".to_string() },
        komadome::top::WorkPersonRow { work_id: 1, person_id: 11, person_name: "乙".to_string() },
    ];
    let works = new_works(&rows, &authors);
    assert_eq!(works[0].author_text.as_deref(), Some("甲、乙"));
    assert_eq!(works[0].card_person_id, Some(10));
    assert_eq!(works[1].author_text, None);
    assert_eq!(works[1].card_person_id, None);
    assert_eq!(works[1].subtitle.as_deref(), Some("副"));
}

#[test]
fn top_counts_and_dates() {
    let news = vec![NewsRow { id: 5, title: "t".to_string(), published_on: Some(d(2024, 3, 1)) }];
    let t = topics(&news);
    assert_eq!(t[0].year, Some(2024));
    assert_eq!(t[0].published_on.as_deref(), Some("2024-03-01"));
    let latest = latest_published(None, Some(d(2023, 12, 31)));
    assert_eq!(latest.as_ref().map(|x| x.year), Some(2023));
    let data = top_data(&latest, &Vec::new(), &Vec::new(), &Some(news.into_iter().next().unwrap()), &Vec::new(), 17000, 2000);
    assert_eq!(data.works_noncopyright_count, 15000);
    assert_eq!(data.new_works_published_on.as_deref(), Some("2023-12-31"));
    assert_eq!(data.latest_news_published_on.as_deref(), Some("2024-03-01"));
}

#[test]
fn whatsnew_entries_and_pages() {
    let works = vec![WorkRow { id: 1, title: "A".to_string(), subtitle: None, started_on: Some(d(2024, 1, 2)) }];
    let people = vec![
        komadome::whatsnew::WorkPersonRow { work_id: 1, role_id: 1, person_name: "甲".to_string() },
        komadome::whatsnew::WorkPersonRow { work_id: 1, role_id: 1, person_name: "乙".to_string() },
        komadome::whatsnew::WorkPersonRow { work_id: 1, role_id: 2, person_name: "丙".to_string() },
    ];
    let workers = vec![
        WorkWorkerRow { work_id: 1, worker_role_id: 1, worker_name: Some("入".to_string()) },
        WorkWorkerRow { work_id: 1, worker_role_id: 2, worker_name: None },
    ];
    let mut firsts = HashMap::new();
    firsts.insert(1i64, 10i64);
    let entries = year_entries(&works, &people, &firsts, &workers);
    assert_eq!(entries[0].author_text.as_deref(), Some("甲, 乙"));
    assert_eq!(entries[0].translator_text.as_deref(), Some("丙"));
    assert_eq!(entries[0].inputer_text.as_deref(), Some("入"));
    assert_eq!(entries[0].proofreader_text, None);
    assert_eq!(entries[0].card_person_id, Some(10));
    assert_eq!(entries[0].started_on.as_deref(), Some("2024-01-02"));
    let pages = paginate_entries(&entries, Some(2024));
    assert_eq!(pages.len(), 1);
    assert_eq!(pages[0].total_pages, 1);
    let none = paginate_entries(&Vec::new(), None);
    assert_eq!(none.len(), 1);
    assert!(none[0].entries.is_empty());
}

#[test]
fn whatsnew_year_order() {
    let years = whatsnew_years(2004);
    assert_eq!(years, vec![None, Some(2001), Some(2002), Some(2003)]);
    assert_eq!(FIRST_YEAR, 2001);
    assert_eq!(whatsnew_years(2001), vec![None]);
}

#[test]
fn person_pages_group_rows() {
    let people = vec![PersonRow {
        id: 35,
        last_name: "太宰".to_string(),
        first_name: Some("治".to_string()),
        last_name_kana: "だざい".to_string(),
        first_name_kana: Some("おさむ".to_string()),
        name_en: Some("Dazai, Osamu".to_string()),
        born_on: None,
        died_on: None,
        copyright_flag: false,
        description: None,
        sortkey: None,
    }];
    let work = |person_id: i64, work_id: i64| PersonWorkRow {
        person_id,
        work_id,
        title: format!("w{work_id}"),
        title_kana: None,
        subtitle: None,
        sortkey: None,
        subtitle_kana: None,
        role_name: Some("著者".to_string()),
        role_id: 1,
        kana_type_name: None,
        card_person_id: Some("000035".to_string()),
    };
    let works = vec![work(35, 1), work(36, 2), work(35, 3)];
    let wp = |work_id: i64, person_id: i64| WorkPersonRow {
        work_id,
        person_id,
        name: format!("p{person_id}"),
        role_name: None,
        role_id: 1,
    };
    let work_people = vec![wp(1, 35), wp(1, 40), wp(3, 35)];
    let sites = vec![PersonSiteRow { person_id: 35, site_name: Some("s".to_string()), site_url: None }];
    let bases = vec![OtherBasePersonRow { person_id: 35, original_person_id: 99, name: "元".to_string() }];
    let pages = person_pages(&people, &works, &Vec::new(), &work_people, &sites, &bases);
    assert_eq!(pages.len(), 1);
    let p = &pages[0];
    assert_eq!(p.person.id, 35);
    assert_eq!(p.works.len(), 2);
    assert_eq!(p.works[0].id, 1);
    assert_eq!(p.works[0].work_people.len(), 1);
    assert_eq!(p.works[0].work_people[0].person_id, 40);
    assert!(p.works[1].work_people.is_empty());
    assert!(p.unpublished_works.is_empty());
    assert_eq!(p.sites.len(), 1);
    assert_eq!(p.other_base_people[0].id, 99);
}

#[test]
fn person_index_sections() {
    let row = |id: i64| PersonIndexRow {
        id,
        name: format!("n{id}"),
        name_kana: "かな".to_string(),
        work_count: 3,
        copyright_flag: false,
    };
    let fetched = vec![vec![row(1)], vec![], vec![row(2), row(3)], vec![], vec![]];
    let page = person_index_page("a", "あいうえお", &fetched);
    assert_eq!(page.column_display, "あ");
    assert_eq!(page.sections.len(), 5);
    assert_eq!(page.sections[2].kana_char, "う");
    assert_eq!(page.sections[2].section_index, 3);
    assert_eq!(page.sections[2].people[1].published_works_count, 3);
    let other = person_index_page("zz", "", &vec![vec![row(4)]]);
    assert_eq!(other.column_display, "");
    assert_eq!(other.sections[0].kana_char, "他");
    assert_eq!(like_pattern_of("か"), "か%");
}

#[test]
fn person_all_and_wip_sections() {
    assert_eq!(all_column_display("ka"), "か");
    assert_eq!(all_column_display("zz"), "");
    assert_eq!(all_column_display("xx"), "他");
    let row = PersonAllRow { id: 1, name: "n".to_string(), published_count: 1, unpublished_count: 2, total_count: 3, copyright_flag: true };
    let page = person_all_index_page("zz", "", &vec![vec![row]]);
    assert_eq!(page.sections[0].kana_char, "その他");
    assert_eq!(page.sections[0].people[0].total_count, 3);
    let wip = |id: i64, n: i64| WipPersonRow { id, name: "n".to_string(), unpublished_count: n, copyright_flag: false };
    let page = wip_person_index_page("ya", "やゆよ", &vec![vec![wip(1, 0), wip(2, 4)], vec![], vec![wip(3, 1)]]);
    assert_eq!(page.column_display, "や");
    assert_eq!(page.sections[0].people.len(), 1);
    assert_eq!(page.sections[0].people[0].id, 2);
    assert_eq!(page.sections[2].people[0].id, 3);
    let (sql, pattern) = wip_people_query("やゆよ", "ゆ");
    assert!(sql.contains("WHERE p.sortkey LIKE $1"));
    assert!(sql.contains("w.started_on > $2"));
    assert_eq!(pattern, "ゆ%");
    let (sql, pattern) = wip_people_query("", "その他");
    assert!(sql.contains("WHERE p.sortkey !~ $1"));
    assert_eq!(pattern, komadome::db_helpers::KANA_PATTERN);
}

#[test]
fn work_index_pages_of_fifty() {
    let row = |id: i64| WorkIndexRow {
        id,
        title: format!("t{id}"),
        title_kana: None,
        subtitle: None,
        author_name: None,
        person_id: None,
        card_person_id: None,
        kana_type: None,
        author_text: None,
        base_author_text: String::new(),
        translator_text: "訳".to_string(),
    };
    let works: Vec<WorkIndexRow> = (0..51).map(row).collect();
    let pages = work_index_pages("a", &works);
    assert_eq!(pages.len(), 2);
    assert_eq!(pages[1].page, 2);
    assert_eq!(pages[1].total_pages, 2);
    assert_eq!(pages[1].works.len(), 1);
    assert_eq!(pages[1].works[0].id, 50);
    assert_eq!(pages[0].works[0].translator_text.as_deref(), Some("訳"));
    assert_eq!(pages[0].works[0].base_author_text.as_deref(), Some(""));
    let empty = work_index_pages("zz", &Vec::new());
    assert_eq!(empty.len(), 1);
    assert!(empty[0].works.is_empty());
}

#[test]
fn wip_work_index_pages_have_pagination() {
    let row = WipWorkRow {
        id: 9,
        title: "t".to_string(),
        subtitle: None,
        kana_type_name: None,
        author_name: None,
        author_id: None,
        base_author_name: None,
        translator_text: None,
        inputer_text: None,
        proofreader_text: None,
        work_status_name: Some("入力中".to_string()),
        started_on: Some(d(2020, 2, 29)),
        teihon_title: None,
        teihon_publisher: None,
        teihon_input_edition: None,
    };
    let pages = wip_work_index_pages("ka", &vec![row]);
    assert_eq!(pages[0].pagination.page, 1);
    assert_eq!(pages[0].pagination.total_pages, 1);
    assert_eq!(pages[0].works[0].started_on.as_deref(), Some("2020-02-29"));
}

#[test]
fn kana_symbols_and_filters() {
    let table = roma2kana();
    assert_eq!(table.len(), 47);
    assert_eq!(table[0], ("a".to_string(), Some("あ".to_string())));
    assert_eq!(table[46], ("zz".to_string(), None));
    let (op, pattern) = kana_filter(&Some("か".to_string()));
    assert_eq!((op.as_str(), pattern.as_str()), ("~", "^か"));
    let (op, _) = kana_filter(&None);
    assert_eq!(op, "!~");
    let q = works_query("~");
    assert!(q.contains("WHERE w.work_status_id = 1 AND w.started_on <= $1\n              AND w.sortkey ~ $2"));
}

#[test]
fn list_inp_pages_per_person() {
    let persons = vec![
        ListInpPersonRow { id: 1, name: "a".to_string(), work_count: 1 },
        ListInpPersonRow { id: 2, name: "b".to_string(), work_count: 0 },
    ];
    let work = |person_id: i64, id: i64| ListInpWorkRow {
        person_id,
        id,
        title: "t".to_string(),
        subtitle: None,
        kana_type_name: None,
        translator_text: None,
        inputer_text: None,
        proofreader_text: None,
        work_status_name: None,
        started_on: None,
        teihon_title: None,
        teihon_publisher: None,
        teihon_input_edition: None,
    };
    let works: Vec<ListInpWorkRow> = (0..60).map(|i| work(1, i)).collect();
    let pages = list_inp_pages(&persons, &works);
    assert_eq!(pages.len(), 2);
    assert_eq!(pages[0].len(), 2);
    assert_eq!(pages[0][1].works.len(), 10);
    assert_eq!(pages[0][1].person_name, "a");
    assert_eq!(pages[1].len(), 1);
    assert!(pages[1][0].works.is_empty());
}

#[test]
fn news_years_and_pages() {
    let years = news_years(1999);
    assert_eq!(years, vec![1997, 1998, 1999]);
    assert!(news_years(1990).is_empty());
    let rows = vec![NewsEntryRow { id: 1, title: "t".to_string(), body: "b".to_string(), published_on: Some(d(1998, 5, 6)), flag: true }];
    let data = news_data(1998, &rows);
    assert_eq!(data.year, 1998);
    assert_eq!(data.entries[0].published_on.as_deref(), Some("1998-05-06"));
}
