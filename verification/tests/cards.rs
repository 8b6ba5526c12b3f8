use komadome::card_pages::{build_single_card, is_public_card, public_cards};
use komadome::cards::{assemble_cards, remove_link_tag, WorkPersonRow, WorkRow, WorkfileRow};
use komadome::models::{AuthorInfo, CardData, Date};

fn work(id: i64) -> WorkRow {
    WorkRow {
        id,
        title: format!("w{id}"),
        title_kana: None,
        subtitle: None,
        subtitle_kana: None,
        original_title: None,
        collection: None,
        collection_kana: None,
        kana_type_name: None,
        started_on: Some(Date { year: 2001, month: 2, day: 3 }),
        note: Some("註 <a href=\"x\">リンク</a>".to_string()),
        first_appearance: None,
        description: None,
    }
}

fn person(work_id: i64, person_id: i64, role_id: i64) -> WorkPersonRow {
    WorkPersonRow {
        work_id,
        person_id,
        role_id,
        role_name: format!("r{role_id}"),
        person_name: format!("p{person_id}"),
        person_name_kana: "かな".to_string(),
        person_name_en: None,
        born_on: None,
        died_on: None,
        person_description: None,
        copyright_flag: false,
    }
}

#[test]
fn one_card_per_person_of_each_work() {
    let works = vec![work(1), work(2), work(3)];
    let people = vec![person(1, 35, 1), person(1, 0, 2), person(1, 40, 2), person(1, 35, 3), person(2, 7, 1)];
    let files = vec![WorkfileRow {
        id: 1,
        work_id: 2,
        filename: Some("f.zip".to_string()),
        filesize: Some(10),
        filetype_name: None,
        filetype_id: 1,
        is_html: false,
        compresstype_name: None,
        charset_name: None,
        file_encoding_name: None,
        url: None,
        registered_on: None,
        last_updated_on: None,
    }];
    let cards = assemble_cards(&works, &people, &files, &Vec::new(), &Vec::new(), &Vec::new(), &Vec::new());
    let keys: Vec<(i64, i64)> = cards.iter().map(|c| (c.work_id, c.person_id)).collect();
    assert_eq!(keys, vec![(1, 35), (1, 40), (2, 7)]);
    assert_eq!(cards[0].authors.len(), 1);
    assert_eq!(cards[0].authors[0].id, 35);
    assert_eq!(cards[0].translators.len(), 2);
    assert_eq!(cards[0].started_on.as_deref(), Some("2001-02-03"));
    let roles: Vec<i64> = cards[0].work_people_details.iter().map(|d| d.person_id).collect();
    assert_eq!(roles, vec![35, 0, 40, 35]);
    assert_eq!(cards[2].workfiles.len(), 1);
    assert!(cards[0].workfiles.is_empty());
}

#[test]
fn link_tags_are_removed_from_notes() {
    assert_eq!(
        remove_link_tag("註<br /><div id=\"link\"></div><script type=\"text/javascript\" src=\"../link.js\"></script>"),
        "註"
    );
    assert_eq!(remove_link_tag("なし"), "なし");
}

fn card(work_id: i64, person_id: i64, first_author: Option<i64>) -> CardData {
    let works = vec![work(work_id)];
    let people = vec![person(work_id, person_id, 2)];
    let mut c = assemble_cards(&works, &people, &Vec::new(), &Vec::new(), &Vec::new(), &Vec::new(), &Vec::new())
        .into_iter()
        .next()
        .unwrap();
    c.authors = match first_author {
        Some(id) => vec![AuthorInfo { id, name: "a".to_string(), name_kana: "a".to_string(), copyright_flag: false }],
        None => Vec::new(),
    };
    c
}

#[test]
fn placeholder_cards_are_not_public() {
    assert!(is_public_card(&card(1, 5, None)));
    assert!(!is_public_card(&card(1, 5, Some(0))));
    assert!(is_public_card(&card(1, 5, Some(3))));
    let shown = public_cards(vec![card(1, 5, Some(0)), card(2, 6, None), card(3, 7, Some(0))]);
    assert_eq!(shown.len(), 1);
    assert_eq!(shown[0].work_id, 2);
}

#[test]
fn single_card_lookup() {
    let cards = vec![card(1, 5, None), card(2, 6, None), card(2, 7, None)];
    assert_eq!(build_single_card(&cards, 2), Ok(1));
    assert_eq!(build_single_card(&cards, 9), Err("Card not found: 9".to_string()));
}
