use komadome::json::{to_json_text, Json, JsonNumber};
use komadome::list_inp::ListInpData;
use komadome::site_pages::{
    build_single_person, include_path, is_zip_file, person_page_file, public_list_pages, soramoyou_is_index, strip_fingerprint,
    year_links,
};
use komadome::whatsnew::WhatsnewPageData;

#[test]
fn fingerprints_are_stripped() {
    assert_eq!(strip_fingerprint("tailwind-ffccb42b.css").as_deref(), Some("tailwind.css"));
    assert_eq!(strip_fingerprint("inter-font-8c3e82af.css").as_deref(), Some("inter-font.css"));
    assert_eq!(strip_fingerprint("app-0123456789abcdef.js.gz").as_deref(), Some("app.js.gz"));
    assert_eq!(strip_fingerprint("tailwind.css"), None);
    assert_eq!(strip_fingerprint("x-abc.css"), None);
}

#[test]
fn zip_names() {
    assert!(is_zip_file("list_person_all.zip"));
    assert!(!is_zip_file(".zip"));
    assert!(!is_zip_file("a.zipx"));
    assert!(is_zip_file("a..zip"));
}

fn page(year: Option<i32>) -> WhatsnewPageData {
    WhatsnewPageData { year, page: 1, total_pages: 1, entries: Vec::new() }
}

#[test]
fn year_links_are_sorted_and_distinct() {
    let pages = vec![page(None), page(Some(2003)), page(Some(2001)), page(Some(2003)), page(Some(2002))];
    assert_eq!(year_links(&pages), vec![2001, 2002, 2003]);
    assert!(year_links(&vec![page(None)]).is_empty());
}

fn list(person_id: i64) -> ListInpData {
    ListInpData { person_id, person_name: String::new(), page: 1, total_pages: 1, works: Vec::new() }
}

#[test]
fn person_zero_lists_are_hidden() {
    let shown = public_list_pages(vec![list(0), list(3), list(0), list(4)]);
    let ids: Vec<i64> = shown.iter().map(|d| d.person_id).collect();
    assert_eq!(ids, vec![3, 4]);
}

#[test]
fn person_page_paths() {
    assert_eq!(person_page_file(35), "index_pages/person35.html");
    assert_eq!(build_single_person(&[], 3), Err("Person not found: 3".to_string()));
    assert!(soramoyou_is_index(2024, 2024));
    assert!(!soramoyou_is_index(2023, 2024));
}

#[test]
fn compact_json_text() {
    let v = Json::Object(vec![
        ("key".to_string(), Json::String("value".to_string())),
        ("n".to_string(), Json::Number(JsonNumber { text: "-3".to_string(), as_i64: Some(-3), as_u64: None })),
        ("list".to_string(), Json::Array(vec![Json::Null, Json::Bool(true)])),
        ("esc".to_string(), Json::String("\"\n\u{1}".to_string())),
    ]);
    assert_eq!(to_json_text(&v), "{\"key\":\"value\",\"n\":-3,\"list\":[null,true],\"esc\":\"\\\"\\n\\u0001\"}");
}

#[test]
fn include_names_resolve_to_partials() {
    let (dirs, file) = include_path("/top/body").unwrap();
    assert_eq!(dirs, vec!["top".to_string()]);
    assert_eq!(file, "_body.ntzr");
    let (dirs, file) = include_path("//a//b/c/").unwrap();
    assert_eq!(dirs, vec!["a".to_string(), "b".to_string()]);
    assert_eq!(file, "_c.ntzr");
    let (dirs, file) = include_path("footer").unwrap();
    assert!(dirs.is_empty());
    assert_eq!(file, "_footer.ntzr");
    assert_eq!(include_path("///"), Err("include name '///' resolves to empty path".to_string()));
}

#[test]
fn member_lookup_and_numbers() {
    let num = |n: i64| Json::Number(JsonNumber { text: n.to_string(), as_i64: Some(n), as_u64: u64::try_from(n).ok() });
    let v = Json::Object(vec![("a".to_string(), num(1)), ("b".to_string(), num(-2))]);
    assert_eq!(v.get("b").and_then(|x| x.as_i64()), Some(-2));
    assert_eq!(v.get("b").and_then(|x| x.as_u64()), None);
    assert_eq!(v.get("a").and_then(|x| x.as_u64()), Some(1));
    assert!(v.get("c").is_none());
    assert_eq!(to_json_text(&Json::String("\u{8}\u{1f}/é".to_string())), "\"\\b\\u001f/é\"");
}
