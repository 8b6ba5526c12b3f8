use komadome::export_helpers::{
    calculate_total_pages, column_display, column_kana_chars, page_ranges, paginate, PAGE_SIZE,
};
use komadome::kana::column_chars;
use komadome::models::{Duplicate, SiteInfo};

#[test]
fn test_calculate_total_pages_zero() {
    assert_eq!(calculate_total_pages(0), 1);
}

#[test]
fn test_calculate_total_pages_exact_page() {
    assert_eq!(calculate_total_pages(50), 1);
}

#[test]
fn test_calculate_total_pages_one_over() {
    assert_eq!(calculate_total_pages(51), 2);
}

#[test]
fn test_calculate_total_pages_two_pages() {
    assert_eq!(calculate_total_pages(100), 2);
}

#[test]
fn test_calculate_total_pages_three_pages() {
    assert_eq!(calculate_total_pages(101), 3);
}

#[test]
fn page_size_is_fifty() {
    assert_eq!(PAGE_SIZE, 50);
}

#[test]
fn page_ranges_cover_items_without_gaps() {
    assert_eq!(page_ranges(0), vec![(0, 0)]);
    assert_eq!(page_ranges(50), vec![(0, 50)]);
    assert_eq!(page_ranges(120), vec![(0, 50), (50, 100), (100, 120)]);
}

fn site(n: usize) -> SiteInfo {
    SiteInfo { name: Some(format!("site{n}")), url: None }
}

#[test]
fn paginate_puts_item_k_on_page_k_div_50() {
    let items: Vec<SiteInfo> = (0..101).map(site).collect();
    let pages = paginate(&items);
    assert_eq!(pages.len(), 3);
    assert_eq!(pages[0].len(), 50);
    assert_eq!(pages[1].len(), 50);
    assert_eq!(pages[2].len(), 1);
    for k in 0..101 {
        assert_eq!(pages[k / 50][k % 50].name, items[k].name);
    }
    let empty: Vec<SiteInfo> = Vec::new();
    let pages = paginate(&empty);
    assert_eq!(pages.len(), 1);
    assert!(pages[0].is_empty());
}

#[test]
fn duplicate_copies_all_fields() {
    let s = SiteInfo { name: Some("青空".to_string()), url: Some("https://example.org".to_string()) };
    let d = s.duplicate();
    assert_eq!(d.name, s.name);
    assert_eq!(d.url, s.url);
}

#[test]
fn column_display_is_first_kana() {
    assert_eq!(column_display("a"), "あ");
    assert_eq!(column_display("ka"), "か");
    assert_eq!(column_display("wa"), "わ");
    assert_eq!(column_display("zz"), "");
    assert_eq!(column_display("nope"), "");
}

#[test]
fn column_kana_chars_splits_or_names_the_rest() {
    assert_eq!(column_kana_chars("あいう"), vec!["あ", "い", "う"]);
    assert_eq!(column_kana_chars(""), vec!["その他"]);
}

#[test]
fn column_table_order() {
    let cols = column_chars();
    assert_eq!(cols.len(), 11);
    assert_eq!(cols[0], ("a".to_string(), "あいうえお".to_string()));
    assert_eq!(cols[7], ("ya".to_string(), "やゆよ".to_string()));
    assert_eq!(cols[10], ("zz".to_string(), String::new()));
}
