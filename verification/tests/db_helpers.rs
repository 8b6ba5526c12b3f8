use komadome::db_helpers::{group_by, published_work_predicate, wip_work_predicate, KANA_PATTERN};

#[test]
fn test_group_by_empty() {
    let items: Vec<(i32, &str)> = vec![];
    let result = group_by(&items, |item| item.0);
    assert!(result.is_empty());
}

#[test]
fn test_group_by_single_element() {
    let items = vec![(1, "a")];
    let result = group_by(&items, |item| item.0);
    assert_eq!(result.len(), 1);
    assert_eq!(result[&1].len(), 1);
    assert_eq!(result[&1][0].1, "a");
}

#[test]
fn test_group_by_same_key() {
    let items = vec![(1, "a"), (1, "b"), (1, "c")];
    let result = group_by(&items, |item| item.0);
    assert_eq!(result.len(), 1);
    assert_eq!(result[&1].len(), 3);
}

#[test]
fn test_group_by_mixed_keys() {
    let items = vec![(1, "a"), (2, "b"), (1, "c"), (3, "d"), (2, "e")];
    let result = group_by(&items, |item| item.0);
    assert_eq!(result.len(), 3);
    assert_eq!(result[&1].len(), 2);
    assert_eq!(result[&2].len(), 2);
    assert_eq!(result[&3].len(), 1);
}

#[test]
fn group_by_keeps_original_order_within_a_group() {
    let items = vec![(1, "a"), (2, "b"), (1, "c"), (1, "d")];
    let result = group_by(&items, |item| item.0);
    let ones: Vec<&str> = result[&1].iter().map(|i| i.1).collect();
    assert_eq!(ones, vec!["a", "c", "d"]);
}

#[test]
fn wip_predicate_text() {
    assert_eq!(
        wip_work_predicate("$1"),
        "(w.work_status_id IN (3,4,5,6,7,8,9,10,11) OR (w.work_status_id = 1 AND w.started_on > $1))"
    );
}

#[test]
fn published_predicate_text() {
    assert_eq!(published_work_predicate("$2"), "w.work_status_id = 1 AND w.started_on <= $2");
}

#[test]
fn kana_pattern_opens_with_anchor() {
    assert!(KANA_PATTERN.starts_with("^["));
}
