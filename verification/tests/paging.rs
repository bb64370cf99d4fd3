use api::paging::{fetch_limit, finish_page};

#[test]
fn fetch_limit_asks_one_more_without_count() {
    assert_eq!(fetch_limit(100, false), 101);
    assert_eq!(fetch_limit(100, true), 100);
    assert_eq!(fetch_limit(0, false), 1);
}

#[test]
fn short_page_is_kept_and_counted_from_offset() {
    let mut items = vec![1, 2, 3];
    let total = finish_page(&mut items, 11, 20, false, 999);
    assert_eq!(items, vec![1, 2, 3]);
    assert_eq!(total, 23);
}

#[test]
fn full_page_drops_the_extra_row_and_reports_one_more() {
    let mut items = vec![1, 2, 3, 4];
    let total = finish_page(&mut items, 4, 10, false, 0);
    assert_eq!(items, vec![1, 2, 3]);
    assert_eq!(total, 14);
    assert!(total > 10 + items.len() as i64);
}

#[test]
fn counted_page_keeps_the_database_total() {
    let mut items = vec![1, 2, 3, 4];
    let total = finish_page(&mut items, 4, 10, true, 57);
    assert_eq!(items, vec![1, 2, 3, 4]);
    assert_eq!(total, 57);
}

#[test]
fn empty_page() {
    let mut items: Vec<u8> = vec![];
    assert_eq!(finish_page(&mut items, 101, 0, false, 5), 0);
    assert!(items.is_empty());
}
