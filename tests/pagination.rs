use parts_flow::pagination::{catalog_page, parse_page_choice};
use parts_flow::structs::ListChoice;

fn catalog(n: usize) -> Vec<String> {
    (0..n).map(|i| format!("make{}", i)).collect()
}

fn ids(page: &[ListChoice]) -> Vec<String> {
    page.iter().map(|c| c.id.clone()).collect()
}

fn has_prev(page: &[ListChoice]) -> bool {
    page.iter().any(|c| c.title == "Pagina Anterior")
}

fn has_next(page: &[ListChoice]) -> bool {
    page.iter().any(|c| c.title == "Pagina Siguiente")
}

#[test]
fn nine_items_fit_one_page_without_navigation() {
    let items = catalog(9);
    let page = catalog_page(&items, 1, None);
    assert_eq!(page.len(), 9);
    assert!(!has_prev(&page));
    assert!(!has_next(&page));
    assert_eq!(page[0].id, "make0-id");
    assert_eq!(page[0].title, "make0");
    assert_eq!(page[8].id, "make8-id");
}

#[test]
fn ten_items_give_next_then_previous() {
    let items = catalog(10);
    let first = catalog_page(&items, 1, None);
    assert_eq!(first.len(), 10);
    assert!(!has_prev(&first));
    assert!(has_next(&first));
    assert_eq!(first[9].id, "page-2");
    let second = catalog_page(&items, 2, None);
    assert_eq!(ids(&second), vec!["page-1".to_string(), "make9-id".to_string()]);
    assert!(has_prev(&second));
    assert!(!has_next(&second));
}

#[test]
fn middle_page_has_both_navigation_entries() {
    let items = catalog(19);
    let second = catalog_page(&items, 2, None);
    assert_eq!(second.len(), 11);
    assert_eq!(second[0].id, "page-1");
    assert_eq!(second[1].id, "make9-id");
    assert_eq!(second[9].id, "make17-id");
    assert_eq!(second[10].id, "page-3");
}

#[test]
fn eighteen_items_end_on_the_second_page() {
    let items = catalog(18);
    let second = catalog_page(&items, 2, None);
    assert_eq!(second.len(), 10);
    assert!(has_prev(&second));
    assert!(!has_next(&second));
}

#[test]
fn navigation_ids_carry_the_catalog_parameter() {
    let items = catalog(12);
    let param = "toyota".to_string();
    let first = catalog_page(&items, 1, Some(&param));
    assert_eq!(first.last().unwrap().id, "page-2-toyota");
    let second = catalog_page(&items, 2, Some(&param));
    assert_eq!(second[0].id, "page-1-toyota");
}

#[test]
fn page_past_the_end_has_only_previous() {
    let items = catalog(3);
    let page = catalog_page(&items, 4, None);
    assert_eq!(ids(&page), vec!["page-3".to_string()]);
}

#[test]
fn empty_catalog_gives_empty_first_page() {
    let items: Vec<String> = vec![];
    assert!(catalog_page(&items, 1, None).is_empty());
}

#[test]
fn navigation_choices_are_read() {
    assert_eq!(parse_page_choice("page-2"), Some(2));
    assert_eq!(parse_page_choice("page-13-toyota"), Some(13));
    assert_eq!(parse_page_choice("page-0"), Some(0));
    assert_eq!(parse_page_choice("page-"), None);
    assert_eq!(parse_page_choice("page-x"), None);
    assert_eq!(parse_page_choice("toyota-id"), None);
    assert_eq!(parse_page_choice("page-1000000"), Some(1_000_000));
    assert_eq!(parse_page_choice("page-99999999999"), Some(1_000_000));
}
