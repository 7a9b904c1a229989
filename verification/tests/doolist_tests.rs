use doo::doolist::{DooItem, DooList};
use doo::errors::DooError;
use doo::lists::Navigate;

#[test]
fn from_parts_selects_the_first_task() {
    let items = vec![DooItem::new("a".to_string(), false), DooItem::new("b".to_string(), true)];
    let l = DooList::from_parts(Some("mine".to_string()), items, Some("/tmp/l.json".to_string()));
    assert_eq!(l.name.as_deref(), Some("mine"));
    assert_eq!(l.path.as_deref(), Some("/tmp/l.json"));
    assert_eq!(l.list.len(), 2);
    assert_eq!(l.list.selected_index(), Some(0));
    assert!(l.list.get(1).complete);
}

#[test]
fn from_parts_of_nothing_selects_nothing() {
    let l = DooList::from_parts(None, Vec::new(), None);
    assert_eq!(l.list.len(), 0);
    assert_eq!(l.list.selected_index(), None);
}

#[test]
fn doolist_navigation_does_not_wrap() {
    let mut l = DooList::new();
    l.add_from_label("a".to_string());
    l.add_from_label("b".to_string());
    l.add_from_label("c".to_string());
    // the last addition is selected
    assert_eq!(l.list.selected_index(), Some(2));
    l.next();
    assert_eq!(l.list.selected_index(), Some(2));
    l.previous();
    l.previous();
    assert_eq!(l.list.selected_index(), Some(0));
    l.previous();
    assert_eq!(l.list.selected_index(), Some(0));
}

#[test]
fn mark_selection_without_selection_is_rejected() {
    let mut l = DooList::new();
    assert_eq!(l.mark_selection(), Err(DooError::NoSelection));
    assert_eq!(l.list.len(), 0);
}

#[test]
fn change_label_name_without_selection_is_rejected() {
    let mut l = DooList::new();
    assert_eq!(l.change_label_name("x".to_string()), Err(DooError::NoSelection));
    assert_eq!(l.list.len(), 0);
}

#[test]
fn remove_returns_the_selected_task() {
    let mut l = DooList::new();
    l.add_from_label("a".to_string());
    l.add_from_label("b".to_string());
    let removed = l.remove().unwrap();
    assert_eq!(removed.label, "b");
    assert_eq!(l.list.len(), 1);
    assert_eq!(l.list.selected_index(), Some(0));
    assert!(l.remove().is_some());
    assert!(l.remove().is_none());
}

#[test]
fn change_name_touches_only_the_name() {
    let mut l = DooList::new();
    l.add_from_label("a".to_string());
    l.change_name("list".to_string());
    assert_eq!(l.name.as_deref(), Some("list"));
    assert_eq!(l.list.len(), 1);
}
