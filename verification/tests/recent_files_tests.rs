use doo::lists::Navigate;
use doo::recent_files::RecentFiles;

fn paths_of(r: &RecentFiles) -> Vec<String> {
    let mut out = Vec::new();
    let mut i = 0;
    while i < r.order.len() {
        out.push(r.order.get(i).clone());
        i += 1;
    }
    out
}

#[test]
fn recording_a_known_path_promotes_instead_of_duplicating() {
    // recording [one, two, one] into a ledger of capacity 5 yields [one, two]
    let mut r = RecentFiles::new(Some(5));
    r.add_recent("one.json".to_string());
    r.add_recent("two.json".to_string());
    r.add_recent("one.json".to_string());
    assert_eq!(paths_of(&r), vec!["one.json".to_string(), "two.json".to_string()]);
    assert_eq!(r.order.selected_index(), Some(0));
}

#[test]
fn recording_past_capacity_evicts_the_least_recently_used() {
    // with capacity 2, recording [one, two, three] yields [three, two]: the first is evicted
    let mut r = RecentFiles::new(Some(2));
    r.add_recent("one.json".to_string());
    r.add_recent("two.json".to_string());
    r.add_recent("three.json".to_string());
    assert_eq!(paths_of(&r), vec!["three.json".to_string(), "two.json".to_string()]);
}

#[test]
fn default_capacity_is_five() {
    let mut r = RecentFiles::new(None);
    for p in ["a", "b", "c", "d", "e", "f"] {
        r.add_recent(p.to_string());
    }
    assert_eq!(
        paths_of(&r),
        vec!["f".to_string(), "e".to_string(), "d".to_string(), "c".to_string(), "b".to_string()]
    );
}

#[test]
fn new_ledger_is_empty_and_unselected() {
    let r = RecentFiles::new(Some(3));
    assert_eq!(r.order.len(), 0);
    assert_eq!(r.order.selected_index(), None);
}

#[test]
fn select_returns_the_highlighted_path_and_promotes_it() {
    let mut r = RecentFiles::new(Some(5));
    r.add_recent("one.json".to_string());
    r.add_recent("two.json".to_string());
    r.add_recent("three.json".to_string());
    // order is [three, two, one], front selected; browse down to the oldest
    r.next();
    r.next();
    assert_eq!(r.order.selected_index(), Some(2));
    let picked = r.select();
    assert_eq!(picked.as_deref(), Some("one.json"));
    assert_eq!(paths_of(&r), vec!["one.json".to_string(), "three.json".to_string(), "two.json".to_string()]);
    assert_eq!(r.order.selected_index(), Some(0));
}

#[test]
fn select_without_selection_changes_nothing() {
    let mut r = RecentFiles::new(Some(5));
    assert_eq!(r.select(), None);
    assert_eq!(r.order.len(), 0);
}

#[test]
fn browsing_does_not_wrap_at_either_end() {
    let mut r = RecentFiles::new(Some(5));
    r.add_recent("a".to_string());
    r.add_recent("b".to_string());
    r.add_recent("c".to_string());
    // front (index 0) is selected after recording
    r.previous();
    assert_eq!(r.order.selected_index(), Some(0));
    r.next();
    r.next();
    r.next();
    assert_eq!(r.order.selected_index(), Some(2));
}

#[test]
fn from_paths_drops_later_duplicates_and_truncates() {
    let paths = vec![
        "a".to_string(),
        "b".to_string(),
        "a".to_string(),
        "c".to_string(),
        "d".to_string(),
    ];
    let r = RecentFiles::from_paths(paths, Some(3));
    assert_eq!(paths_of(&r), vec!["a".to_string(), "b".to_string(), "c".to_string()]);
    assert_eq!(r.order.selected_index(), Some(0));
}

#[test]
fn from_paths_of_nothing_selects_nothing() {
    let r = RecentFiles::from_paths(Vec::new(), Some(3));
    assert_eq!(r.order.len(), 0);
    assert_eq!(r.order.selected_index(), None);
}
