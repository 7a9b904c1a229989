use doo::commands;
use doo::commands::{Mode, Screen};
use doo::config::DooConfig;
use doo::doolist::{DooItem, DooList};
use doo::layout::{LayoutHorizontal, LayoutVertical};

#[test]
fn horizontal_from_str_recognises_each_name() {
    assert!(matches!(LayoutHorizontal::from_str("full"), LayoutHorizontal::Full));
    assert!(matches!(LayoutHorizontal::from_str("right"), LayoutHorizontal::Right));
    assert!(matches!(LayoutHorizontal::from_str("left"), LayoutHorizontal::Left));
    assert!(matches!(LayoutHorizontal::from_str("center"), LayoutHorizontal::Center));
    assert!(matches!(LayoutHorizontal::from_str("anything"), LayoutHorizontal::Center));
    assert!(matches!(LayoutHorizontal::from_str(""), LayoutHorizontal::Center));
}

#[test]
fn vertical_from_str_recognises_each_name() {
    assert!(matches!(LayoutVertical::from_str("full"), LayoutVertical::Full));
    assert!(matches!(LayoutVertical::from_str("top"), LayoutVertical::Top));
    assert!(matches!(LayoutVertical::from_str("bottom"), LayoutVertical::Bottom));
    assert!(matches!(LayoutVertical::from_str("middle"), LayoutVertical::Center));
}

#[test]
fn horizontal_constraints_and_block_index() {
    assert_eq!(LayoutHorizontal::Full.constraints(), [100, 0, 0]);
    assert_eq!(LayoutHorizontal::Right.constraints(), [60, 40, 0]);
    assert_eq!(LayoutHorizontal::Center.constraints(), [30, 40, 0]);
    assert_eq!(LayoutHorizontal::Left.constraints(), [40, 60, 0]);
    assert_eq!(LayoutHorizontal::Full.block_index(), 0);
    assert_eq!(LayoutHorizontal::Right.block_index(), 1);
    assert_eq!(LayoutHorizontal::Center.block_index(), 1);
    assert_eq!(LayoutHorizontal::Left.block_index(), 0);
}

#[test]
fn vertical_constraints_and_block_index() {
    assert_eq!(LayoutVertical::Full.constraints(), [100, 0, 0]);
    assert_eq!(LayoutVertical::Top.constraints(), [60, 40, 0]);
    assert_eq!(LayoutVertical::Center.constraints(), [20, 60, 20]);
    assert_eq!(LayoutVertical::Bottom.constraints(), [40, 60, 0]);
    assert_eq!(LayoutVertical::Full.block_index(), 0);
    assert_eq!(LayoutVertical::Top.block_index(), 0);
    assert_eq!(LayoutVertical::Center.block_index(), 1);
    assert_eq!(LayoutVertical::Bottom.block_index(), 1);
}

#[test]
fn default_config_is_centered() {
    let c = DooConfig::default();
    assert_eq!(c.layout.vertical, "middle");
    assert_eq!(c.layout.horizontal, "center");
    assert!(matches!(LayoutVertical::from_str(&c.layout.vertical), LayoutVertical::Center));
    assert!(matches!(
        LayoutHorizontal::from_str(&c.layout.horizontal),
        LayoutHorizontal::Center
    ));
}

#[test]
fn item_new_mark_and_change_label() {
    let mut item = DooItem::new("write tests".to_string(), false);
    assert_eq!(item.label, "write tests");
    assert!(!item.complete);
    item.mark();
    assert!(item.complete);
    item.mark();
    assert!(!item.complete);
    item.change_label("write more tests".to_string());
    assert_eq!(item.label, "write more tests");
}

#[test]
fn command_new_forgets_path_and_replaces_list() {
    let mut list = DooList::new();
    list.add_from_label("a".to_string());
    list.change_name("old".to_string());
    let mut current_path = Some("/tmp/old.json".to_string());
    commands::new(&mut list, &mut current_path);
    assert!(current_path.is_none());
    assert!(list.name.is_none());
    assert_eq!(list.list.len(), 0);
}

#[test]
fn command_rename_sets_the_name_only_when_given() {
    let mut name: Option<String> = None;
    let given = "groceries";
    commands::rename(Some(&given), &mut name);
    assert_eq!(name.as_deref(), Some("groceries"));
    commands::rename(None, &mut name);
    assert_eq!(name.as_deref(), Some("groceries"));
}

#[test]
fn command_help_and_recent_switch_screen_and_mode() {
    let mut screen = Screen::DooList;
    let mut mode = Mode::Command;
    commands::help(&mut screen, &mut mode);
    assert!(matches!(screen, Screen::Help));
    assert!(matches!(mode, Mode::Select));
    let mut mode2 = Mode::Input;
    commands::recent(&mut screen, &mut mode2);
    assert!(matches!(screen, Screen::Recents));
    assert!(matches!(mode2, Mode::Select));
}

#[test]
fn command_quit_raises_the_quit_state() {
    let mut quit_state = false;
    commands::quit(&mut quit_state);
    assert!(quit_state);
}
