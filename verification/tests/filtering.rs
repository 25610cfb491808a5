use zellij_playbooks::file_picker::FileItem;
use zellij_playbooks::filters::{FileFilter, Filter, Mode, PlaybookFilter};
use zellij_playbooks::playbook::PlaybookLine;
use zellij_playbooks::tab_manager::TabManager;

fn files(names: &[&str]) -> Vec<FileItem> {
    names
        .iter()
        .enumerate()
        .map(|(i, n)| FileItem::new(i + 1, n.to_string()))
        .collect()
}

fn names_of(m: &TabManager<FileItem>) -> Vec<String> {
    m.iter().iter().map(|(_, f)| f.name.clone()).collect()
}

#[test]
fn name_filter_keeps_substring_matches() {
    let f = FileFilter::new(Mode::Name, "foo".to_string());
    assert!(f.keep(&FileItem::new(1, "food.txt".to_string())));
    assert!(!f.keep(&FileItem::new(2, "bar.txt".to_string())));
    assert!(f.keep(&FileItem::new(3, "foobar".to_string())));
}

#[test]
fn name_filter_is_case_sensitive() {
    let f = FileFilter::new(Mode::Name, "Foo".to_string());
    assert!(!f.keep(&FileItem::new(1, "food.txt".to_string())));
    assert!(f.keep(&FileItem::new(2, "Food.txt".to_string())));
}

#[test]
fn name_filter_empty_text_keeps_all() {
    let f = FileFilter::new(Mode::Name, String::new());
    assert!(f.keep(&FileItem::new(1, "anything".to_string())));
    assert!(f.keep(&FileItem::new(2, String::new())));
}

#[test]
fn id_filter_empty_text_keeps_all() {
    let f = FileFilter::new(Mode::ID, String::new());
    assert!(f.keep(&FileItem::new(1, "a".to_string())));
    assert!(f.keep(&FileItem::new(987654, "b".to_string())));
}

#[test]
fn id_filter_matches_decimal_prefix() {
    let f = FileFilter::new(Mode::ID, "2".to_string());
    let kept: Vec<usize> = [1usize, 2, 12, 21, 23]
        .iter()
        .filter(|id| f.keep(&FileItem::new(**id, "x".to_string())))
        .copied()
        .collect();
    assert_eq!(kept, vec![2, 21, 23]);
}

#[test]
fn id_filter_is_prefix_not_substring() {
    let f = FileFilter::new(Mode::ID, "2".to_string());
    assert!(!f.keep(&FileItem::new(12, "x".to_string())));
    assert!(f.keep(&FileItem::new(21, "x".to_string())));
}

#[test]
fn id_filter_longer_prefix() {
    let f = FileFilter::new(Mode::ID, "12".to_string());
    assert!(f.keep(&FileItem::new(12, "x".to_string())));
    assert!(f.keep(&FileItem::new(123, "x".to_string())));
    assert!(!f.keep(&FileItem::new(21, "x".to_string())));
    assert!(!f.keep(&FileItem::new(1, "x".to_string())));
}

#[test]
fn id_filter_non_digit_text_keeps_nothing() {
    let f = FileFilter::new(Mode::ID, "x".to_string());
    assert!(!f.keep(&FileItem::new(1, "x".to_string())));
}

#[test]
fn playbook_filter_by_name_and_id() {
    let by_name = PlaybookFilter::new(Mode::Name, "echo".to_string());
    assert!(by_name.keep(&PlaybookLine::new(1, "echo hello".to_string())));
    assert!(!by_name.keep(&PlaybookLine::new(2, "ls -la".to_string())));
    let by_id = PlaybookFilter::new(Mode::ID, "1".to_string());
    assert!(by_id.keep(&PlaybookLine::new(1, "a".to_string())));
    assert!(by_id.keep(&PlaybookLine::new(12, "a".to_string())));
    assert!(!by_id.keep(&PlaybookLine::new(2, "a".to_string())));
}

#[test]
fn with_filter_keeps_origin_order_and_resets_selection() {
    let mut m = TabManager::new(files(&["food.txt", "bar.txt", "foobar", "foo"]));
    m.select_down();
    m.select_down();
    let f = FileFilter::new(Mode::Name, "foo".to_string());
    m.with_filter(&f);
    assert_eq!(m.get_position(), 0);
    assert_eq!(names_of(&m), vec!["food.txt", "foobar", "foo"]);
}

#[test]
fn with_filter_recomputes_from_origin_not_working() {
    let mut m = TabManager::new(files(&["food.txt", "bar.txt", "foobar"]));
    let narrow = FileFilter::new(Mode::Name, "foobar".to_string());
    m.with_filter(&narrow);
    assert_eq!(m.len(), 1);
    let wide = FileFilter::new(Mode::Name, "foo".to_string());
    m.with_filter(&wide);
    assert_eq!(names_of(&m), vec!["food.txt", "foobar"]);
}

#[test]
fn with_filter_applied_twice_is_stable() {
    let mut m = TabManager::new(files(&["food.txt", "bar.txt", "foobar"]));
    let f = FileFilter::new(Mode::Name, "foo".to_string());
    m.with_filter(&f);
    let once = names_of(&m);
    m.select_down();
    m.with_filter(&f);
    assert_eq!(m.get_position(), 0);
    assert_eq!(names_of(&m), once);
}

#[test]
fn with_filter_empty_text_restores_everything() {
    let mut m = TabManager::new(files(&["a", "b", "c"]));
    let narrow = FileFilter::new(Mode::Name, "a".to_string());
    m.with_filter(&narrow);
    assert_eq!(m.len(), 1);
    let all = FileFilter::new(Mode::Name, String::new());
    m.with_filter(&all);
    assert_eq!(names_of(&m), vec!["a", "b", "c"]);
}

#[test]
fn with_filter_can_empty_the_working_view() {
    let mut m = TabManager::new(files(&["a", "b"]));
    let none = FileFilter::new(Mode::Name, "zzz".to_string());
    m.with_filter(&none);
    assert_eq!(m.len(), 0);
    assert_eq!(m.get_position(), 0);
    assert!(m.get_selected().is_none());
}

#[test]
fn switch_to_toggles_and_reverts() {
    let start = Mode::default();
    assert_eq!(start, Mode::Name);
    let a = start.switch_to(Mode::ID);
    assert_eq!(a, Mode::ID);
    let b = a.switch_to(Mode::ID);
    assert_eq!(b, Mode::Name);
    let c = b.switch_to(Mode::ID);
    assert_eq!(c, Mode::ID);
}
