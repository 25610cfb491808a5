use zellij_playbooks::filters::Mode as FilterMode;
use zellij_playbooks::modes::Mode;
use zellij_playbooks::state::{Action, KeyEvent, State};

fn loaded_state(names: &[&str]) -> State {
    let mut s = State::new();
    s.set_files(names.iter().map(|n| n.to_string()).collect());
    s
}

fn visible_files(s: &State) -> Vec<String> {
    s.files_mgr.iter().iter().map(|(_, f)| f.name.clone()).collect()
}

fn visible_lines(s: &State) -> Vec<String> {
    s.playbook_mgr.iter().iter().map(|(_, l)| l.content.clone()).collect()
}

#[test]
fn fresh_state_defaults() {
    let s = State::new();
    assert_eq!(s.mode, Mode::Primary);
    assert_eq!(s.filter_mode, FilterMode::Name);
    assert_eq!(s.filter, "");
    assert_eq!(s.files_mgr.len(), 0);
    assert_eq!(s.playbook_mgr.len(), 0);
    assert!(s.current_file.is_none());
}

#[test]
fn set_files_ranks_names() {
    let s = loaded_state(&["b.txt", "a.txt"]);
    assert_eq!(visible_files(&s), vec!["b.txt", "a.txt"]);
    let pairs = s.files_mgr.iter();
    assert_eq!(pairs[0].1.id, 1);
    assert_eq!(pairs[1].1.id, 2);
}

#[test]
fn quit_event_asks_to_quit() {
    let mut s = loaded_state(&["a"]);
    let (action, render) = s.update(KeyEvent::Quit);
    assert_eq!(action, Action::Quit);
    assert!(!render);
}

#[test]
fn navigation_moves_the_active_list() {
    let mut s = loaded_state(&["a", "b", "c"]);
    let (_, render) = s.update(KeyEvent::Down);
    assert!(render);
    assert_eq!(s.files_mgr.get_position(), 1);
    s.update(KeyEvent::Up);
    s.update(KeyEvent::Up);
    assert_eq!(s.files_mgr.get_position(), 2);
}

#[test]
fn navigation_in_usage_mode_does_nothing() {
    let mut s = loaded_state(&["a", "b"]);
    s.update(KeyEvent::NextMode);
    s.update(KeyEvent::NextMode);
    assert_eq!(s.mode, Mode::Usage);
    let (action, render) = s.update(KeyEvent::Down);
    assert_eq!(action, Action::Nothing);
    assert!(!render);
    assert_eq!(s.files_mgr.get_position(), 0);
}

#[test]
fn mode_keys_walk_the_ring() {
    let mut s = loaded_state(&["a"]);
    s.update(KeyEvent::NextMode);
    assert_eq!(s.mode, Mode::Secondary);
    s.update(KeyEvent::PrevMode);
    assert_eq!(s.mode, Mode::Primary);
    s.update(KeyEvent::PrevMode);
    assert_eq!(s.mode, Mode::Usage);
}

#[test]
fn mode_switch_resets_filter_mode_and_reapplies() {
    let mut s = loaded_state(&["1st", "2nd"]);
    s.update(KeyEvent::SwitchFilterId);
    assert_eq!(s.filter_mode, FilterMode::ID);
    s.update(KeyEvent::NextMode);
    assert_eq!(s.filter_mode, FilterMode::Name);
}

#[test]
fn select_mode_by_digit() {
    let mut s = loaded_state(&["a"]);
    let (_, render) = s.update(KeyEvent::SelectMode('3'));
    assert!(render);
    assert_eq!(s.mode, Mode::Usage);
    let (action, render) = s.update(KeyEvent::SelectMode('3'));
    assert_eq!(s.mode, Mode::Usage);
    assert_eq!(action, Action::Nothing);
    assert!(!render);
    s.update(KeyEvent::SelectMode('9'));
    assert_eq!(s.mode, Mode::Usage);
    s.update(KeyEvent::SelectMode('x'));
    assert_eq!(s.mode, Mode::Usage);
    s.update(KeyEvent::SelectMode('1'));
    assert_eq!(s.mode, Mode::Primary);
}

#[test]
fn typing_filters_files_by_name() {
    let mut s = loaded_state(&["food.txt", "bar.txt", "foobar"]);
    s.update(KeyEvent::Input('f'));
    s.update(KeyEvent::Input('o'));
    s.update(KeyEvent::Input('o'));
    assert_eq!(s.filter, "foo");
    assert_eq!(s.filter_mode, FilterMode::Name);
    assert_eq!(visible_files(&s), vec!["food.txt", "foobar"]);
    assert_eq!(s.files_mgr.get_position(), 0);
}

#[test]
fn first_digit_starts_id_filtering() {
    let mut s = loaded_state(&["a", "b", "c", "d", "e", "f", "g", "h", "i", "j", "k", "l"]);
    s.update(KeyEvent::Input('2'));
    assert_eq!(s.filter_mode, FilterMode::ID);
    assert_eq!(s.filter, "2");
    let kept: Vec<usize> = s.files_mgr.iter().iter().map(|(_, f)| f.id).collect();
    assert_eq!(kept, vec![2]);
}

#[test]
fn id_mode_rejects_letters_and_leading_zero() {
    let mut s = loaded_state(&["a", "b"]);
    let (action, render) = s.update(KeyEvent::Input('0'));
    assert_eq!(action, Action::Nothing);
    assert!(!render);
    assert_eq!(s.filter_mode, FilterMode::ID);
    assert_eq!(s.filter, "");
    s.update(KeyEvent::Input('1'));
    assert_eq!(s.filter, "1");
    let (_, render) = s.update(KeyEvent::Input('x'));
    assert!(!render);
    assert_eq!(s.filter, "1");
    s.update(KeyEvent::Input('0'));
    assert_eq!(s.filter, "10");
}

#[test]
fn backspace_erases_and_refilters() {
    let mut s = loaded_state(&["food.txt", "bar.txt"]);
    s.update(KeyEvent::Input('f'));
    s.update(KeyEvent::Input('o'));
    assert_eq!(visible_files(&s), vec!["food.txt"]);
    s.update(KeyEvent::Backspace);
    s.update(KeyEvent::Backspace);
    assert_eq!(s.filter, "");
    assert_eq!(visible_files(&s), vec!["food.txt", "bar.txt"]);
    let (action, render) = s.update(KeyEvent::Backspace);
    assert_eq!(action, Action::Nothing);
    assert!(render);
    assert_eq!(s.filter, "");
}

#[test]
fn enter_on_a_file_asks_to_load_it() {
    let mut s = loaded_state(&["first", "second"]);
    s.update(KeyEvent::Down);
    let (action, render) = s.update(KeyEvent::Enter);
    assert_eq!(action, Action::LoadFile("second".to_string()));
    assert!(render);
}

#[test]
fn enter_on_an_empty_list_does_nothing() {
    let mut s = loaded_state(&[]);
    let (action, render) = s.update(KeyEvent::Enter);
    assert_eq!(action, Action::Nothing);
    assert!(!render);
}

#[test]
fn open_selected_file_switches_to_playbook() {
    let mut s = loaded_state(&["deploy"]);
    s.update(KeyEvent::Input('d'));
    let raw = vec![
        "# header".to_string(),
        "".to_string(),
        "run one".to_string(),
        "run two".to_string(),
    ];
    s.open_selected_file("deploy".to_string(), raw, true);
    assert_eq!(s.mode, Mode::Secondary);
    assert_eq!(s.filter, "");
    assert_eq!(s.current_file, Some("deploy".to_string()));
    assert_eq!(visible_lines(&s), vec!["run one", "run two"]);
    assert_eq!(s.playbook_mgr.get_position(), 0);
}

#[test]
fn enter_on_a_line_asks_to_write_it() {
    let mut s = loaded_state(&["deploy"]);
    s.open_selected_file("deploy".to_string(), vec!["one".to_string(), "two".to_string()], true);
    s.update(KeyEvent::Down);
    let (action, render) = s.update(KeyEvent::Enter);
    assert_eq!(action, Action::WriteLine("two".to_string()));
    assert!(!render);
}

#[test]
fn edit_asks_to_open_the_right_file() {
    let mut s = loaded_state(&["alpha", "beta"]);
    let (action, _) = s.update(KeyEvent::Edit);
    assert_eq!(action, Action::OpenFile("alpha".to_string()));
    s.open_selected_file("alpha".to_string(), vec!["x".to_string()], true);
    let (action, _) = s.update(KeyEvent::Edit);
    assert_eq!(action, Action::OpenFile("alpha".to_string()));
}

#[test]
fn edit_without_anything_open_does_nothing() {
    let mut s = State::new();
    let (action, render) = s.update(KeyEvent::Edit);
    assert_eq!(action, Action::Nothing);
    assert!(!render);
    s.update(KeyEvent::NextMode);
    let (action, _) = s.update(KeyEvent::Edit);
    assert_eq!(action, Action::Nothing);
}

#[test]
fn reload_asks_for_fresh_files() {
    let mut s = loaded_state(&["a"]);
    let (action, render) = s.update(KeyEvent::Reload);
    assert_eq!(action, Action::ReloadFiles);
    assert!(render);
}

#[test]
fn switch_filter_id_toggles_and_reverts() {
    let mut s = loaded_state(&["a"]);
    s.update(KeyEvent::SwitchFilterId);
    assert_eq!(s.filter_mode, FilterMode::ID);
    s.update(KeyEvent::SwitchFilterId);
    assert_eq!(s.filter_mode, FilterMode::Name);
    s.update(KeyEvent::SwitchFilterId);
    assert_eq!(s.filter_mode, FilterMode::ID);
}

#[test]
fn typing_in_usage_mode_changes_nothing() {
    let mut s = loaded_state(&["a"]);
    s.update(KeyEvent::NextMode);
    s.update(KeyEvent::NextMode);
    assert_eq!(s.mode, Mode::Usage);
    let (action, render) = s.update(KeyEvent::Input('a'));
    assert_eq!(action, Action::Nothing);
    assert!(!render);
    assert_eq!(s.filter, "");
    let (_, render) = s.update(KeyEvent::Backspace);
    assert!(!render);
}

#[test]
fn mode_switch_clears_filter_text_and_refilters() {
    let mut s = loaded_state(&["one", "two"]);
    s.update(KeyEvent::Input('n'));
    assert_eq!(visible_files(&s), vec!["one"]);
    s.update(KeyEvent::NextMode);
    assert_eq!(s.mode, Mode::Secondary);
    assert_eq!(s.filter, "");
    s.update(KeyEvent::PrevMode);
    assert_eq!(s.mode, Mode::Primary);
    assert_eq!(s.filter, "");
    assert_eq!(visible_files(&s), vec!["one", "two"]);
}

#[test]
fn select_mode_clears_filter_text() {
    let mut s = loaded_state(&["alpha", "beta"]);
    s.update(KeyEvent::Input('a'));
    s.update(KeyEvent::Input('l'));
    assert_eq!(visible_files(&s), vec!["alpha"]);
    s.update(KeyEvent::SelectMode('3'));
    assert_eq!(s.mode, Mode::Usage);
    assert_eq!(s.filter, "");
    s.update(KeyEvent::SelectMode('1'));
    assert_eq!(visible_files(&s), vec!["alpha", "beta"]);
}
