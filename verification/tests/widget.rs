use bitgeon::file_processing::PathState;
use bitgeon::widget::Key;
use bitgeon::widget::ScrollList;
use bitgeon::widget::StyledFilePath;
use bitgeon::widget::StyledPathList;

fn list_of(raws: &[&str]) -> StyledPathList {
    let mut entries = Vec::new();
    for raw in raws {
        entries.push(StyledFilePath::new(raw));
    }
    let mut list = StyledPathList::new("files:".to_string(), entries);
    list.select_first();
    list
}

#[test]
fn scroll_list_wraps_both_ways() {
    let options = vec!["a".to_string(), "b".to_string(), "c".to_string()];
    let mut menu = ScrollList::new("menu".to_string(), options);
    assert_eq!(menu.state.selected, None);
    menu.next();
    assert_eq!(menu.state.selected, Some(0));
    menu.previous();
    assert_eq!(menu.state.selected, Some(2));
    menu.next();
    assert_eq!(menu.state.selected, Some(0));
    menu.next();
    assert_eq!(menu.state.selected, Some(1));
}

#[test]
fn styling_marks_each_state() {
    let mut file = StyledFilePath::new("/x");
    file.state = PathState::File;
    file.style();
    assert_eq!(file.display_path, "\u{2714}  /x");

    let mut invalid = StyledFilePath::new("/x");
    invalid.state = PathState::Invalid;
    invalid.style();
    assert_eq!(invalid.display_path, "\u{274c} /x");

    let mut one = StyledFilePath::new("/d");
    one.state = PathState::Directory(1);
    one.style();
    assert_eq!(one.display_path, "\u{2714}  /d | 1 Accessible item");

    let mut many = StyledFilePath::new("/d");
    many.state = PathState::Directory(42);
    many.style();
    assert_eq!(many.display_path, "\u{2714}  /d | 42 Accessible items");

    let mut unchecked = StyledFilePath::new("/d");
    unchecked.style();
    assert_eq!(unchecked.display_path, "/d");
}

#[test]
fn editing_appends_pops_and_resets_state() {
    let mut entry = StyledFilePath::new("/x");
    entry.state = PathState::File;
    entry.edit(&Key::Char('y'));
    assert_eq!(entry.path, "/xy");
    assert_eq!(entry.state, PathState::Unchecked);
    assert_eq!(entry.display_path, "   /xy");
    entry.edit(&Key::Backspace);
    entry.edit(&Key::Backspace);
    assert_eq!(entry.path, "/");
    entry.edit(&Key::Char('\u{e2}'));
    assert_eq!(entry.path, "/\\");
}

#[test]
fn delete_never_empties_the_list() {
    let mut list = list_of(&["only"]);
    for _ in 0..3 {
        list.edit_selected(&Key::Delete).unwrap();
        assert_eq!(list.paths.len(), 1);
        assert_eq!(list.state.selected, Some(0));
    }
    assert_eq!(list.paths[0].path, "");
    assert_eq!(list.paths[0].state, PathState::Unchecked);
}

#[test]
fn delete_clamps_the_cursor() {
    let mut list = list_of(&["a", "b"]);
    list.edit_selected(&Key::Esc).unwrap();
    list.edit_selected(&Key::Down).unwrap();
    assert_eq!(list.state.selected, Some(1));
    list.edit_selected(&Key::Delete).unwrap();
    assert_eq!(list.paths.len(), 1);
    assert_eq!(list.state.selected, Some(0));
    assert_eq!(list.paths[0].path, "a");
}

#[test]
fn next_reparses_single_unchecked_entry() {
    let mut list = list_of(&["/a;/b"]);
    assert_eq!(list.paths[0].state, PathState::Unchecked);
    list.next().unwrap();
    assert_eq!(list.paths.len(), 2);
    assert_eq!(list.paths[0].path, "/a");
    assert_eq!(list.paths[1].path, "/b");
    for entry in &list.paths {
        assert!(!matches!(entry.state, PathState::Unchecked));
    }
    let cursor = list.state.selected.unwrap();
    assert!(cursor < list.paths.len());
    assert_eq!(cursor, 0);
}

#[test]
fn previous_reparses_single_unchecked_entry() {
    let mut list = list_of(&["/a;/b"]);
    list.previous().unwrap();
    assert_eq!(list.paths.len(), 2);
    for entry in &list.paths {
        assert!(!matches!(entry.state, PathState::Unchecked));
    }
    let cursor = list.state.selected.unwrap();
    assert!(cursor < list.paths.len());
    assert_eq!(cursor, 1);
}

#[test]
fn export_classifies_and_is_stable() {
    let mut list = list_of(&["alpha", "beta"]);
    let first = list.export().unwrap();
    let second = list.export().unwrap();
    assert_eq!(first.paths.len(), second.paths.len());
    for (a, b) in first.paths.iter().zip(second.paths.iter()) {
        assert_eq!(a.path, b.path);
        assert_eq!(a.state, b.state);
    }
}

#[test]
fn export_returns_independent_copy() {
    let mut list = list_of(&["alpha"]);
    let copy = list.export().unwrap();
    list.edit_selected(&Key::Char('x')).unwrap();
    assert_eq!(copy.paths[0].path, "alpha");
    assert_eq!(list.paths[0].path, "alphax");
}

#[test]
fn confirm_opens_fresh_entry_in_place() {
    let mut list = list_of(&["gamma"]);
    list.edit_selected(&Key::Enter).unwrap();
    assert_eq!(list.paths.len(), 2);
    assert_eq!(list.state.selected, Some(0));
    assert_eq!(list.paths[0].path, "");
    assert_eq!(list.paths[0].state, PathState::Unchecked);
    assert_eq!(list.paths[1].path, "gamma");
    assert!(!matches!(list.paths[1].state, PathState::Unchecked));
}

#[test]
fn escape_forces_a_full_reparse_of_the_entry() {
    let mut list = list_of(&["/x; /y"]);
    list.edit_selected(&Key::Esc).unwrap();
    assert_eq!(list.paths.len(), 2);
    assert_eq!(list.paths[0].path, "/x");
    assert_eq!(list.paths[1].path, "/y");
    for entry in &list.paths {
        assert!(!matches!(entry.state, PathState::Unchecked));
    }
}

#[test]
fn empty_entry_parses_to_invalid() {
    let mut list = list_of(&[""]);
    list.edit_selected(&Key::Esc).unwrap();
    assert_eq!(list.paths.len(), 1);
    assert_eq!(list.paths[0].state, PathState::Invalid);
}

#[test]
fn get_styled_paths_reflects_display_strings() {
    let mut list = list_of(&["p", "q"]);
    list.edit_selected(&Key::Esc).unwrap();
    let styled = list.get_styled_paths();
    assert_eq!(styled.len(), list.paths.len());
    for (text, entry) in styled.iter().zip(list.paths.iter()) {
        assert_eq!(text, &entry.display_path);
    }
}
