use fileman::engine::{ChildTarget, PreviewRequest, Snapshot};
use fileman::keys::{EngineCommand, Key};
use fileman::model::{FileManager, FsEntry, FsEntryType, InteractionMode, PopupType};

fn entry(name: &str, dir: &str, kind: FsEntryType) -> FsEntry {
    FsEntry::new(
        name.to_string(),
        format!("{}/{}", dir, name),
        kind,
        10,
        0o644,
        false,
    )
}

fn three_entry_manager() -> FileManager {
    let dir = "/tmp/x";
    let snap = Snapshot {
        entries: vec![
            entry("a.txt", dir, FsEntryType::File),
            entry("b", dir, FsEntryType::Directory),
            entry("c.txt", dir, FsEntryType::File),
        ],
        parent_path: Some("/tmp".to_string()),
        parent_entries: vec![entry("x", "/tmp", FsEntryType::Directory)],
    };
    FileManager::new(dir.to_string(), snap)
}

#[test]
fn cursor_starts_at_top() {
    let fm = three_entry_manager();
    assert_eq!(fm.selection(), Some(0));
    assert_eq!(fm.current_path(), "/tmp/x");
    assert_eq!(fm.entries().len(), 3);
}

#[test]
fn cursor_wraps_down_at_end() {
    let mut fm = three_entry_manager();
    fm.navigate_down();
    fm.navigate_down();
    assert_eq!(fm.selection(), Some(2));
    fm.navigate_down();
    assert_eq!(fm.selection(), Some(0));
}

#[test]
fn cursor_wraps_up_at_start() {
    let mut fm = three_entry_manager();
    assert_eq!(fm.selection(), Some(0));
    fm.navigate_up();
    assert_eq!(fm.selection(), Some(2));
    fm.navigate_up();
    assert_eq!(fm.selection(), Some(1));
}

#[test]
fn cursor_stays_in_bounds_over_any_walk() {
    let mut fm = three_entry_manager();
    let moves = [true, true, false, true, true, true, false, false, false, true];
    for &down in moves.iter() {
        if down {
            fm.navigate_down();
        } else {
            fm.navigate_up();
        }
        let i = fm.selection().unwrap();
        assert!(i < fm.entries().len());
    }
}

#[test]
fn multiselect_move_flags_the_entry_it_leaves() {
    let mut fm = three_entry_manager();
    fm.set_mode(InteractionMode::MultiSelect);
    fm.navigate_down();
    assert!(fm.entries()[0].is_selected);
    assert!(!fm.entries()[1].is_selected);
    assert_eq!(fm.selection(), Some(1));
}

#[test]
fn select_current_only_in_multiselect() {
    let mut fm = three_entry_manager();
    fm.select_current();
    assert!(!fm.entries()[0].is_selected);
    fm.set_mode(InteractionMode::MultiSelect);
    fm.select_current();
    assert!(fm.entries()[0].is_selected);
}

#[test]
fn preview_request_follows_cursor_kind() {
    let mut fm = three_entry_manager();
    assert!(matches!(fm.preview_request(), PreviewRequest::File(p) if p == "/tmp/x/a.txt"));
    fm.navigate_down();
    assert!(matches!(fm.preview_request(), PreviewRequest::Directory(p) if p == "/tmp/x/b"));
}

#[test]
fn child_target_descends_only_into_directories() {
    let mut fm = three_entry_manager();
    assert!(matches!(fm.navigate_to_child_target(), ChildTarget::Stay));
    fm.navigate_down();
    assert!(matches!(fm.navigate_to_child_target(), ChildTarget::Descend(p) if p == "/tmp/x/b"));
}

#[test]
fn round_trip_navigation_restores_path_and_cursor() {
    let mut fm = three_entry_manager();
    fm.navigate_down();
    assert_eq!(fm.selection(), Some(1));

    let child = match fm.navigate_to_child_target() {
        ChildTarget::Descend(p) => p,
        _ => panic!("expected a directory under the cursor"),
    };
    let child_snap = Snapshot {
        entries: vec![entry("inner.txt", "/tmp/x/b", FsEntryType::File)],
        parent_path: Some("/tmp/x".to_string()),
        parent_entries: vec![
            entry("a.txt", "/tmp/x", FsEntryType::File),
            entry("b", "/tmp/x", FsEntryType::Directory),
            entry("c.txt", "/tmp/x", FsEntryType::File),
        ],
    };
    fm.enter_directory(child.clone(), Ok(child_snap), 0);
    assert_eq!(fm.current_path(), "/tmp/x/b");
    assert_eq!(fm.selection(), Some(0));

    let parent = fm.navigate_to_parent_target().expect("not at the root");
    assert_eq!(parent, "/tmp/x");
    let parent_snap = Snapshot {
        entries: vec![
            entry("a.txt", "/tmp/x", FsEntryType::File),
            entry("b", "/tmp/x", FsEntryType::Directory),
            entry("c.txt", "/tmp/x", FsEntryType::File),
        ],
        parent_path: Some("/tmp".to_string()),
        parent_entries: vec![entry("x", "/tmp", FsEntryType::Directory)],
    };
    fm.return_to_parent(Ok(parent_snap), 0);
    assert_eq!(fm.current_path(), "/tmp/x");
    assert_eq!(fm.selection(), Some(1));
}

#[test]
fn failed_descent_only_notifies() {
    let mut fm = three_entry_manager();
    fm.navigate_down();
    fm.enter_directory("/tmp/x/b".to_string(), Err("permission denied".to_string()), 7);
    assert_eq!(fm.current_path(), "/tmp/x");
    assert_eq!(fm.selection(), Some(1));
    assert_eq!(fm.notify().unwrap().message(), "permission denied");
}

#[test]
fn return_to_parent_is_noop_at_root() {
    let snap = Snapshot {
        entries: vec![entry("bin", "/", FsEntryType::Directory)],
        parent_path: None,
        parent_entries: vec![],
    };
    let mut fm = FileManager::new("/".to_string(), snap);
    assert!(fm.navigate_to_parent_target().is_none());
    fm.return_to_parent(
        Ok(Snapshot { entries: vec![], parent_path: None, parent_entries: vec![] }),
        0,
    );
    assert_eq!(fm.current_path(), "/");
    assert_eq!(fm.entries().len(), 1);
}

#[test]
fn parent_panel_highlights_where_we_stand() {
    let fm = three_entry_manager();
    assert_eq!(fm.parent_view().selection(), Some(0));
    assert_eq!(fm.parent_view().entries()[0].name(), "x");
}

#[test]
fn toggle_confirmation_needs_entries() {
    let snap = Snapshot { entries: vec![], parent_path: None, parent_entries: vec![] };
    let mut fm = FileManager::new("/".to_string(), snap);
    fm.toggle_confirmation_popup();
    assert_eq!(fm.popup(), PopupType::Closed);

    let mut fm2 = three_entry_manager();
    fm2.toggle_confirmation_popup();
    assert_eq!(fm2.popup(), PopupType::Confirm);
    fm2.toggle_confirmation_popup();
    assert_eq!(fm2.popup(), PopupType::Closed);
}

#[test]
fn keyboard_navigation_matches_engine_steps() {
    let mut fm = three_entry_manager();
    assert_eq!(fm.process_key(Key::Char('j')), EngineCommand::RefreshPreview);
    assert_eq!(fm.selection(), Some(1));
    assert_eq!(fm.process_key(Key::Char('k')), EngineCommand::RefreshPreview);
    assert_eq!(fm.selection(), Some(0));
    assert_eq!(fm.process_key(Key::Char('q')), EngineCommand::Quit);
    assert_eq!(fm.process_key(Key::Char('h')), EngineCommand::GoToParent);
    assert_eq!(fm.process_key(Key::Char('l')), EngineCommand::GoToChild);
}

#[test]
fn keyboard_popup_capture_and_editing() {
    let mut fm = three_entry_manager();
    assert_eq!(fm.process_key(Key::Char('a')), EngineCommand::Nothing);
    assert_eq!(fm.popup(), PopupType::Create);
    for c in "c/d.txt".chars() {
        assert_eq!(fm.process_key(Key::Char(c)), EngineCommand::Nothing);
    }
    assert_eq!(fm.input_buffer(), "c/d.txt");
    assert_eq!(fm.process_key(Key::Backspace), EngineCommand::Nothing);
    assert_eq!(fm.input_buffer(), "c/d.tx");
    assert_eq!(fm.selection(), Some(0), "navigation keys are captured by the popup");
    assert_eq!(fm.process_key(Key::Enter), EngineCommand::SubmitCreate);
    assert_eq!(fm.process_key(Key::Esc), EngineCommand::Nothing);
    assert_eq!(fm.popup(), PopupType::Closed);
}

#[test]
fn keyboard_confirm_popup_dispatch() {
    let mut fm = three_entry_manager();
    assert_eq!(fm.process_key(Key::Char('d')), EngineCommand::Nothing);
    assert_eq!(fm.popup(), PopupType::Confirm);
    assert_eq!(fm.process_key(Key::Char('j')), EngineCommand::Nothing);
    assert_eq!(fm.selection(), Some(0), "confirm popup suppresses navigation");
    assert_eq!(fm.process_key(Key::Char('y')), EngineCommand::DeleteOne);
    assert_eq!(fm.process_key(Key::Char('n')), EngineCommand::Nothing);
    assert_eq!(fm.popup(), PopupType::Closed);

    fm.set_mode(InteractionMode::MultiSelect);
    fm.process_key(Key::Char('d'));
    assert_eq!(fm.process_key(Key::Char('y')), EngineCommand::DeleteMany);
}

#[test]
fn keyboard_multiselect_entry_and_exit() {
    let mut fm = three_entry_manager();
    assert_eq!(fm.process_key(Key::Char('v')), EngineCommand::Nothing);
    assert_eq!(fm.mode(), InteractionMode::MultiSelect);
    assert!(fm.entries()[0].is_selected, "entering multi-select seeds a selection");
    assert_eq!(fm.process_key(Key::Esc), EngineCommand::Nothing);
    assert_eq!(fm.mode(), InteractionMode::Normal);
    assert!(fm.entries()[0].is_selected, "leaving multi-select keeps selections");
}

#[test]
fn keyboard_escape_deselects_in_normal_mode() {
    let mut fm = three_entry_manager();
    fm.process_key(Key::Char('v'));
    fm.process_key(Key::Esc);
    assert_eq!(fm.process_key(Key::Esc), EngineCommand::Resnapshot);
    assert!(!fm.entries()[0].is_selected);
}

#[test]
fn rename_popup_needs_entries() {
    let snap = Snapshot { entries: vec![], parent_path: None, parent_entries: vec![] };
    let mut fm = FileManager::new("/".to_string(), snap);
    fm.process_key(Key::Char('r'));
    assert_eq!(fm.popup(), PopupType::Closed);

    let mut fm2 = three_entry_manager();
    fm2.process_key(Key::Char('r'));
    assert_eq!(fm2.popup(), PopupType::Rename);
}
