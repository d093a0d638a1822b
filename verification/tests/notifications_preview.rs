use fileman::engine::Snapshot;
use fileman::model::{
    FileContent, FileManager, FsEntry, FsEntryType, PreviewContent,
};

fn entry(name: &str, dir: &str, kind: FsEntryType) -> FsEntry {
    FsEntry::new(
        name.to_string(),
        format!("{}/{}", dir, name),
        kind,
        10,
        0o644,
        false,
    )
}

fn manager() -> FileManager {
    let dir = "/tmp/x";
    let snap = Snapshot {
        entries: vec![entry("a.txt", dir, FsEntryType::File)],
        parent_path: Some("/tmp".to_string()),
        parent_entries: vec![entry("x", "/tmp", FsEntryType::Directory)],
    };
    FileManager::new(dir.to_string(), snap)
}

#[test]
fn notifications_carry_their_clock() {
    let mut fm = manager();
    fm.set_notify("hello".to_string(), 41_000);
    let n = fm.notify().unwrap();
    assert_eq!(n.message(), "hello");
    assert_eq!(n.created_at(), 41_000);
    assert_eq!(n.duration(), 3_000);
}

#[test]
fn notifications_expire_after_their_duration() {
    let mut fm = manager();
    fm.show_notification("soon gone".to_string(), 41_000);
    fm.clear_expired_notifications(41_000);
    assert!(fm.notify().is_some());
    fm.clear_expired_notifications(43_999);
    assert!(fm.notify().is_some(), "still within the three seconds");
    fm.clear_expired_notifications(44_000);
    assert!(fm.notify().is_none(), "expired exactly at the duration");
}

#[test]
fn clear_notify_drops_the_message_at_once() {
    let mut fm = manager();
    fm.set_notify("x".to_string(), 0);
    fm.clear_notify();
    assert!(fm.notify().is_none());
}

#[test]
fn failed_listing_surfaces_as_notification_only() {
    let mut fm = manager();
    fm.refresh_current_directory(
        "/tmp/gone".to_string(),
        Err("no such directory".to_string()),
        17,
    );
    assert_eq!(fm.current_path(), "/tmp/x", "the state keeps its last-good configuration");
    assert_eq!(fm.notify().unwrap().message(), "no such directory");
    assert_eq!(fm.notify().unwrap().created_at(), 17);
}

#[test]
fn empty_files_preview_as_placeholder() {
    let mut fm = manager();
    fm.apply_file_preview(0, Ok(String::new()));
    match fm.preview_mut() {
        PreviewContent::File(FileContent::Text(t)) => assert_eq!(t, "Empty File"),
        _ => panic!("expected a text preview"),
    }
}

#[test]
fn text_reads_preview_as_text() {
    let mut fm = manager();
    fm.apply_file_preview(5, Ok("hello".to_string()));
    match fm.preview_mut() {
        PreviewContent::File(FileContent::Text(t)) => assert_eq!(t, "hello"),
        _ => panic!("expected a text preview"),
    }
}

#[test]
fn failed_reads_preview_as_binary_placeholder() {
    let mut fm = manager();
    fm.apply_file_preview(5, Err("stream did not contain valid UTF-8".to_string()));
    match fm.preview_mut() {
        PreviewContent::File(FileContent::Binary(t)) => {
            assert_eq!(t, "stream did not contain valid UTF-8")
        },
        _ => panic!("expected a binary preview"),
    }
}

#[test]
fn directory_preview_lists_children() {
    let mut fm = manager();
    fm.refresh_preview_with_directory(vec![entry("inner", "/tmp/x/b", FsEntryType::File)]);
    match fm.preview_mut() {
        PreviewContent::Directory(items) => {
            assert_eq!(items.len(), 1);
            assert_eq!(items[0].name(), "inner");
        },
        _ => panic!("expected a directory preview"),
    }
}

#[test]
fn directory_preview_reaims_the_parent_panel() {
    let mut fm = manager();
    let child_snap = Snapshot {
        entries: vec![],
        parent_path: Some("/tmp/x".to_string()),
        parent_entries: vec![
            entry("a.txt", "/tmp/x", FsEntryType::File),
            entry("b", "/tmp/x", FsEntryType::Directory),
        ],
    };
    fm.enter_directory("/tmp/x/b".to_string(), Ok(child_snap), 0);
    assert_eq!(fm.parent_view().selection(), Some(0), "the cursor we descended with");
    fm.refresh_preview_with_directory(vec![]);
    assert_eq!(
        fm.parent_view().selection(),
        Some(1),
        "the parent panel highlights the directory we stand in"
    );
}

#[test]
fn entry_accessors_round_trip() {
    let e = FsEntry::new(
        "a.txt".to_string(),
        "/tmp/x/a.txt".to_string(),
        FsEntryType::File,
        42,
        0o600,
        true,
    );
    assert_eq!(e.name(), "a.txt");
    assert_eq!(e.entry_path(), "/tmp/x/a.txt");
    assert_eq!(*e.entry_type(), FsEntryType::File);
    assert_eq!(e.size(), 42);
    assert_eq!(e.file_permission(), 0o600);
    assert!(e.is_selected);
}
