//! End-to-end scenarios against a real filesystem under `/tmp`, driven
//! the way an interactive caller would drive the engine.

use std::io::Write;

use fileman::engine::{ChildTarget, PreviewRequest, Snapshot};
use fileman::keys::{EngineCommand, Key};
use fileman::model::{
    Action, FileContent, FileManager, FsEntry, FsEntryType, PopupType, PreviewContent,
};
use fileman::paths::parent_path_of;

fn rt() -> tokio::runtime::Runtime {
    tokio::runtime::Builder::new_current_thread().enable_all().build().unwrap()
}

async fn list_sorted(path: &str) -> Result<Vec<FsEntry>, String> {
    let mut found: Vec<(String, FsEntryType, u64)> = Vec::new();
    let mut rd = tokio::fs::read_dir(path).await.map_err(|e| e.to_string())?;
    while let Some(ent) = rd.next_entry().await.map_err(|e| e.to_string())? {
        let name = ent.file_name().into_string().unwrap();
        let meta = ent.metadata().await.map_err(|e| e.to_string())?;
        let kind = if meta.is_dir() {
            FsEntryType::Directory
        } else if meta.file_type().is_symlink() {
            FsEntryType::Symlink
        } else {
            FsEntryType::File
        };
        found.push((name, kind, meta.len()));
    }
    found.sort_by(|a, b| a.0.cmp(&b.0));
    Ok(found
        .into_iter()
        .map(|(name, kind, len)| {
            let p = format!("{}/{}", path, name);
            FsEntry::new(name, p, kind, len, 0, false)
        })
        .collect())
}

async fn snapshot_of(path: &str) -> Result<Snapshot, String> {
    let entries = list_sorted(path).await?;
    let parent_path = parent_path_of(path);
    let parent_entries = match &parent_path {
        Some(p) => list_sorted(p).await?,
        None => Vec::new(),
    };
    Ok(Snapshot { entries, parent_path, parent_entries })
}

async fn fresh_dir(name: &str) -> String {
    let path = format!("/tmp/fileman_test_{}", name);
    let _ = tokio::fs::remove_dir_all(&path).await;
    tokio::fs::create_dir_all(&path).await.unwrap();
    path
}

/// Drive one create request end to end, the way the caller does after
/// `SubmitCreate`.
async fn drive_create(fm: &mut FileManager, input: &str, now: u64) {
    let plan = match fm.create_entry_plan(input) {
        Some(p) => p,
        None => return,
    };
    if let Err(e) = tokio::fs::create_dir_all(&plan.intermediate).await {
        fm.create_intermediate_failed(&e.to_string(), now);
        return;
    }
    let made = if plan.is_directory {
        tokio::fs::create_dir_all(&plan.target).await.map_err(|e| e.to_string())
    } else {
        tokio::fs::OpenOptions::new()
            .write(true)
            .create_new(true)
            .open(&plan.target)
            .await
            .map(|_| ())
            .map_err(|e| e.to_string())
    };
    match made {
        Ok(()) => {
            let cur = fm.current_path().to_string();
            let snap = snapshot_of(&cur).await;
            fm.on_create_success(snap, now);
        },
        Err(e) => fm.create_final_failed(e, now),
    }
}

#[test]
fn scenario_browse_and_create() {
    rt().block_on(async {
        let dir = fresh_dir("scenario").await;
        tokio::fs::write(format!("{}/a.txt", dir), b"0123456789").await.unwrap();
        tokio::fs::create_dir(format!("{}/b", dir)).await.unwrap();

        let mut fm = FileManager::new(dir.clone(), snapshot_of(&dir).await.unwrap());
        assert_eq!(fm.entries().len(), 2);
        assert_eq!(fm.entries()[0].name(), "a.txt");
        assert_eq!(fm.entries()[1].name(), "b");
        assert_eq!(fm.selection(), Some(0));

        // The preview of the entry under the cursor: a readable file.
        match fm.preview_request() {
            PreviewRequest::File(p) => {
                let size = tokio::fs::metadata(&p).await.unwrap().len();
                let read = tokio::fs::read_to_string(&p).await.map_err(|e| e.to_string());
                fm.apply_file_preview(size, read);
            },
            _ => panic!("expected a file preview request"),
        }
        match fm.preview_mut() {
            PreviewContent::File(FileContent::Text(t)) => assert_eq!(t, "0123456789"),
            _ => panic!("expected the file's text"),
        }
        assert!(fm.notify().is_none(), "a readable file leaves no notification");

        // `l` on a file is a no-op.
        assert_eq!(fm.process_key(Key::Char('l')), EngineCommand::GoToChild);
        assert!(matches!(fm.navigate_to_child_target(), ChildTarget::Stay));
        assert_eq!(fm.current_path(), dir);
        assert_eq!(fm.selection(), Some(0));

        // `j` moves to the empty directory; its preview lists nothing.
        assert_eq!(fm.process_key(Key::Char('j')), EngineCommand::RefreshPreview);
        assert_eq!(fm.selection(), Some(1));
        match fm.preview_request() {
            PreviewRequest::Directory(p) => {
                let items = list_sorted(&p).await.unwrap();
                fm.refresh_preview_with_directory(items);
            },
            _ => panic!("expected a directory preview request"),
        }
        match fm.preview_mut() {
            PreviewContent::Directory(items) => assert!(items.is_empty()),
            _ => panic!("expected an empty directory preview"),
        }

        // `a`, then `c/d.txt`, then enter: both levels come into being.
        assert_eq!(fm.process_key(Key::Char('a')), EngineCommand::Nothing);
        assert_eq!(fm.popup(), PopupType::Create);
        for c in "c/d.txt".chars() {
            fm.process_key(Key::Char(c));
        }
        assert_eq!(fm.process_key(Key::Enter), EngineCommand::SubmitCreate);
        let input = fm.input_buffer().to_string();
        drive_create(&mut fm, &input, 1).await;

        assert!(tokio::fs::metadata(format!("{}/c", dir)).await.unwrap().is_dir());
        let d = tokio::fs::metadata(format!("{}/c/d.txt", dir)).await.unwrap();
        assert!(d.is_file());
        assert_eq!(d.len(), 0, "the created file is empty");
        assert_eq!(fm.popup(), PopupType::Closed);
        assert_eq!(fm.input_buffer(), "");
        let names: Vec<&str> = fm.entries().iter().map(|e| e.name()).collect();
        assert_eq!(names, ["a.txt", "b", "c"]);

        let _ = tokio::fs::remove_dir_all(&dir).await;
    });
}

#[test]
fn create_twice_fails_only_on_the_final_file() {
    rt().block_on(async {
        let dir = fresh_dir("create_twice").await;
        let mut fm = FileManager::new(dir.clone(), snapshot_of(&dir).await.unwrap());

        drive_create(&mut fm, "a/b/c.txt", 1).await;
        assert!(fm.notify().is_none(), "the first create runs clean");
        assert!(tokio::fs::metadata(format!("{}/a/b/c.txt", dir)).await.is_ok());

        drive_create(&mut fm, "a/b/c.txt", 2).await;
        let n = fm.notify().expect("recreating the existing file is surfaced");
        assert!(
            !n.message().starts_with("Error creating directories:"),
            "the second call's intermediate directories do not error: {}",
            n.message()
        );
        assert!(tokio::fs::metadata(format!("{}/a/b/c.txt", dir)).await.is_ok());

        let _ = tokio::fs::remove_dir_all(&dir).await;
    });
}

/// Drive one paste end to end for file sources, the way the caller does
/// after `Paste`.
async fn drive_paste(fm: &mut FileManager, now: u64) {
    let action = fm.clipboard_actions();
    let plan = fm.paste_plan();
    for item in plan {
        let meta = match tokio::fs::metadata(&item.src).await {
            Ok(m) => m,
            Err(_) => continue,
        };
        if meta.is_file() {
            match action {
                Action::Move => {
                    let copied = tokio::fs::copy(&item.src, &item.dst)
                        .await
                        .map(|_| ())
                        .map_err(|e| e.to_string());
                    if FileManager::move_delete_permitted(&copied) {
                        if let Err(e) = tokio::fs::remove_file(&item.src).await {
                            fm.show_notification(e.to_string(), now);
                        }
                    } else if let Err(e) = copied {
                        fm.show_notification(e, now);
                    }
                },
                Action::Copy => {
                    if let Err(e) = tokio::fs::copy(&item.src, &item.dst).await {
                        fm.show_notification(e.to_string(), now);
                    }
                },
                Action::Idle => {},
            }
        }
    }
    let cur = fm.current_path().to_string();
    let snap = snapshot_of(&cur).await;
    fm.paste_finish(snap, now);
}

#[test]
fn move_leaves_the_source_gone_and_the_bytes_intact() {
    rt().block_on(async {
        let src_dir = fresh_dir("move_src").await;
        let dst_dir = fresh_dir("move_dst").await;
        tokio::fs::write(format!("{}/f.txt", src_dir), b"payload bytes").await.unwrap();

        let mut fm = FileManager::new(src_dir.clone(), snapshot_of(&src_dir).await.unwrap());
        fm.move_selected_entries();
        assert_eq!(fm.clipboard().get_path().as_slice(), [format!("{}/f.txt", src_dir)]);

        fm.refresh_current_directory(dst_dir.clone(), snapshot_of(&dst_dir).await, 0);
        drive_paste(&mut fm, 1).await;

        assert!(
            tokio::fs::metadata(format!("{}/f.txt", src_dir)).await.is_err(),
            "the source is gone"
        );
        let moved = tokio::fs::read(format!("{}/f.txt", dst_dir)).await.unwrap();
        assert_eq!(moved, b"payload bytes", "the destination is byte-identical");
        assert_eq!(fm.clipboard_actions(), Action::Idle);

        let _ = tokio::fs::remove_dir_all(&src_dir).await;
        let _ = tokio::fs::remove_dir_all(&dst_dir).await;
    });
}

#[test]
fn failed_move_copy_leaves_the_source_untouched() {
    rt().block_on(async {
        let src_dir = fresh_dir("move_fail_src").await;
        tokio::fs::write(format!("{}/g.txt", src_dir), b"keep me").await.unwrap();

        let mut fm = FileManager::new(src_dir.clone(), snapshot_of(&src_dir).await.unwrap());
        fm.move_selected_entries();

        // Aim the paste at a directory that does not exist: the copy
        // fails, so the delete of the source is never attempted.
        let _ = tokio::fs::remove_dir_all("/tmp/fileman_test_missing").await;
        fm.set_current_path("/tmp/fileman_test_missing".to_string());
        drive_paste(&mut fm, 1).await;

        let kept = tokio::fs::read(format!("{}/g.txt", src_dir)).await.unwrap();
        assert_eq!(kept, b"keep me", "a failed copy aborts the delete");
        assert!(fm.notify().is_some(), "the failure is surfaced");

        let _ = tokio::fs::remove_dir_all(&src_dir).await;
    });
}

#[test]
fn zip_archives_are_recognised_and_extracted() {
    rt().block_on(async {
        let dir = fresh_dir("zip").await;

        // Build a small archive in memory and write it out.
        let mut cursor = std::io::Cursor::new(Vec::new());
        {
            let mut w = zip::ZipWriter::new(&mut cursor);
            w.start_file("inside.txt", zip::write::SimpleFileOptions::default()).unwrap();
            w.write_all(b"zipped body").unwrap();
            w.finish().unwrap();
        }
        tokio::fs::write(format!("{}/bundle.zip", dir), cursor.into_inner()).await.unwrap();

        let mut fm = FileManager::new(dir.clone(), snapshot_of(&dir).await.unwrap());
        let plan = fm.operation_target().expect("the archive is recognised by its extension");
        assert_eq!(plan.archive, format!("{}/bundle.zip", dir));
        assert_eq!(plan.dest, dir);

        // Extract the way the caller would, off the engine.
        let bytes = tokio::fs::read(&plan.archive).await.unwrap();
        let outcome = tokio::task::spawn_blocking(move || {
            let mut archive = zip::ZipArchive::new(std::io::Cursor::new(bytes))
                .map_err(|e| e.to_string())?;
            archive.extract(&plan.dest).map_err(|e| e.to_string())
        })
        .await
        .unwrap();

        match outcome {
            Ok(()) => {
                let snap = snapshot_of(&dir).await;
                fm.operation_succeeded(snap, 1);
            },
            Err(e) => fm.operation_failed(&e, 1),
        }

        assert_eq!(fm.notify().unwrap().message(), "Zip extracted");
        let body = tokio::fs::read(format!("{}/inside.txt", dir)).await.unwrap();
        assert_eq!(body, b"zipped body");
        let names: Vec<&str> = fm.entries().iter().map(|e| e.name()).collect();
        assert_eq!(names, ["bundle.zip", "inside.txt"]);

        let _ = tokio::fs::remove_dir_all(&dir).await;
    });
}
