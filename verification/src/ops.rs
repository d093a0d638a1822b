//! Constructive and destructive operations: create, delete, rename and
//! archive extraction.
//!
//! As in the `engine` module, each operation is split into a planning
//! function that names the filesystem work to do and a finishing
//! function that applies the outcome.

use vstd::prelude::*;

use crate::engine::apply_snapshot_model;
use crate::engine::cursor_entry;
use crate::engine::notified_model;
use crate::engine::Snapshot;
use crate::mime::guess_mime_subtype;
use crate::mime::mime_subtype_of;
use crate::model::FileManager;
use crate::model::FsEntryType;
use crate::model::InteractionMode;
use crate::model::PopupType;
use crate::model::StateModel;
use crate::paths::basename_start;
use crate::paths::basename_start_index;
use crate::paths::ends_with_slash;
use crate::paths::join_path;
use crate::paths::spec_join;
use crate::paths::spec_trim_trailing_slashes;
use crate::paths::str_eq;
use crate::paths::trim_trailing_slashes;

verus! {

/// A parsed create request: the directories to bring into being first,
/// the final path, and whether that final path is itself a directory.
pub struct CreatePlan {
    pub intermediate: String,
    pub target: String,
    pub is_directory: bool,
}

/// Ghost model of a [`CreatePlan`].
#[verifier::ext_equal]
pub struct CreatePlanModel {
    pub intermediate: Seq<char>,
    pub target: Seq<char>,
    pub is_directory: bool,
}

impl View for CreatePlan {
    type V = CreatePlanModel;

    open spec fn view(&self) -> CreatePlanModel {
        CreatePlanModel {
            intermediate: self.intermediate@,
            target: self.target@,
            is_directory: self.is_directory,
        }
    }
}

/// How a create input parses against a current directory: a trailing
/// `/` asks for a directory, everything before the last separator
/// names intermediate directories, and an input with an empty final
/// segment asks for nothing.
pub open spec fn create_plan_model(current: Seq<char>, input: Seq<char>) -> Option<
    CreatePlanModel,
> {
    let t = spec_trim_trailing_slashes(input);
    if basename_start(t) == t.len() {
        None
    } else {
        Some(
            CreatePlanModel {
                intermediate: if basename_start(t) == 0 {
                    current
                } else {
                    spec_join(current, t.take(basename_start(t) - 1))
                },
                target: spec_join(current, t),
                is_directory: input.len() > 0 && input.last() == '/',
            },
        )
    }
}

/// The target of a delete: the path under the cursor, and whether it
/// goes by recursive directory removal rather than file removal.
pub struct DeleteTarget {
    pub path: String,
    pub remove_dir: bool,
}

/// Ghost model of a [`DeleteTarget`].
#[verifier::ext_equal]
pub struct DeleteTargetModel {
    pub path: Seq<char>,
    pub remove_dir: bool,
}

impl View for DeleteTarget {
    type V = DeleteTargetModel;

    open spec fn view(&self) -> DeleteTargetModel {
        DeleteTargetModel { path: self.path@, remove_dir: self.remove_dir }
    }
}

/// What deleting under the cursor would remove.
pub open spec fn delete_target_model(m: StateModel) -> Option<DeleteTargetModel> {
    match cursor_entry(m) {
        Some(e) => Some(
            DeleteTargetModel { path: e.path, remove_dir: e.kind == FsEntryType::Directory },
        ),
        None => None,
    }
}

/// The target of a rename: the cursor entry's path and the destination
/// under the current directory.
pub struct RenameTarget {
    pub from: String,
    pub to: String,
}

/// Ghost model of a [`RenameTarget`].
#[verifier::ext_equal]
pub struct RenameTargetModel {
    pub from: Seq<char>,
    pub to: Seq<char>,
}

impl View for RenameTarget {
    type V = RenameTargetModel;

    open spec fn view(&self) -> RenameTargetModel {
        RenameTargetModel { from: self.from@, to: self.to@ }
    }
}

/// What renaming under the cursor would do with the given input.
pub open spec fn rename_target_model(m: StateModel, input: Seq<char>) -> Option<
    RenameTargetModel,
> {
    match cursor_entry(m) {
        Some(e) => Some(
            RenameTargetModel {
                from: e.path,
                to: spec_join(m.current_path, spec_trim_trailing_slashes(input)),
            },
        ),
        None => None,
    }
}

/// The target of an archive extraction: the archive under the cursor
/// and the current directory it unpacks into.
pub struct ExtractPlan {
    pub archive: String,
    pub dest: String,
}

/// Ghost model of an [`ExtractPlan`].
#[verifier::ext_equal]
pub struct ExtractPlanModel {
    pub archive: Seq<char>,
    pub dest: Seq<char>,
}

impl View for ExtractPlan {
    type V = ExtractPlanModel;

    open spec fn view(&self) -> ExtractPlanModel {
        ExtractPlanModel { archive: self.archive@, dest: self.dest@ }
    }
}

/// What the extract operation would do: only an entry whose guessed
/// MIME subtype is `zip` is an archive.
pub open spec fn extract_target_model(m: StateModel) -> Option<ExtractPlanModel> {
    match cursor_entry(m) {
        Some(e) => if mime_subtype_of(e.path) == Some("zip"@) {
            Some(ExtractPlanModel { archive: e.path, dest: m.current_path })
        } else {
            None
        },
        None => None,
    }
}

impl FileManager {
    /// Parse a create input against the current directory.  An input
    /// whose final segment is empty asks for nothing and is ignored.
    pub fn create_entry_plan(&self, input: &str) -> (r: Option<CreatePlan>)
        ensures
            match r {
                Some(p) => create_plan_model(self@.current_path, input@) == Some(p@),
                None => create_plan_model(self@.current_path, input@) is None,
            },
    {
        let is_directory = ends_with_slash(input);
        let t = trim_trailing_slashes(input);
        let tlen = t.as_str().unicode_len();
        let bs = basename_start_index(t.as_str());
        if bs == tlen {
            return None;
        }
        let intermediate = if bs == 0 {
            self.current_path.clone()
        } else {
            let prefix = t.as_str().substring_char(0, bs - 1);
            proof {
                assert(prefix@ =~= t@.take(bs - 1));
            }
            join_path(self.current_path.as_str(), prefix)
        };
        let target = join_path(self.current_path.as_str(), t.as_str());
        Some(CreatePlan { intermediate, target, is_directory })
    }

    /// Creating the intermediate directories failed: say so and stop;
    /// the state keeps its last-good configuration.
    pub fn create_intermediate_failed(&mut self, err: &str, now_ms: u64)
        ensures
            final(self)@ == notified_model(
                old(self)@,
                "Error creating directories: "@ + err@,
                now_ms,
            ),
    {
        let mut msg = String::from_str("Error creating directories: ");
        msg.append(err);
        self.show_notification(msg, now_ms);
    }

    /// The final create step went through: re-list, clear the input
    /// buffer and close the popup.
    pub fn on_create_success(&mut self, snap: Result<Snapshot, String>, now_ms: u64)
        ensures
            (snap matches Ok(s) ==> final(self)@ == (StateModel {
                input: Seq::<char>::empty(),
                popup: PopupType::Closed,
                ..apply_snapshot_model(old(self)@, old(self)@.current_path, s@)
            })),
            (snap matches Err(e) ==> final(self)@ == (StateModel {
                input: Seq::<char>::empty(),
                popup: PopupType::Closed,
                ..notified_model(old(self)@, e@, now_ms)
            })),
    {
        let cur = self.current_path.clone();
        self.refresh_current_directory(cur, snap, now_ms);
        self.input_buffer = String::new();
        self.popup = PopupType::Closed;
    }

    /// The final create step failed (the target already existed, say):
    /// surface it; the popup stays open.
    pub fn create_final_failed(&mut self, err: String, now_ms: u64)
        ensures
            final(self)@ == notified_model(old(self)@, err@, now_ms),
    {
        self.show_notification(err, now_ms);
    }

    /// What deleting under the cursor would remove.
    pub fn delete_selected_target(&self) -> (r: Option<DeleteTarget>)
        ensures
            match r {
                Some(t) => delete_target_model(self@) == Some(t@),
                None => delete_target_model(self@) is None,
            },
    {
        match self.get_selected_index_entry() {
            Some(e) => {
                let remove_dir = match e.entry_type {
                    FsEntryType::Directory => true,
                    FsEntryType::File => false,
                    FsEntryType::Symlink => false,
                };
                Some(DeleteTarget { path: e.entry_path.clone(), remove_dir })
            },
            None => None,
        }
    }

    /// The single-target delete went through: close the popup and
    /// re-list.
    pub fn delete_selected_succeeded(&mut self, snap: Result<Snapshot, String>, now_ms: u64)
        ensures
            (snap matches Ok(s) ==> final(self)@ == (StateModel {
                popup: PopupType::Closed,
                ..apply_snapshot_model(old(self)@, old(self)@.current_path, s@)
            })),
            (snap matches Err(e) ==> final(self)@ == (StateModel {
                popup: PopupType::Closed,
                ..notified_model(old(self)@, e@, now_ms)
            })),
    {
        self.popup = PopupType::Closed;
        let cur = self.current_path.clone();
        self.refresh_current_directory(cur, snap, now_ms);
    }

    /// The single-target delete failed: surface which path could not be
    /// removed; the confirmation popup stays open for a retry.
    pub fn delete_selected_failed(&mut self, path: &str, err: &str, now_ms: u64)
        ensures
            final(self)@ == notified_model(
                old(self)@,
                "Failed to delete "@ + path@ + ": "@ + err@,
                now_ms,
            ),
    {
        let mut msg = String::from_str("Failed to delete ");
        msg.append(path);
        msg.append(": ");
        msg.append(err);
        self.show_notification(msg, now_ms);
    }

    /// The multi-target delete batch finished: re-list, close the
    /// popup, and force normal mode.
    pub fn delete_multiple_finish(&mut self, snap: Result<Snapshot, String>, now_ms: u64)
        ensures
            (snap matches Ok(s) ==> final(self)@ == (StateModel {
                popup: PopupType::Closed,
                mode: InteractionMode::Normal,
                ..apply_snapshot_model(old(self)@, old(self)@.current_path, s@)
            })),
            (snap matches Err(e) ==> final(self)@ == (StateModel {
                popup: PopupType::Closed,
                mode: InteractionMode::Normal,
                ..notified_model(old(self)@, e@, now_ms)
            })),
    {
        let cur = self.current_path.clone();
        self.refresh_current_directory(cur, snap, now_ms);
        self.popup = PopupType::Closed;
        self.mode = InteractionMode::Normal;
    }

    /// What renaming under the cursor would do with the given input.
    pub fn rename_selected_target(&self, input: &str) -> (r: Option<RenameTarget>)
        ensures
            match r {
                Some(t) => rename_target_model(self@, input@) == Some(t@),
                None => rename_target_model(self@, input@) is None,
            },
    {
        match self.get_selected_index_entry() {
            Some(e) => {
                let from = e.entry_path.clone();
                let trimmed = trim_trailing_slashes(input);
                let to = join_path(self.current_path.as_str(), trimmed.as_str());
                Some(RenameTarget { from, to })
            },
            None => None,
        }
    }

    /// The rename went through: re-list, clear the input buffer and
    /// close the popup.  (A failed rename changes nothing, so the popup
    /// stays open for the user to correct the input.)
    pub fn rename_selected_succeeded(&mut self, snap: Result<Snapshot, String>, now_ms: u64)
        ensures
            (snap matches Ok(s) ==> final(self)@ == (StateModel {
                input: Seq::<char>::empty(),
                popup: PopupType::Closed,
                ..apply_snapshot_model(old(self)@, old(self)@.current_path, s@)
            })),
            (snap matches Err(e) ==> final(self)@ == (StateModel {
                input: Seq::<char>::empty(),
                popup: PopupType::Closed,
                ..notified_model(old(self)@, e@, now_ms)
            })),
    {
        let cur = self.current_path.clone();
        self.refresh_current_directory(cur, snap, now_ms);
        self.input_buffer = String::new();
        self.popup = PopupType::Closed;
    }

    /// What the extract operation would do: the archive under the
    /// cursor, if its guessed MIME subtype is `zip`, unpacking into the
    /// current directory.
    pub fn operation_target(&self) -> (r: Option<ExtractPlan>)
        ensures
            match r {
                Some(p) => extract_target_model(self@) == Some(p@),
                None => extract_target_model(self@) is None,
            },
    {
        match self.get_selected_index_entry() {
            Some(e) => {
                let sub = guess_mime_subtype(e.entry_path.as_str());
                let is_zip = match &sub {
                    Some(s) => str_eq(s.as_str(), "zip"),
                    None => false,
                };
                if is_zip {
                    Some(
                        ExtractPlan {
                            archive: e.entry_path.clone(),
                            dest: self.current_path.clone(),
                        },
                    )
                } else {
                    None
                }
            },
            None => None,
        }
    }

    /// The extraction finished: re-list and say so.
    pub fn operation_succeeded(&mut self, snap: Result<Snapshot, String>, now_ms: u64)
        ensures
            (snap matches Ok(s) ==> final(self)@ == notified_model(
                apply_snapshot_model(old(self)@, old(self)@.current_path, s@),
                "Zip extracted"@,
                now_ms,
            )),
            (snap matches Err(e) ==> final(self)@ == notified_model(
                notified_model(old(self)@, e@, now_ms),
                "Zip extracted"@,
                now_ms,
            )),
    {
        let cur = self.current_path.clone();
        self.refresh_current_directory(cur, snap, now_ms);
        self.show_notification(String::from_str("Zip extracted"), now_ms);
    }

    /// The extraction failed: surface the archive error.
    pub fn operation_failed(&mut self, err: &str, now_ms: u64)
        ensures
            final(self)@ == notified_model(old(self)@, "Zip error: "@ + err@, now_ms),
    {
        let mut msg = String::from_str("Zip error: ");
        msg.append(err);
        self.show_notification(msg, now_ms);
    }
}

} // verus!
