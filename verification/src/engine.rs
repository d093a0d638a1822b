//! The navigation-and-operation engine.
//!
//! Every user-triggered operation lives here or in `ops`.  Operations
//! that need the filesystem are split in two: one function that decides
//! what I/O is wanted (returning paths as plain strings), and one that
//! takes the outcome of that I/O and applies it to the state.  Each
//! mutation is pinned to a spec-level transition on [`StateModel`].

use vstd::prelude::*;

use crate::model::Action;
use crate::model::Clipboard;
use crate::model::ClipboardModel;
use crate::model::EntryModel;
use crate::model::FileContent;
use crate::model::FileManager;
use crate::model::FsEntry;
use crate::model::FsEntryType;
use crate::model::InteractionMode;
use crate::model::NoteModel;
use crate::model::Notification;
use crate::model::ParentModel;
use crate::model::ParentView;
use crate::model::PopupType;
use crate::model::PreviewContent;
use crate::model::PreviewModel;
use crate::model::StateModel;
use crate::model::NOTIFICATION_DURATION_MS;
use crate::paths::basename;
use crate::paths::dirname;
use crate::paths::join_path;
use crate::paths::path_file_name;
use crate::paths::spec_basename;
use crate::paths::spec_dirname;
use crate::paths::spec_file_name;
use crate::paths::spec_join;
use crate::paths::str_eq;

verus! {

/// What a directory listing of some path returned: its entries, the
/// path of its parent (`None` at the filesystem root) and the parent's
/// entries.
pub struct Snapshot {
    pub entries: Vec<FsEntry>,
    pub parent_path: Option<String>,
    pub parent_entries: Vec<FsEntry>,
}

/// Ghost model of a [`Snapshot`].
#[verifier::ext_equal]
pub struct SnapModel {
    pub entries: Seq<EntryModel>,
    pub parent_path: Option<Seq<char>>,
    pub parent_entries: Seq<EntryModel>,
}

impl View for Snapshot {
    type V = SnapModel;

    open spec fn view(&self) -> SnapModel {
        SnapModel {
            entries: self.entries.deep_view(),
            parent_path: self.parent_path.deep_view(),
            parent_entries: self.parent_entries.deep_view(),
        }
    }
}

/// The entry list with the entry at `i` flagged selected; out-of-range
/// indices leave the list unchanged.
pub open spec fn mark_at(entries: Seq<EntryModel>, i: usize) -> Seq<EntryModel> {
    if (i as nat) < entries.len() {
        entries.update(i as int, EntryModel { selected: true, ..entries[i as int] })
    } else {
        entries
    }
}

/// Where the cursor lands after one step down: forward by one, wrapping
/// from the last entry to the first.
pub open spec fn cursor_step_down(len: nat, cursor: Option<usize>) -> Option<usize> {
    match cursor {
        Some(i) => if i + 1 >= len {
            Some(0usize)
        } else {
            Some((i + 1) as usize)
        },
        None => Some(0usize),
    }
}

/// Where the cursor lands after one step up: back by one, wrapping from
/// the first entry to the last.
pub open spec fn cursor_step_up(len: nat, cursor: Option<usize>) -> Option<usize> {
    let i = if cursor is Some {
        cursor.unwrap() as int
    } else {
        0
    };
    if i == 0 {
        if len == 0 {
            Some(0usize)
        } else {
            Some((len - 1) as usize)
        }
    } else {
        Some((i - 1) as usize)
    }
}

/// In multi-select mode a cursor move first flags the entry it leaves.
pub open spec fn marked_for_move(m: StateModel) -> Seq<EntryModel> {
    if m.mode == InteractionMode::MultiSelect && m.cursor is Some {
        mark_at(m.entries, m.cursor.unwrap())
    } else {
        m.entries
    }
}

/// The state after one step down.
pub open spec fn nav_down_model(m: StateModel) -> StateModel {
    StateModel {
        entries: marked_for_move(m),
        cursor: cursor_step_down(m.entries.len(), m.cursor),
        ..m
    }
}

/// The state after one step up.
pub open spec fn nav_up_model(m: StateModel) -> StateModel {
    StateModel {
        entries: marked_for_move(m),
        cursor: cursor_step_up(m.entries.len(), m.cursor),
        ..m
    }
}

/// The state after flagging the entry under the cursor (multi-select
/// mode only).
pub open spec fn select_current_model(m: StateModel) -> StateModel {
    if m.mode == InteractionMode::MultiSelect && m.cursor is Some {
        StateModel { entries: mark_at(m.entries, m.cursor.unwrap()), ..m }
    } else {
        m
    }
}

/// The state after a successful re-listing of `new_path` replaced the
/// current and parent panels.  The parent panel's remembered cursor is
/// kept.
pub open spec fn apply_snapshot_model(m: StateModel, new_path: Seq<char>, snap: SnapModel) -> StateModel {
    StateModel {
        current_path: new_path,
        entries: snap.entries,
        parent: ParentModel {
            entries: snap.parent_entries,
            path: snap.parent_path,
            cursor: m.parent.cursor,
        },
        ..m
    }
}

/// The state with a fresh notification posted at `now`.
pub open spec fn notified_model(m: StateModel, message: Seq<char>, now_ms: u64) -> StateModel {
    StateModel {
        notify: Some(
            NoteModel { message, created_at: now_ms, duration: NOTIFICATION_DURATION_MS },
        ),
        ..m
    }
}

/// A notification has outlived its fixed duration at `now`.
pub open spec fn note_expired(n: NoteModel, now_ms: u64) -> bool {
    now_ms >= n.created_at && now_ms - n.created_at >= n.duration
}

/// The first index at or after `from` whose entry bears `name`.
pub open spec fn first_name_match(
    entries: Seq<EntryModel>,
    name: Seq<char>,
    from: int,
) -> Option<int>
    decreases entries.len() - from,
{
    if from < 0 || from >= entries.len() {
        None
    } else if entries[from].name == name {
        Some(from)
    } else {
        first_name_match(entries, name, from + 1)
    }
}

/// Skipping a known-mismatching prefix does not change the first match.
pub proof fn lemma_first_match_skip(entries: Seq<EntryModel>, name: Seq<char>, upto: int)
    requires
        0 <= upto <= entries.len(),
        forall|j: int| 0 <= j < upto ==> entries[j].name != name,
    ensures
        first_name_match(entries, name, 0) == first_name_match(entries, name, upto),
{
    lemma_first_match_prefix(entries, name, 0, upto);
}

proof fn lemma_first_match_prefix(entries: Seq<EntryModel>, name: Seq<char>, from: int, upto: int)
    requires
        0 <= from <= upto <= entries.len(),
        forall|j: int| from <= j < upto ==> entries[j].name != name,
    ensures
        first_name_match(entries, name, from) == first_name_match(entries, name, upto),
    decreases upto - from,
{
    if from < upto {
        lemma_first_match_prefix(entries, name, from + 1, upto);
    }
}

/// The state after re-aiming the parent panel's cursor at the entry
/// whose name is the current directory's own name, when there is one.
pub open spec fn update_parent_selection_model(m: StateModel) -> StateModel {
    match spec_file_name(m.current_path) {
        Some(name) => match first_name_match(m.parent.entries, name, 0) {
            Some(i) => StateModel {
                parent: ParentModel { cursor: Some(i as usize), ..m.parent },
                ..m
            },
            None => m,
        },
        None => m,
    }
}

impl FileManager {
    /// Rewrite the selection flag of the entry at `i`, in place;
    /// out-of-range indices change nothing.
    fn set_selected_flag(&mut self, i: usize, flag: bool)
        ensures
            final(self)@ == (StateModel {
                entries: if (i as nat) < old(self)@.entries.len() {
                    old(self)@.entries.update(
                        i as int,
                        EntryModel { selected: flag, ..old(self)@.entries[i as int] },
                    )
                } else {
                    old(self)@.entries
                },
                ..old(self)@
            }),
    {
        if i < self.entries.len() {
            let updated = {
                let e = &self.entries[i];
                FsEntry {
                    name: e.name.clone(),
                    entry_path: e.entry_path.clone(),
                    entry_type: e.entry_type,
                    size: e.size,
                    file_permission: e.file_permission,
                    is_selected: flag,
                }
            };
            self.entries.set(i, updated);
            proof {
                assert(self@.entries =~= old(self)@.entries.update(
                    i as int,
                    EntryModel { selected: flag, ..old(self)@.entries[i as int] },
                ));
                assert(self@ =~= (StateModel { entries: self@.entries, ..old(self)@ }));
            }
        }
    }

    /// Flag the entry at `i` as selected, in place.
    pub(crate) fn mark_selected(&mut self, i: usize)
        ensures
            final(self)@ == (StateModel { entries: mark_at(old(self)@.entries, i), ..old(self)@ }),
    {
        self.set_selected_flag(i, true);
    }

    /// In multi-select mode, flag the entry under the cursor (idempotent).
    pub fn select_current(&mut self)
        ensures
            final(self)@ == select_current_model(old(self)@),
    {
        if self.mode == InteractionMode::MultiSelect {
            if let Some(i) = self.selection {
                self.mark_selected(i);
            }
        }
    }

    /// Step the cursor forward, wrapping past the end; in multi-select
    /// mode the entry being left is flagged first.  The preview must be
    /// recomputed afterwards (see [`FileManager::preview_request`]).
    pub fn navigate_down(&mut self)
        ensures
            final(self)@ == nav_down_model(old(self)@),
    {
        if self.mode == InteractionMode::MultiSelect {
            if let Some(i) = self.selection {
                self.mark_selected(i);
            }
        }
        let len = self.entries.len();
        let next: usize = match self.selection {
            Some(i) => if len == 0 || i >= len - 1 {
                0
            } else {
                i + 1
            },
            None => 0,
        };
        self.selection = Some(next);
        proof {
            let m2 = nav_down_model(old(self)@);
            assert(self@.entries =~~= m2.entries);
            assert(self@.parent =~~= m2.parent);
            assert(self@ =~~= m2);
        }
    }

    /// Step the cursor back, wrapping past the start; in multi-select
    /// mode the entry being left is flagged first.  The preview must be
    /// recomputed afterwards.
    pub fn navigate_up(&mut self)
        ensures
            final(self)@ == nav_up_model(old(self)@),
    {
        if self.mode == InteractionMode::MultiSelect {
            if let Some(i) = self.selection {
                self.mark_selected(i);
            }
        }
        let len = self.entries.len();
        let cur: usize = match self.selection {
            Some(i) => i,
            None => 0,
        };
        let next: usize = if cur == 0 {
            if len == 0 {
                0
            } else {
                len - 1
            }
        } else {
            cur - 1
        };
        self.selection = Some(next);
        proof {
            let m2 = nav_up_model(old(self)@);
            assert(self@.entries =~~= m2.entries);
            assert(self@.parent =~~= m2.parent);
            assert(self@ =~~= m2);
        }
    }

    /// Post a notification with the fixed lifetime, replacing any
    /// previous one.
    pub fn set_notify(&mut self, message: String, now_ms: u64)
        ensures
            final(self)@ == notified_model(old(self)@, message@, now_ms),
    {
        self.notify = Some(Notification::new(message, now_ms));
    }

    /// Post a notification; the operations call it under this name.
    pub fn show_notification(&mut self, message: String, now_ms: u64)
        ensures
            final(self)@ == notified_model(old(self)@, message@, now_ms),
    {
        self.set_notify(message, now_ms);
    }

    /// Drop the notification once its lifetime has elapsed at `now_ms`;
    /// polled every UI tick.
    pub fn clear_expired_notifications(&mut self, now_ms: u64)
        ensures
            final(self)@ == if old(self)@.notify is Some && note_expired(
                old(self)@.notify.unwrap(),
                now_ms,
            ) {
                StateModel { notify: None, ..old(self)@ }
            } else {
                old(self)@
            },
    {
        let expired = match &self.notify {
            Some(n) => now_ms >= n.created_at && now_ms - n.created_at >= n.duration,
            None => false,
        };
        if expired {
            self.notify = None;
        }
    }

    /// Apply the outcome of re-listing `new_path`: on success the state
    /// moves there wholesale, on failure only a notification is posted.
    pub fn refresh_current_directory(
        &mut self,
        new_path: String,
        snap: Result<Snapshot, String>,
        now_ms: u64,
    )
        ensures
            (snap matches Ok(s) ==> final(self)@ == apply_snapshot_model(
                old(self)@,
                new_path@,
                s@,
            )),
            (snap matches Err(e) ==> final(self)@ == notified_model(old(self)@, e@, now_ms)),
    {
        match snap {
            Ok(s) => {
                self.current_path = new_path;
                self.entries = s.entries;
                self.parent_view.set_path(s.parent_path);
                self.parent_view.set_entries(s.parent_entries);
            },
            Err(e) => {
                self.show_notification(e, now_ms);
            },
        }
    }

    /// Point the parent panel's cursor at the entry named like the
    /// current directory, so the "go up" panel highlights where we came
    /// from.
    pub fn update_parent_selection(&mut self)
        ensures
            final(self)@ == update_parent_selection_model(old(self)@),
    {
        let current_name = match path_file_name(self.current_path.as_str()) {
            Some(n) => n,
            None => {
                return ;
            },
        };
        let n = self.parent_view.entries.len();
        let mut i: usize = 0;
        while i < n
            invariant
                n == self@.parent.entries.len(),
                i <= n,
                self == old(self),
                spec_file_name(self@.current_path) == Some(current_name@),
                forall|j: int| 0 <= j < i ==> self@.parent.entries[j].name != current_name@,
            decreases n - i,
        {
            if str_eq(self.parent_view.entries[i].name.as_str(), current_name.as_str()) {
                proof {
                    lemma_first_match_skip(self@.parent.entries, current_name@, i as int);
                }
                self.parent_view.set_selection(Some(i));
                return ;
            }
            i = i + 1;
        }
        proof {
            lemma_first_match_skip(self@.parent.entries, current_name@, n as int);
        }
    }
}

/// The I/O the preview panel wants for the entry under the cursor.
pub enum PreviewRequest {
    Empty,
    Directory(String),
    File(String),
    Symlink(String),
}

/// Ghost model of a [`PreviewRequest`].
#[verifier::ext_equal]
pub enum PreviewRequestModel {
    Empty,
    Directory(Seq<char>),
    File(Seq<char>),
    Symlink(Seq<char>),
}

impl View for PreviewRequest {
    type V = PreviewRequestModel;

    open spec fn view(&self) -> PreviewRequestModel {
        match self {
            PreviewRequest::Empty => PreviewRequestModel::Empty,
            PreviewRequest::Directory(p) => PreviewRequestModel::Directory(p@),
            PreviewRequest::File(p) => PreviewRequestModel::File(p@),
            PreviewRequest::Symlink(p) => PreviewRequestModel::Symlink(p@),
        }
    }
}

/// The entry under the cursor, if the cursor rests on one.
pub open spec fn cursor_entry(m: StateModel) -> Option<EntryModel> {
    if m.cursor is Some && (m.cursor.unwrap() as nat) < m.entries.len() {
        Some(m.entries[m.cursor.unwrap() as int])
    } else {
        None
    }
}

/// Which preview the entry under the cursor calls for.
pub open spec fn preview_request_model(m: StateModel) -> PreviewRequestModel {
    match cursor_entry(m) {
        Some(e) => match e.kind {
            FsEntryType::Directory => PreviewRequestModel::Directory(e.path),
            FsEntryType::File => PreviewRequestModel::File(e.path),
            FsEntryType::Symlink => PreviewRequestModel::Symlink(e.path),
        },
        None => PreviewRequestModel::Empty,
    }
}

/// A symlink target resolved the way the preview does it: an absolute
/// target stands as it is, a relative one is joined against the link's
/// own directory.
pub open spec fn spec_resolve_target(link: Seq<char>, target: Seq<char>) -> Seq<char> {
    if target.len() > 0 && target[0] == '/' {
        target
    } else {
        spec_join(spec_dirname(link), target)
    }
}

/// Where descending under the cursor leads: into a directory, through a
/// symlink, or nowhere.
pub enum ChildTarget {
    Stay,
    Descend(String),
    FollowLink(String),
}

/// Ghost model of a [`ChildTarget`].
#[verifier::ext_equal]
pub enum ChildTargetModel {
    Stay,
    Descend(Seq<char>),
    FollowLink(Seq<char>),
}

impl View for ChildTarget {
    type V = ChildTargetModel;

    open spec fn view(&self) -> ChildTargetModel {
        match self {
            ChildTarget::Stay => ChildTargetModel::Stay,
            ChildTarget::Descend(p) => ChildTargetModel::Descend(p@),
            ChildTarget::FollowLink(p) => ChildTargetModel::FollowLink(p@),
        }
    }
}

/// Where descending leads from `m`: the current path extended by the
/// cursor entry's name, when that entry is a directory or a symlink.
pub open spec fn child_target_model(m: StateModel) -> ChildTargetModel {
    match cursor_entry(m) {
        Some(e) => match e.kind {
            FsEntryType::Directory => ChildTargetModel::Descend(spec_join(m.current_path, e.name)),
            FsEntryType::Symlink => ChildTargetModel::FollowLink(spec_join(m.current_path, e.name)),
            FsEntryType::File => ChildTargetModel::Stay,
        },
        None => ChildTargetModel::Stay,
    }
}

/// The state after a successful descent: the listing of `new_path`
/// replaces the panels, the old cursor is remembered in the parent
/// panel, and the cursor restarts at the top.
pub open spec fn enter_directory_model(m: StateModel, new_path: Seq<char>, snap: SnapModel) -> StateModel {
    StateModel {
        current_path: new_path,
        entries: snap.entries,
        parent: ParentModel {
            entries: snap.parent_entries,
            path: snap.parent_path,
            cursor: m.cursor,
        },
        cursor: Some(0usize),
        ..m
    }
}

/// The state after going back up: the parent's listing replaces the
/// panels and the cursor remembered at descent time is restored.
pub open spec fn return_to_parent_model(m: StateModel, snap: SnapModel) -> StateModel {
    StateModel {
        current_path: m.parent.path.unwrap(),
        entries: snap.entries,
        parent: ParentModel {
            entries: snap.parent_entries,
            path: snap.parent_path,
            cursor: m.parent.cursor,
        },
        cursor: m.parent.cursor,
        ..m
    }
}

/// Some entry is flagged selected.
pub open spec fn any_selected(entries: Seq<EntryModel>) -> bool {
    exists|i: int| 0 <= i < entries.len() && entries[i].selected
}

/// The paths of the flagged entries, in listing order.
pub open spec fn selected_paths(entries: Seq<EntryModel>) -> Seq<Seq<char>>
    decreases entries.len(),
{
    if entries.len() == 0 {
        Seq::<Seq<char>>::empty()
    } else {
        let rest = selected_paths(entries.drop_last());
        if entries.last().selected {
            rest.push(entries.last().path)
        } else {
            rest
        }
    }
}

/// A bare copy or move in normal mode with nothing flagged targets the
/// entry under the cursor.
pub open spec fn auto_select_applies(m: StateModel) -> bool {
    m.mode == InteractionMode::Normal && !any_selected(m.entries)
}

/// The state after snapshotting the clipboard's source paths: either
/// the single auto-selected cursor entry, or every flagged entry.
pub open spec fn set_clipboard_entries_model(m: StateModel) -> StateModel {
    if auto_select_applies(m) {
        if m.cursor is Some && (m.cursor.unwrap() as nat) < m.entries.len() {
            StateModel {
                entries: mark_at(m.entries, m.cursor.unwrap()),
                clipboard: ClipboardModel {
                    paths: seq![m.entries[m.cursor.unwrap() as int].path],
                    ..m.clipboard
                },
                ..m
            }
        } else {
            m
        }
    } else {
        StateModel {
            clipboard: ClipboardModel { paths: selected_paths(m.entries), ..m.clipboard },
            ..m
        }
    }
}

/// The state with the clipboard's pending action replaced.
pub open spec fn clipboard_with_action(m: StateModel, action: Action) -> StateModel {
    StateModel { clipboard: ClipboardModel { action, ..m.clipboard }, ..m }
}

/// The state after closing or opening the delete-confirmation popup;
/// with nothing to act on it stays as it is.
pub open spec fn toggle_confirm_model(m: StateModel) -> StateModel {
    if m.entries.len() == 0 {
        m
    } else if m.popup == PopupType::Confirm {
        StateModel { popup: PopupType::Closed, ..m }
    } else {
        StateModel { popup: PopupType::Confirm, ..m }
    }
}

/// One pending paste: a clipboard source and its destination under the
/// current directory.
pub struct PasteItem {
    pub src: String,
    pub dst: String,
}

/// Ghost model of a [`PasteItem`].
#[verifier::ext_equal]
pub struct PasteItemModel {
    pub src: Seq<char>,
    pub dst: Seq<char>,
}

impl View for PasteItem {
    type V = PasteItemModel;

    open spec fn view(&self) -> PasteItemModel {
        PasteItemModel { src: self.src@, dst: self.dst@ }
    }
}

impl DeepView for PasteItem {
    type V = PasteItemModel;

    open spec fn deep_view(&self) -> PasteItemModel {
        self.view()
    }
}

/// Every clipboard source, paired with `current_path/basename(source)`.
pub open spec fn paste_plan_model(m: StateModel) -> Seq<PasteItemModel> {
    m.clipboard.paths.map_values(
        |p: Seq<char>| PasteItemModel { src: p, dst: spec_join(m.current_path, spec_basename(p)) },
    )
}

/// The freshly initialised state: cursor at the top, normal mode, no
/// popup, an empty clipboard, and the parent panel re-aimed at where we
/// stand.
pub open spec fn new_state_model(start_path: Seq<char>, snap: SnapModel) -> StateModel {
    update_parent_selection_model(
        StateModel {
            parent: ParentModel {
                entries: snap.parent_entries,
                path: snap.parent_path,
                cursor: None,
            },
            current_path: start_path,
            entries: snap.entries,
            preview: PreviewModel::Directory(Seq::<EntryModel>::empty()),
            cursor: Some(0usize),
            mode: InteractionMode::Normal,
            notify: None,
            clipboard: ClipboardModel { paths: Seq::<Seq<char>>::empty(), action: Action::Idle },
            input: Seq::<char>::empty(),
            popup: PopupType::Closed,
        },
    )
}

/// Resolve a symlink target against the directory that holds the link.
pub fn resolve_symlink_target(link_path: &str, target: &str) -> (r: String)
    ensures
        r@ == spec_resolve_target(link_path@, target@),
{
    if target.unicode_len() > 0 && target.get_char(0) == '/' {
        target.to_owned()
    } else {
        let parent = dirname(link_path);
        join_path(parent.as_str(), target)
    }
}

/// After a symlink resolved, the preview follows the target: a listing
/// for a directory, a read for anything else.
pub fn symlink_follow_request(resolved: String, is_dir: bool) -> (r: PreviewRequest)
    ensures
        r@ == if is_dir {
            PreviewRequestModel::Directory(resolved@)
        } else {
            PreviewRequestModel::File(resolved@)
        },
{
    if is_dir {
        PreviewRequest::Directory(resolved)
    } else {
        PreviewRequest::File(resolved)
    }
}

impl FileManager {
    /// Start the browser at `start_path` with its first listing.
    pub fn new(start_path: String, snap: Snapshot) -> (r: Self)
        ensures
            r@ == new_state_model(start_path@, snap@),
            r@.wf(),
    {
        let empty_items: Vec<FsEntry> = Vec::new();
        proof {
            assert(empty_items.deep_view() =~= Seq::<EntryModel>::empty());
        }
        let mut state = Self {
            parent_view: ParentView::new(snap.parent_entries, snap.parent_path),
            current_path: start_path,
            entries: snap.entries,
            preview: PreviewContent::Directory(empty_items),
            selection: Some(0),
            mode: InteractionMode::Normal,
            notify: None,
            clipboard: Clipboard::empty(),
            input_buffer: String::new(),
            popup: PopupType::Closed,
        };
        state.update_parent_selection();
        state
    }

    /// The entry under the cursor, if the cursor rests on one.
    pub fn get_selected_index_entry(&self) -> (r: Option<&FsEntry>)
        ensures
            match r {
                Some(e) => cursor_entry(self@) == Some(e@),
                None => cursor_entry(self@) is None,
            },
    {
        match self.selection {
            Some(i) => if i < self.entries.len() {
                Some(&self.entries[i])
            } else {
                None
            },
            None => None,
        }
    }

    /// Which I/O the preview wants for the entry under the cursor.
    pub fn preview_request(&self) -> (r: PreviewRequest)
        ensures
            r@ == preview_request_model(self@),
    {
        match self.get_selected_index_entry() {
            Some(e) => {
                let path = e.entry_path.clone();
                match e.entry_type {
                    FsEntryType::Directory => PreviewRequest::Directory(path),
                    FsEntryType::File => PreviewRequest::File(path),
                    FsEntryType::Symlink => PreviewRequest::Symlink(path),
                }
            },
            None => PreviewRequest::Empty,
        }
    }

    /// Show a listed subdirectory in the preview panel.
    pub fn refresh_preview_with_directory(&mut self, items: Vec<FsEntry>)
        ensures
            final(self)@ == update_parent_selection_model(
                StateModel { preview: PreviewModel::Directory(items.deep_view()), ..old(self)@ },
            ),
    {
        self.preview = PreviewContent::Directory(items);
        self.update_parent_selection();
    }

    /// Show a text file body in the preview panel.
    pub fn refresh_preview_with_text_file(&mut self, content: String)
        ensures
            final(self)@ == update_parent_selection_model(
                StateModel { preview: PreviewModel::Text(content@), ..old(self)@ },
            ),
    {
        self.preview = PreviewContent::File(FileContent::Text(content));
        self.update_parent_selection();
    }

    /// Apply what reading the file under the cursor gave: a zero-length
    /// file shows the fixed placeholder rather than an error, a text
    /// read shows itself, and a failed read falls back to showing the
    /// reason as the binary placeholder.
    pub fn apply_file_preview(&mut self, size: u64, read: Result<String, String>)
        ensures
            size == 0 ==> final(self)@ == update_parent_selection_model(
                StateModel { preview: PreviewModel::Text("Empty File"@), ..old(self)@ },
            ),
            size != 0 ==> (read matches Ok(t) ==> final(self)@ == update_parent_selection_model(
                StateModel { preview: PreviewModel::Text(t@), ..old(self)@ },
            )),
            size != 0 ==> (read matches Err(e) ==> final(self)@ == (StateModel {
                preview: PreviewModel::Binary(e@),
                ..old(self)@
            })),
    {
        if size == 0 {
            self.refresh_preview_with_text_file(String::from_str("Empty File"));
        } else {
            match read {
                Ok(t) => self.refresh_preview_with_text_file(t),
                Err(e) => self.refresh_preview_with_binary_file(e),
            }
        }
    }

    /// Show a placeholder for an unreadable or binary file.
    pub fn refresh_preview_with_binary_file(&mut self, content: String)
        ensures
            final(self)@ == (StateModel { preview: PreviewModel::Binary(content@), ..old(self)@ }),
    {
        self.preview = PreviewContent::File(FileContent::Binary(content));
    }

    /// A symlink under the cursor could not be resolved: say so, leave
    /// the preview as it is.
    pub fn symlink_broken(&mut self, now_ms: u64)
        ensures
            final(self)@ == notified_model(old(self)@, "Broken symlink"@, now_ms),
    {
        self.show_notification(String::from_str("Broken symlink"), now_ms);
    }

    /// Where descending under the cursor would lead.
    pub fn navigate_to_child_target(&self) -> (r: ChildTarget)
        ensures
            r@ == child_target_model(self@),
    {
        match self.get_selected_index_entry() {
            Some(e) => {
                match e.entry_type {
                    FsEntryType::Directory => {
                        let p = join_path(self.current_path.as_str(), e.name.as_str());
                        ChildTarget::Descend(p)
                    },
                    FsEntryType::Symlink => {
                        let p = join_path(self.current_path.as_str(), e.name.as_str());
                        ChildTarget::FollowLink(p)
                    },
                    FsEntryType::File => ChildTarget::Stay,
                }
            },
            None => ChildTarget::Stay,
        }
    }

    /// Apply the outcome of listing the directory being descended into.
    /// On failure only a notification is posted and the state keeps its
    /// last-good configuration.
    pub fn enter_directory(&mut self, new_path: String, snap: Result<Snapshot, String>, now_ms: u64)
        ensures
            (snap matches Ok(s) ==> final(self)@ == enter_directory_model(
                old(self)@,
                new_path@,
                s@,
            )),
            (snap matches Err(e) ==> final(self)@ == notified_model(old(self)@, e@, now_ms)),
    {
        match snap {
            Ok(s) => {
                let old_cursor = self.selection;
                self.current_path = new_path;
                self.entries = s.entries;
                self.parent_view.set_path(s.parent_path);
                self.parent_view.set_entries(s.parent_entries);
                self.parent_view.set_selection(old_cursor);
                self.selection = Some(0);
            },
            Err(e) => {
                self.show_notification(e, now_ms);
            },
        }
    }

    /// The parent directory to go back to, if we are not at the root.
    pub fn navigate_to_parent_target(&self) -> (r: Option<String>)
        ensures
            r.deep_view() == self@.parent.path,
    {
        match &self.parent_view.path {
            Some(p) => Some(p.clone()),
            None => None,
        }
    }

    /// Apply the outcome of listing the parent directory.  At the root
    /// this is a no-op; on failure only a notification is posted.
    pub fn return_to_parent(&mut self, snap: Result<Snapshot, String>, now_ms: u64)
        ensures
            old(self)@.parent.path is None ==> final(self)@ == old(self)@,
            old(self)@.parent.path is Some ==> (snap matches Ok(s) ==> final(self)@
                == return_to_parent_model(old(self)@, s@)),
            old(self)@.parent.path is Some ==> (snap matches Err(e) ==> final(self)@
                == notified_model(old(self)@, e@, now_ms)),
    {
        let parent_path = match &self.parent_view.path {
            Some(p) => p.clone(),
            None => {
                return ;
            },
        };
        match snap {
            Ok(s) => {
                self.current_path = parent_path;
                self.entries = s.entries;
                self.parent_view.set_path(s.parent_path);
                self.parent_view.set_entries(s.parent_entries);
                self.selection = self.parent_view.selection();
                proof {
                    assert(self@ =~~= return_to_parent_model(old(self)@, s@));
                }
            },
            Err(e) => {
                self.show_notification(e, now_ms);
            },
        }
    }

    /// Open or close the delete-confirmation popup.
    pub fn toggle_confirmation_popup(&mut self)
        ensures
            final(self)@ == toggle_confirm_model(old(self)@),
    {
        if self.entries.len() > 0 {
            if self.popup == PopupType::Confirm {
                self.popup = PopupType::Closed;
            } else {
                self.popup = PopupType::Confirm;
            }
        }
    }

    /// Some entry is flagged selected.
    pub fn has_selected_entry(&self) -> (r: bool)
        ensures
            r == any_selected(self@.entries),
    {
        let n = self.entries.len();
        let mut i: usize = 0;
        while i < n
            invariant
                i <= n,
                n == self@.entries.len(),
                forall|j: int| 0 <= j < i ==> !self@.entries[j].selected,
            decreases n - i,
        {
            if self.entries[i].is_selected {
                proof {
                    assert(any_selected(self@.entries)) by {
                        assert(self@.entries[i as int].selected);
                    }
                }
                return true;
            }
            i = i + 1;
        }
        false
    }

    /// The paths of every flagged entry, in listing order.
    pub fn get_selected_paths(&self) -> (r: Vec<String>)
        ensures
            r.deep_view() == selected_paths(self@.entries),
    {
        let n = self.entries.len();
        let mut r: Vec<String> = Vec::new();
        let mut i: usize = 0;
        while i < n
            invariant
                i <= n,
                n == self@.entries.len(),
                r.deep_view() =~= selected_paths(self@.entries.take(i as int)),
            decreases n - i,
        {
            proof {
                assert(self@.entries.take(i + 1).drop_last() =~= self@.entries.take(i as int));
                assert(self@.entries.take(i + 1).last() == self@.entries[i as int]);
            }
            if self.entries[i].is_selected {
                r.push(self.entries[i].entry_path.clone());
            }
            i = i + 1;
        }
        proof {
            assert(self@.entries.take(n as int) =~= self@.entries);
        }
        r
    }

    /// Snapshot the clipboard's source paths: the flagged entries, or
    /// the single auto-selected cursor entry when nothing is flagged in
    /// normal mode.
    pub fn set_clipboard_entries(&mut self)
        ensures
            final(self)@ == set_clipboard_entries_model(old(self)@),
    {
        let has_sel = self.has_selected_entry();
        if self.mode == InteractionMode::Normal && !has_sel {
            if let Some(i) = self.selection {
                if i < self.entries.len() {
                    let path = self.entries[i].entry_path.clone();
                    self.mark_selected(i);
                    let mut v: Vec<String> = Vec::new();
                    v.push(path);
                    self.clipboard.set_clipboard_paths(v);
                    proof {
                        assert(v.deep_view() =~= seq![old(self)@.entries[i as int].path]);
                        assert(self@ =~~= set_clipboard_entries_model(old(self)@));
                    }
                }
            }
        } else {
            let paths = self.get_selected_paths();
            self.clipboard.set_clipboard_paths(paths);
            proof {
                assert(self@ =~~= set_clipboard_entries_model(old(self)@));
            }
        }
    }

    /// Arm the clipboard for a copy and snapshot its sources.
    pub fn copy_selected_entries(&mut self)
        ensures
            final(self)@ == set_clipboard_entries_model(
                clipboard_with_action(old(self)@, Action::Copy),
            ),
    {
        self.set_clipboard_actions(Action::Copy);
        self.set_clipboard_entries();
    }

    /// Arm the clipboard for a move and snapshot its sources.
    pub fn move_selected_entries(&mut self)
        ensures
            final(self)@ == set_clipboard_entries_model(
                clipboard_with_action(old(self)@, Action::Move),
            ),
    {
        self.set_clipboard_actions(Action::Move);
        self.set_clipboard_entries();
    }

    /// The pending paste, one source at a time: each clipboard path and
    /// its destination under the current directory.
    pub fn paste_plan(&self) -> (r: Vec<PasteItem>)
        ensures
            r.deep_view() == paste_plan_model(self@),
    {
        let n = self.clipboard.paths.len();
        let mut r: Vec<PasteItem> = Vec::new();
        let mut i: usize = 0;
        while i < n
            invariant
                i <= n,
                n == self@.clipboard.paths.len(),
                r.deep_view() =~= paste_plan_model(self@).take(i as int),
            decreases n - i,
        {
            let ghost old_dv = r.deep_view();
            let src = self.clipboard.paths[i].clone();
            let base = basename(src.as_str());
            let dst = join_path(self.current_path.as_str(), base.as_str());
            proof {
                assert(src@ == self@.clipboard.paths[i as int]);
                assert(paste_plan_model(self@)[i as int] == (PasteItemModel {
                    src: src@,
                    dst: dst@,
                }));
            }
            r.push(PasteItem { src, dst });
            proof {
                assert(r.deep_view() =~= old_dv.push(paste_plan_model(self@)[i as int]));
                assert(r.deep_view() =~= paste_plan_model(self@).take(i + 1));
            }
            i = i + 1;
        }
        proof {
            assert(paste_plan_model(self@).take(n as int) =~= paste_plan_model(self@));
        }
        r
    }

    /// During a move, the source is removed only after its copy
    /// succeeded: a failed copy aborts the delete.
    pub fn move_delete_permitted(copy_result: &Result<(), String>) -> (b: bool)
        ensures
            b == (copy_result is Ok),
    {
        match copy_result {
            Ok(_) => true,
            Err(_) => false,
        }
    }

    /// After every paste item ran: re-list the current directory and
    /// disarm the clipboard.  The source paths are kept, so the same
    /// clipboard can be pasted again elsewhere.
    pub fn paste_finish(&mut self, snap: Result<Snapshot, String>, now_ms: u64)
        ensures
            (snap matches Ok(s) ==> final(self)@ == clipboard_with_action(
                apply_snapshot_model(old(self)@, old(self)@.current_path, s@),
                Action::Idle,
            )),
            (snap matches Err(e) ==> final(self)@ == clipboard_with_action(
                notified_model(old(self)@, e@, now_ms),
                Action::Idle,
            )),
    {
        let cur = self.current_path.clone();
        self.refresh_current_directory(cur, snap, now_ms);
        self.set_clipboard_actions(Action::Idle);
    }

    /// In normal mode, clear every selection flag.  Returns whether the
    /// listing should be refreshed afterwards.
    pub fn deselect_all(&mut self) -> (resnap: bool)
        ensures
            old(self)@.mode == InteractionMode::Normal ==> {
                &&& final(self)@ == (StateModel {
                    entries: cleared_entries(old(self)@.entries),
                    ..old(self)@
                })
                &&& resnap
            },
            old(self)@.mode != InteractionMode::Normal ==> final(self)@ == old(self)@ && !resnap,
    {
        if self.mode == InteractionMode::Normal {
            let n = self.entries.len();
            let mut i: usize = 0;
            while i < n
                invariant
                    i <= n,
                    n == self@.entries.len(),
                    n == old(self)@.entries.len(),
                    self@ == (StateModel { entries: self@.entries, ..old(self)@ }),
                    forall|j: int| 0 <= j < i ==> self@.entries[j] == cleared_entries(
                        old(self)@.entries,
                    )[j],
                    forall|j: int| i <= j < n ==> self@.entries[j] == old(self)@.entries[j],
                decreases n - i,
            {
                self.set_selected_flag(i, false);
                proof {
                    assert(cleared_entries(old(self)@.entries).len() == old(self)@.entries.len());
                    assert(cleared_entries(old(self)@.entries)[i as int] =~= (EntryModel {
                        selected: false,
                        ..old(self)@.entries[i as int]
                    }));
                }
                i = i + 1;
            }
            proof {
                assert(self@.entries =~= cleared_entries(old(self)@.entries));
            }
            true
        } else {
            false
        }
    }
}

/// Every entry with its selection flag lowered.
pub open spec fn cleared_entries(entries: Seq<EntryModel>) -> Seq<EntryModel> {
    entries.map_values(|e: EntryModel| EntryModel { selected: false, ..e })
}

} // verus!
