//! Data model of the browser state: entries, clipboard, notification,
//! parent panel, popup and mode enums, and the aggregate `FileManager`.
//!
//! Each executable type has a ghost model (its [`View`]) over `Seq` and
//! plain values; contracts elsewhere in the crate speak of these models.

use vstd::prelude::*;

verus! {

/// The kind of one filesystem object shown in a listing panel.
#[derive(Clone, Copy, Debug, PartialEq, Eq, Structural)]
pub enum FsEntryType {
    File,
    Directory,
    Symlink,
}

/// One filesystem object shown in a listing panel.
///
/// Identity is the absolute path; `is_selected` is the only field the
/// engine mutates in place.  Entries are replaced wholesale whenever the
/// containing directory is listed again.
#[derive(Clone, Debug)]
pub struct FsEntry {
    pub name: String,
    pub entry_path: String,
    pub entry_type: FsEntryType,
    pub size: u64,
    pub file_permission: u32,
    pub is_selected: bool,
}

/// Ghost model of an [`FsEntry`].
#[verifier::ext_equal]
pub struct EntryModel {
    pub name: Seq<char>,
    pub path: Seq<char>,
    pub kind: FsEntryType,
    pub size: u64,
    pub permission: u32,
    pub selected: bool,
}

impl View for FsEntry {
    type V = EntryModel;

    open spec fn view(&self) -> EntryModel {
        EntryModel {
            name: self.name@,
            path: self.entry_path@,
            kind: self.entry_type,
            size: self.size,
            permission: self.file_permission,
            selected: self.is_selected,
        }
    }
}

impl DeepView for FsEntry {
    type V = EntryModel;

    open spec fn deep_view(&self) -> EntryModel {
        self.view()
    }
}

impl FsEntry {
    pub fn new(
        name: String,
        entry_path: String,
        entry_type: FsEntryType,
        size: u64,
        file_permission: u32,
        is_selected: bool,
    ) -> (r: Self)
        ensures
            r@ == (EntryModel {
                name: name@,
                path: entry_path@,
                kind: entry_type,
                size,
                permission: file_permission,
                selected: is_selected,
            }),
    {
        Self { name, entry_path, entry_type, size, file_permission, is_selected }
    }

    pub fn name(&self) -> (r: &str)
        ensures
            r@ == self@.name,
    {
        self.name.as_str()
    }

    pub fn entry_type(&self) -> (r: &FsEntryType)
        ensures
            *r == self@.kind,
    {
        &self.entry_type
    }

    pub fn entry_path(&self) -> (r: &str)
        ensures
            r@ == self@.path,
    {
        self.entry_path.as_str()
    }

    pub fn file_permission(&self) -> (r: u32)
        ensures
            r == self@.permission,
    {
        self.file_permission
    }

    pub fn size(&self) -> (r: u64)
        ensures
            r == self@.size,
    {
        self.size
    }
}

/// Content of the preview panel when a file is under the cursor.
#[derive(Clone, Debug)]
pub enum FileContent {
    Text(String),
    Binary(String),
}

/// Content of the preview panel: a listed subdirectory or a file body.
#[derive(Clone, Debug)]
pub enum PreviewContent {
    File(FileContent),
    Directory(Vec<FsEntry>),
}

/// Ghost model of a [`PreviewContent`].
#[verifier::ext_equal]
pub enum PreviewModel {
    Text(Seq<char>),
    Binary(Seq<char>),
    Directory(Seq<EntryModel>),
}

impl View for PreviewContent {
    type V = PreviewModel;

    open spec fn view(&self) -> PreviewModel {
        match self {
            PreviewContent::File(FileContent::Text(s)) => PreviewModel::Text(s@),
            PreviewContent::File(FileContent::Binary(s)) => PreviewModel::Binary(s@),
            PreviewContent::Directory(v) => PreviewModel::Directory(v.deep_view()),
        }
    }
}

/// The modal popup that currently captures keyboard input, if any.
#[derive(Clone, Copy, Debug, PartialEq, Eq, Structural)]
pub enum PopupType {
    Confirm,
    Rename,
    Create,
    Closed,
}

/// Whether single-target or multi-select semantics are active.
#[derive(Clone, Copy, Debug, PartialEq, Eq, Structural)]
pub enum InteractionMode {
    Normal,
    MultiSelect,
}

/// A transient status message with its creation instant and lifetime,
/// both in milliseconds.
#[derive(Clone, Debug)]
pub struct Notification {
    pub message: String,
    pub created_at: u64,
    pub duration: u64,
}

/// Ghost model of a [`Notification`].
#[verifier::ext_equal]
pub struct NoteModel {
    pub message: Seq<char>,
    pub created_at: u64,
    pub duration: u64,
}

impl View for Notification {
    type V = NoteModel;

    open spec fn view(&self) -> NoteModel {
        NoteModel { message: self.message@, created_at: self.created_at, duration: self.duration }
    }
}

impl DeepView for Notification {
    type V = NoteModel;

    open spec fn deep_view(&self) -> NoteModel {
        self.view()
    }
}

/// How long a notification stays on screen, in milliseconds.
pub const NOTIFICATION_DURATION_MS: u64 = 3000;

impl Notification {
    pub fn new(message: String, now_ms: u64) -> (r: Self)
        ensures
            r@ == (NoteModel {
                message: message@,
                created_at: now_ms,
                duration: NOTIFICATION_DURATION_MS,
            }),
    {
        Self { message, created_at: now_ms, duration: NOTIFICATION_DURATION_MS }
    }

    pub fn message(&self) -> (r: &str)
        ensures
            r@ == self@.message,
    {
        self.message.as_str()
    }

    pub fn created_at(&self) -> (r: u64)
        ensures
            r == self@.created_at,
    {
        self.created_at
    }

    pub fn duration(&self) -> (r: u64)
        ensures
            r == self@.duration,
    {
        self.duration
    }
}

/// The pending clipboard action awaiting a paste.
#[derive(Clone, Copy, Debug, PartialEq, Eq, Structural)]
pub enum Action {
    Move,
    Copy,
    Idle,
}

/// Source paths snapshotted by a copy or move, plus the pending action.
#[derive(Clone, Debug)]
pub struct Clipboard {
    pub paths: Vec<String>,
    pub action: Action,
}

/// Ghost model of a [`Clipboard`].
#[verifier::ext_equal]
pub struct ClipboardModel {
    pub paths: Seq<Seq<char>>,
    pub action: Action,
}

impl View for Clipboard {
    type V = ClipboardModel;

    open spec fn view(&self) -> ClipboardModel {
        ClipboardModel { paths: self.paths.deep_view(), action: self.action }
    }
}

impl Clipboard {
    pub fn empty() -> (r: Self)
        ensures
            r@ == (ClipboardModel { paths: Seq::<Seq<char>>::empty(), action: Action::Idle }),
    {
        let r = Self { paths: Vec::new(), action: Action::Idle };
        proof {
            assert(r@.paths =~= Seq::<Seq<char>>::empty());
        }
        r
    }

    pub fn get_path(&self) -> (r: &Vec<String>)
        ensures
            r.deep_view() == self@.paths,
    {
        &self.paths
    }

    pub fn set_clipboard_paths(&mut self, path: Vec<String>)
        ensures
            final(self)@ == (ClipboardModel { paths: path.deep_view(), ..old(self)@ }),
    {
        self.paths = path;
    }

    pub fn action(&self) -> (r: Action)
        ensures
            r == self@.action,
    {
        self.action
    }

    pub fn set_action(&mut self, action: Action)
        ensures
            final(self)@ == (ClipboardModel { action, ..old(self)@ }),
    {
        self.action = action;
    }
}

/// The "go up" panel: the parent directory's entries, its path (`None`
/// only at the filesystem root) and the cursor the current directory had
/// when it was descended into.
#[derive(Clone, Debug)]
pub struct ParentView {
    pub entries: Vec<FsEntry>,
    pub path: Option<String>,
    pub selection: Option<usize>,
}

/// Ghost model of a [`ParentView`].
#[verifier::ext_equal]
pub struct ParentModel {
    pub entries: Seq<EntryModel>,
    pub path: Option<Seq<char>>,
    pub cursor: Option<usize>,
}

impl View for ParentView {
    type V = ParentModel;

    open spec fn view(&self) -> ParentModel {
        ParentModel {
            entries: self.entries.deep_view(),
            path: self.path.deep_view(),
            cursor: self.selection,
        }
    }
}

impl ParentView {
    pub fn new(entries: Vec<FsEntry>, path: Option<String>) -> (r: Self)
        ensures
            r@ == (ParentModel {
                entries: entries.deep_view(),
                path: path.deep_view(),
                cursor: None,
            }),
    {
        Self { entries, path, selection: None }
    }

    pub fn path(&self) -> (r: &Option<String>)
        ensures
            r.deep_view() == self@.path,
    {
        &self.path
    }

    pub fn set_path(&mut self, path: Option<String>)
        ensures
            final(self)@ == (ParentModel { path: path.deep_view(), ..old(self)@ }),
    {
        self.path = path;
    }

    pub fn entries(&self) -> (r: &Vec<FsEntry>)
        ensures
            r.deep_view() == self@.entries,
    {
        &self.entries
    }

    pub fn set_entries(&mut self, entries: Vec<FsEntry>)
        ensures
            final(self)@ == (ParentModel { entries: entries.deep_view(), ..old(self)@ }),
    {
        self.entries = entries;
    }

    pub fn selection(&self) -> (r: Option<usize>)
        ensures
            r == self@.cursor,
    {
        self.selection
    }

    pub fn set_selection(&mut self, state: Option<usize>)
        ensures
            final(self)@ == (ParentModel { cursor: state, ..old(self)@ }),
    {
        self.selection = state;
    }
}

/// The aggregate browser state.  All user-triggered operations live in
/// the `engine`, `ops` and `keys` modules.
#[derive(Clone, Debug)]
pub struct FileManager {
    pub parent_view: ParentView,
    pub current_path: String,
    pub entries: Vec<FsEntry>,
    pub preview: PreviewContent,
    pub selection: Option<usize>,
    pub mode: InteractionMode,
    pub notify: Option<Notification>,
    pub clipboard: Clipboard,
    pub input_buffer: String,
    pub popup: PopupType,
}

/// Ghost model of the whole [`FileManager`].
#[verifier::ext_equal]
pub struct StateModel {
    pub parent: ParentModel,
    pub current_path: Seq<char>,
    pub entries: Seq<EntryModel>,
    pub preview: PreviewModel,
    pub cursor: Option<usize>,
    pub mode: InteractionMode,
    pub notify: Option<NoteModel>,
    pub clipboard: ClipboardModel,
    pub input: Seq<char>,
    pub popup: PopupType,
}

impl View for FileManager {
    type V = StateModel;

    open spec fn view(&self) -> StateModel {
        StateModel {
            parent: self.parent_view@,
            current_path: self.current_path@,
            entries: self.entries.deep_view(),
            preview: self.preview@,
            cursor: self.selection,
            mode: self.mode,
            notify: self.notify.deep_view(),
            clipboard: self.clipboard@,
            input: self.input_buffer@,
            popup: self.popup,
        }
    }
}

/// The cursor always rests on a valid index while the listing is
/// non-empty.
pub open spec fn cursor_in_bounds(cursor: Option<usize>, len: nat) -> bool {
    len > 0 ==> cursor.is_some() && (cursor.unwrap() as nat) < len
}

impl StateModel {
    /// Well-formedness of the aggregate state.
    pub open spec fn wf(self) -> bool {
        cursor_in_bounds(self.cursor, self.entries.len())
    }
}

impl FileManager {
    pub fn entries(&self) -> (r: &Vec<FsEntry>)
        ensures
            r.deep_view() == self@.entries,
    {
        &self.entries
    }

    pub fn set_entries(&mut self, entry: Vec<FsEntry>)
        ensures
            final(self)@ == (StateModel { entries: entry.deep_view(), ..old(self)@ }),
    {
        self.entries = entry;
    }

    pub fn selection(&self) -> (r: Option<usize>)
        ensures
            r == self@.cursor,
    {
        self.selection
    }

    pub fn set_selection(&mut self, state: Option<usize>)
        ensures
            final(self)@ == (StateModel { cursor: state, ..old(self)@ }),
    {
        self.selection = state;
    }

    pub fn set_preview(&mut self, preview: PreviewContent)
        ensures
            final(self)@ == (StateModel { preview: preview@, ..old(self)@ }),
    {
        self.preview = preview;
    }

    pub fn current_path(&self) -> (r: &str)
        ensures
            r@ == self@.current_path,
    {
        self.current_path.as_str()
    }

    pub fn set_current_path(&mut self, path: String)
        ensures
            final(self)@ == (StateModel { current_path: path@, ..old(self)@ }),
    {
        self.current_path = path;
    }

    pub fn parent_view(&self) -> (r: &ParentView)
        ensures
            r@ == self@.parent,
    {
        &self.parent_view
    }

    pub fn parent_view_entries(&self) -> (r: &Vec<FsEntry>)
        ensures
            r.deep_view() == self@.parent.entries,
    {
        &self.parent_view.entries
    }

    pub fn mode(&self) -> (r: InteractionMode)
        ensures
            r == self@.mode,
    {
        self.mode
    }

    pub fn set_mode(&mut self, mode: InteractionMode)
        ensures
            final(self)@ == (StateModel { mode, ..old(self)@ }),
    {
        self.mode = mode;
    }

    pub fn popup(&self) -> (r: PopupType)
        ensures
            r == self@.popup,
    {
        self.popup
    }

    pub fn set_popup(&mut self, action: PopupType)
        ensures
            final(self)@ == (StateModel { popup: action, ..old(self)@ }),
    {
        self.popup = action;
    }

    pub fn clipboard(&self) -> (r: &Clipboard)
        ensures
            r@ == self@.clipboard,
    {
        &self.clipboard
    }

    pub fn clipboard_actions(&self) -> (r: Action)
        ensures
            r == self@.clipboard.action,
    {
        self.clipboard.action()
    }

    pub fn set_clipboard_actions(&mut self, action: Action)
        ensures
            final(self)@ == (StateModel {
                clipboard: ClipboardModel { action, ..old(self)@.clipboard },
                ..old(self)@
            }),
    {
        self.clipboard.set_action(action);
    }

    pub fn input_buffer(&self) -> (r: &str)
        ensures
            r@ == self@.input,
    {
        self.input_buffer.as_str()
    }

    pub fn notify(&self) -> (r: Option<&Notification>)
        ensures
            match r {
                Some(n) => self@.notify == Some(n@),
                None => self@.notify is None,
            },
    {
        self.notify.as_ref()
    }

    pub fn clear_notify(&mut self)
        ensures
            final(self)@ == (StateModel { notify: None, ..old(self)@ }),
    {
        self.notify = None;
    }

    pub fn preview_mut(&self) -> (r: &PreviewContent)
        ensures
            r@ == self@.preview,
    {
        &self.preview
    }
}

} // verus!
