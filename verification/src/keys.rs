//! Keyboard dispatch.
//!
//! One decoded key becomes exactly one engine transition plus, where
//! filesystem work is wanted, one command telling the caller which
//! operation to drive.  While a popup is open it captures every key;
//! otherwise the binding depends on the interaction mode.

use vstd::prelude::*;

use crate::engine::clipboard_with_action;
use crate::engine::cleared_entries;
use crate::engine::mark_at;
use crate::engine::nav_down_model;
use crate::engine::nav_up_model;
use crate::engine::set_clipboard_entries_model;
use crate::engine::toggle_confirm_model;
use crate::model::Action;
use crate::model::FileManager;
use crate::model::InteractionMode;
use crate::model::PopupType;
use crate::model::StateModel;
use crate::textfmt::push_char;

verus! {

/// One decoded keystroke, as the input layer hands it over.
#[derive(Clone, Copy, Debug, PartialEq, Eq, Structural)]
pub enum Key {
    Char(char),
    Enter,
    Backspace,
    Esc,
    Other,
}

/// What the caller must drive after a keystroke: nothing, quitting, or
/// one filesystem-backed operation.
#[derive(Clone, Copy, Debug, PartialEq, Eq, Structural)]
pub enum EngineCommand {
    Nothing,
    Quit,
    RefreshPreview,
    GoToParent,
    GoToChild,
    DeleteOne,
    DeleteMany,
    SubmitRename,
    SubmitCreate,
    Paste,
    Resnapshot,
}

/// The input buffer after one editing keystroke.
pub open spec fn input_after_backspace(input: Seq<char>) -> Seq<char> {
    if input.len() > 0 {
        input.drop_last()
    } else {
        input
    }
}

/// Entering multi-select mode seeds a selection at the cursor.
pub open spec fn enter_multiselect_model(m: StateModel) -> StateModel {
    if m.cursor is Some {
        StateModel {
            mode: InteractionMode::MultiSelect,
            entries: mark_at(m.entries, m.cursor.unwrap()),
            ..m
        }
    } else {
        StateModel { mode: InteractionMode::MultiSelect, ..m }
    }
}

/// The whole keyboard surface: the state after one keystroke and the
/// command the caller must drive next.
pub open spec fn process_key_model(m: StateModel, key: Key) -> (StateModel, EngineCommand) {
    match m.popup {
        PopupType::Confirm => match key {
            Key::Char(c) => if c == 'n' {
                (toggle_confirm_model(m), EngineCommand::Nothing)
            } else if c == 'y' {
                (
                    m,
                    if m.mode == InteractionMode::Normal {
                        EngineCommand::DeleteOne
                    } else {
                        EngineCommand::DeleteMany
                    },
                )
            } else {
                (m, EngineCommand::Nothing)
            },
            _ => (m, EngineCommand::Nothing),
        },
        PopupType::Rename => match key {
            Key::Char(c) => (StateModel { input: m.input.push(c), ..m }, EngineCommand::Nothing),
            Key::Backspace => (
                StateModel { input: input_after_backspace(m.input), ..m },
                EngineCommand::Nothing,
            ),
            Key::Enter => (m, EngineCommand::SubmitRename),
            Key::Esc => (StateModel { popup: PopupType::Closed, ..m }, EngineCommand::Nothing),
            Key::Other => (m, EngineCommand::Nothing),
        },
        PopupType::Create => match key {
            Key::Char(c) => (StateModel { input: m.input.push(c), ..m }, EngineCommand::Nothing),
            Key::Backspace => (
                StateModel { input: input_after_backspace(m.input), ..m },
                EngineCommand::Nothing,
            ),
            Key::Enter => (m, EngineCommand::SubmitCreate),
            Key::Esc => (StateModel { popup: PopupType::Closed, ..m }, EngineCommand::Nothing),
            Key::Other => (m, EngineCommand::Nothing),
        },
        PopupType::Closed => match m.mode {
            InteractionMode::Normal => match key {
                Key::Char(c) => if c == 'q' {
                    (m, EngineCommand::Quit)
                } else if c == 'j' {
                    (nav_down_model(m), EngineCommand::RefreshPreview)
                } else if c == 'k' {
                    (nav_up_model(m), EngineCommand::RefreshPreview)
                } else if c == 'h' {
                    (m, EngineCommand::GoToParent)
                } else if c == 'l' {
                    (m, EngineCommand::GoToChild)
                } else if c == 'd' {
                    (toggle_confirm_model(m), EngineCommand::Nothing)
                } else if c == 'r' {
                    if m.entries.len() > 0 {
                        (StateModel { popup: PopupType::Rename, ..m }, EngineCommand::Nothing)
                    } else {
                        (m, EngineCommand::Nothing)
                    }
                } else if c == 'a' {
                    (StateModel { popup: PopupType::Create, ..m }, EngineCommand::Nothing)
                } else if c == 'y' {
                    (
                        set_clipboard_entries_model(clipboard_with_action(m, Action::Copy)),
                        EngineCommand::Nothing,
                    )
                } else if c == 'x' {
                    (
                        set_clipboard_entries_model(clipboard_with_action(m, Action::Move)),
                        EngineCommand::Nothing,
                    )
                } else if c == 'p' {
                    (m, EngineCommand::Paste)
                } else if c == 'v' {
                    (enter_multiselect_model(m), EngineCommand::Nothing)
                } else {
                    (m, EngineCommand::Nothing)
                },
                Key::Esc => (
                    StateModel { entries: cleared_entries(m.entries), ..m },
                    EngineCommand::Resnapshot,
                ),
                _ => (m, EngineCommand::Nothing),
            },
            InteractionMode::MultiSelect => match key {
                Key::Char(c) => if c == 'q' {
                    (m, EngineCommand::Quit)
                } else if c == 'j' {
                    (nav_down_model(m), EngineCommand::RefreshPreview)
                } else if c == 'k' {
                    (nav_up_model(m), EngineCommand::RefreshPreview)
                } else if c == 'd' {
                    (toggle_confirm_model(m), EngineCommand::Nothing)
                } else {
                    (m, EngineCommand::Nothing)
                },
                Key::Esc => (
                    StateModel { mode: InteractionMode::Normal, ..m },
                    EngineCommand::Nothing,
                ),
                _ => (m, EngineCommand::Nothing),
            },
        },
    }
}

impl FileManager {
    /// Append one character to the popup input buffer.
    fn input_buffer_push(&mut self, c: char)
        ensures
            final(self)@ == (StateModel { input: old(self)@.input.push(c), ..old(self)@ }),
    {
        push_char(&mut self.input_buffer, c);
    }

    /// Drop the last character of the popup input buffer, if any.
    fn input_buffer_backspace(&mut self)
        ensures
            final(self)@ == (StateModel {
                input: input_after_backspace(old(self)@.input),
                ..old(self)@
            }),
    {
        let n = self.input_buffer.as_str().unicode_len();
        if n > 0 {
            let t = self.input_buffer.as_str().substring_char(0, n - 1).to_owned();
            proof {
                assert(t@ =~= input_after_backspace(self@.input));
            }
            self.input_buffer = t;
        }
    }

    /// Dispatch one keystroke: apply its transition and name the
    /// operation the caller must drive next.
    pub fn process_key(&mut self, key: Key) -> (r: EngineCommand)
        ensures
            final(self)@ == process_key_model(old(self)@, key).0,
            r == process_key_model(old(self)@, key).1,
    {
        match self.popup {
            PopupType::Confirm => {
                match key {
                    Key::Char(c) => {
                        if c == 'n' {
                            self.toggle_confirmation_popup();
                            EngineCommand::Nothing
                        } else if c == 'y' {
                            if self.mode == InteractionMode::Normal {
                                EngineCommand::DeleteOne
                            } else {
                                EngineCommand::DeleteMany
                            }
                        } else {
                            EngineCommand::Nothing
                        }
                    },
                    _ => EngineCommand::Nothing,
                }
            },
            PopupType::Rename => {
                match key {
                    Key::Char(c) => {
                        self.input_buffer_push(c);
                        EngineCommand::Nothing
                    },
                    Key::Backspace => {
                        self.input_buffer_backspace();
                        EngineCommand::Nothing
                    },
                    Key::Enter => EngineCommand::SubmitRename,
                    Key::Esc => {
                        self.popup = PopupType::Closed;
                        EngineCommand::Nothing
                    },
                    Key::Other => EngineCommand::Nothing,
                }
            },
            PopupType::Create => {
                match key {
                    Key::Char(c) => {
                        self.input_buffer_push(c);
                        EngineCommand::Nothing
                    },
                    Key::Backspace => {
                        self.input_buffer_backspace();
                        EngineCommand::Nothing
                    },
                    Key::Enter => EngineCommand::SubmitCreate,
                    Key::Esc => {
                        self.popup = PopupType::Closed;
                        EngineCommand::Nothing
                    },
                    Key::Other => EngineCommand::Nothing,
                }
            },
            PopupType::Closed => {
                match self.mode {
                    InteractionMode::Normal => {
                        match key {
                            Key::Char(c) => {
                                if c == 'q' {
                                    EngineCommand::Quit
                                } else if c == 'j' {
                                    self.navigate_down();
                                    EngineCommand::RefreshPreview
                                } else if c == 'k' {
                                    self.navigate_up();
                                    EngineCommand::RefreshPreview
                                } else if c == 'h' {
                                    EngineCommand::GoToParent
                                } else if c == 'l' {
                                    EngineCommand::GoToChild
                                } else if c == 'd' {
                                    self.toggle_confirmation_popup();
                                    EngineCommand::Nothing
                                } else if c == 'r' {
                                    if self.entries.len() > 0 {
                                        self.popup = PopupType::Rename;
                                    }
                                    EngineCommand::Nothing
                                } else if c == 'a' {
                                    self.popup = PopupType::Create;
                                    EngineCommand::Nothing
                                } else if c == 'y' {
                                    self.copy_selected_entries();
                                    EngineCommand::Nothing
                                } else if c == 'x' {
                                    self.move_selected_entries();
                                    EngineCommand::Nothing
                                } else if c == 'p' {
                                    EngineCommand::Paste
                                } else if c == 'v' {
                                    self.mode = InteractionMode::MultiSelect;
                                    if let Some(i) = self.selection {
                                        self.mark_selected(i);
                                    }
                                    proof {
                                        assert(self@ =~~= enter_multiselect_model(old(self)@));
                                    }
                                    EngineCommand::Nothing
                                } else {
                                    EngineCommand::Nothing
                                }
                            },
                            Key::Esc => {
                                let _resnap = self.deselect_all();
                                proof {
                                    assert(self@ =~~= process_key_model(old(self)@, key).0);
                                }
                                EngineCommand::Resnapshot
                            },
                            _ => EngineCommand::Nothing,
                        }
                    },
                    InteractionMode::MultiSelect => {
                        match key {
                            Key::Char(c) => {
                                if c == 'q' {
                                    EngineCommand::Quit
                                } else if c == 'j' {
                                    self.navigate_down();
                                    EngineCommand::RefreshPreview
                                } else if c == 'k' {
                                    self.navigate_up();
                                    EngineCommand::RefreshPreview
                                } else if c == 'd' {
                                    self.toggle_confirmation_popup();
                                    EngineCommand::Nothing
                                } else {
                                    EngineCommand::Nothing
                                }
                            },
                            Key::Esc => {
                                self.mode = InteractionMode::Normal;
                                EngineCommand::Nothing
                            },
                            _ => EngineCommand::Nothing,
                        }
                    },
                }
            },
        }
    }
}

} // verus!
