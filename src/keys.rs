//! Key bindings: which browser command a key press stands for.

use crate::app_state::{AppState, CreateFileType, FocusBlock, InputMode};
use vstd::prelude::*;

verus! {

/// The key of a key press.
#[derive(Debug, Clone, Copy, PartialEq, Eq, Structural)]
pub enum KeyCode {
    Char(char),
    Tab,
    BackTab,
    Up,
    Down,
    Left,
    Right,
    Enter,
    Esc,
    Backspace,
    Other,
}

/// A key press with its modifiers.
#[derive(Debug, Clone, Copy, PartialEq, Eq, Structural)]
pub struct Key {
    pub code: KeyCode,
    pub ctrl: bool,
    pub shift: bool,
    pub alt: bool,
}

/// What a key press asks of the browser.
#[derive(Debug, Clone, Copy, PartialEq, Eq, Structural)]
pub enum Command {
    NewTab,
    CloseTab,
    NextTab,
    PreviousTab,
    ToggleTerminal,
    /// Activate the tab at this index.
    SelectTab(usize),
    ToggleTabs,
    ConfirmDelete,
    CancelDelete,
    InputChar(char),
    InputBackspace,
    SubmitInput,
    CancelInput,
    EnterCreateMode,
    ChooseCreateType(CreateFileType),
    LeaveCreateMode,
    Quit,
    CycleFocus,
    ToggleHidden,
    /// Move down in the listing (`true`) or in the left pane (`false`).
    CursorDown(bool),
    /// Move up in the listing (`true`) or in the left pane (`false`).
    CursorUp(bool),
    LeaveDirectory,
    EnterDirectory,
    Yank,
    Cut,
    Delete,
    Paste,
    Bookmark,
    Nothing,
}

/// The browser state that decides what a key means.
pub struct KeyContext {
    pub show_confirmation: bool,
    pub show_input_dialog: bool,
    pub input_mode: InputMode,
    pub focus: FocusBlock,
    pub tab_count: usize,
}

/// The digit `c` stands for, for `'1'` to `'9'`.
pub open spec fn tab_digit(c: char) -> Option<nat> {
    if '1' <= c && c <= '9' {
        Some((c as u32 - '0' as u32) as nat)
    } else {
        None
    }
}

/// Global bindings, then the confirmation, then the input dialog, then the
/// bindings of the input mode.
pub open spec fn command_for(ctx: KeyContext, key: Key) -> Command {
    let code = key.code;
    if key.ctrl && code == KeyCode::Char('n') {
        Command::NewTab
    } else if key.ctrl && code == KeyCode::Char('w') {
        Command::CloseTab
    } else if key.ctrl && code == KeyCode::Tab {
        Command::NextTab
    } else if key.ctrl && code == KeyCode::Char('`') {
        Command::ToggleTerminal
    } else if key.ctrl && key.shift && code == KeyCode::Tab {
        Command::PreviousTab
    } else if key.alt && (code matches KeyCode::Char(c) && tab_digit(c) is Some) {
        let n = tab_digit(code->Char_0)->Some_0;
        if n <= ctx.tab_count {
            Command::SelectTab((n - 1) as usize)
        } else {
            Command::Nothing
        }
    } else if key.alt && code == KeyCode::Char('t') {
        Command::ToggleTabs
    } else if key.ctrl && code == KeyCode::BackTab {
        Command::PreviousTab
    } else if ctx.show_confirmation && code == KeyCode::Char('y') {
        Command::ConfirmDelete
    } else if ctx.show_confirmation && (code == KeyCode::Char('n') || code == KeyCode::Esc) {
        Command::CancelDelete
    } else if ctx.show_input_dialog && code is Char {
        Command::InputChar(code->Char_0)
    } else if ctx.show_input_dialog && code == KeyCode::Backspace {
        Command::InputBackspace
    } else if ctx.show_input_dialog && code == KeyCode::Enter {
        Command::SubmitInput
    } else if ctx.show_input_dialog && code == KeyCode::Esc {
        Command::CancelInput
    } else if ctx.input_mode == InputMode::Create {
        if code == KeyCode::Char('f') {
            Command::ChooseCreateType(CreateFileType::File)
        } else if code == KeyCode::Char('d') {
            Command::ChooseCreateType(CreateFileType::Directory)
        } else {
            Command::LeaveCreateMode
        }
    } else {
        let middle = ctx.focus == FocusBlock::Middle;
        if code == KeyCode::Char('n') {
            Command::EnterCreateMode
        } else if code == KeyCode::Char('q') {
            Command::Quit
        } else if code == KeyCode::Tab {
            Command::CycleFocus
        } else if code == KeyCode::Char('.') {
            Command::ToggleHidden
        } else if code == KeyCode::Char('j') || code == KeyCode::Down {
            Command::CursorDown(middle)
        } else if code == KeyCode::Char('k') || code == KeyCode::Up {
            Command::CursorUp(middle)
        } else if (code == KeyCode::Char('h') || code == KeyCode::Left) && middle {
            Command::LeaveDirectory
        } else if (code == KeyCode::Char('l') || code == KeyCode::Right || code == KeyCode::Enter)
            && middle {
            Command::EnterDirectory
        } else if code == KeyCode::Char('y') {
            Command::Yank
        } else if code == KeyCode::Char('x') {
            Command::Cut
        } else if code == KeyCode::Char('d') {
            Command::Delete
        } else if code == KeyCode::Char('p') {
            Command::Paste
        } else if code == KeyCode::Char('m') {
            Command::Bookmark
        } else {
            Command::Nothing
        }
    }
}

/// The context of `state` for key bindings.
pub open spec fn context_of(state: AppState) -> KeyContext {
    KeyContext {
        show_confirmation: state.show_confirmation,
        show_input_dialog: state.show_input_dialog,
        input_mode: state.input_mode,
        focus: state.focus,
        tab_count: state.tabs@.len() as usize,
    }
}

/// The command that `key` stands for in `state`.
pub fn key_command(state: &AppState, key: Key) -> (r: Command)
    ensures
        r == command_for(context_of(*state), key),
{
    let code = key.code;
    if key.ctrl {
        match code {
            KeyCode::Char('n') => return Command::NewTab,
            KeyCode::Char('w') => return Command::CloseTab,
            KeyCode::Tab => return Command::NextTab,
            KeyCode::Char('`') => return Command::ToggleTerminal,
            _ => {},
        }
    }
    if key.ctrl && key.shift && code == KeyCode::Tab {
        return Command::PreviousTab;
    }
    if key.alt {
        match code {
            KeyCode::Char(c) => {
                if '1' <= c && c <= '9' {
                    let n = (c as u32 - '0' as u32) as usize;
                    if n <= state.tabs.len() {
                        return Command::SelectTab(n - 1);
                    }
                    return Command::Nothing;
                }
                if c == 't' {
                    return Command::ToggleTabs;
                }
            },
            _ => {},
        }
    }
    if key.ctrl && code == KeyCode::BackTab {
        return Command::PreviousTab;
    }
    if state.show_confirmation {
        match code {
            KeyCode::Char('y') => return Command::ConfirmDelete,
            KeyCode::Char('n') | KeyCode::Esc => return Command::CancelDelete,
            _ => {},
        }
    }
    if state.show_input_dialog {
        match code {
            KeyCode::Char(c) => return Command::InputChar(c),
            KeyCode::Backspace => return Command::InputBackspace,
            KeyCode::Enter => return Command::SubmitInput,
            KeyCode::Esc => return Command::CancelInput,
            _ => {},
        }
    }
    match state.input_mode {
        InputMode::Create => match code {
            KeyCode::Char('f') => Command::ChooseCreateType(CreateFileType::File),
            KeyCode::Char('d') => Command::ChooseCreateType(CreateFileType::Directory),
            _ => Command::LeaveCreateMode,
        },
        InputMode::Normal => {
            let middle = state.focus == FocusBlock::Middle;
            match code {
                KeyCode::Char('n') => Command::EnterCreateMode,
                KeyCode::Char('q') => Command::Quit,
                KeyCode::Tab => Command::CycleFocus,
                KeyCode::Char('.') => Command::ToggleHidden,
                KeyCode::Char('j') | KeyCode::Down => Command::CursorDown(middle),
                KeyCode::Char('k') | KeyCode::Up => Command::CursorUp(middle),
                KeyCode::Char('h') | KeyCode::Left => if middle {
                    Command::LeaveDirectory
                } else {
                    Command::Nothing
                },
                KeyCode::Char('l') | KeyCode::Right | KeyCode::Enter => if middle {
                    Command::EnterDirectory
                } else {
                    Command::Nothing
                },
                KeyCode::Char('y') => Command::Yank,
                KeyCode::Char('x') => Command::Cut,
                KeyCode::Char('d') => Command::Delete,
                KeyCode::Char('p') => Command::Paste,
                KeyCode::Char('m') => Command::Bookmark,
                _ => Command::Nothing,
            }
        },
    }
}

} // verus!
