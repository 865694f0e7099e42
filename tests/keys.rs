use rtfm_core::app_state::{AppState, CreateFileType, FocusBlock, InputMode};
use rtfm_core::keys::{key_command, Command, Key, KeyCode};
use rtfm_core::task_manager::TaskKind;

fn plain(code: KeyCode) -> Key {
    Key { code, ctrl: false, shift: false, alt: false }
}

fn ctrl(code: KeyCode) -> Key {
    Key { code, ctrl: true, shift: false, alt: false }
}

fn alt(code: KeyCode) -> Key {
    Key { code, ctrl: false, shift: false, alt: true }
}

fn state() -> AppState {
    AppState::new("/home/u".to_string(), Vec::new(), Vec::new())
}

#[test]
fn global_bindings_come_first() {
    let mut s = state();
    s.show_input_dialog = true;
    assert_eq!(key_command(&s, ctrl(KeyCode::Char('n'))), Command::NewTab);
    assert_eq!(key_command(&s, ctrl(KeyCode::Char('w'))), Command::CloseTab);
    assert_eq!(key_command(&s, ctrl(KeyCode::Tab)), Command::NextTab);
    assert_eq!(key_command(&s, ctrl(KeyCode::BackTab)), Command::PreviousTab);
    assert_eq!(key_command(&s, ctrl(KeyCode::Char('`'))), Command::ToggleTerminal);
    assert_eq!(key_command(&s, alt(KeyCode::Char('t'))), Command::ToggleTabs);
    assert_eq!(key_command(&s, alt(KeyCode::Char('1'))), Command::SelectTab(0));
    assert_eq!(key_command(&s, alt(KeyCode::Char('2'))), Command::Nothing);
}

#[test]
fn confirmation_and_dialog_take_keys() {
    let mut s = state();
    s.show_confirmation = true;
    assert_eq!(key_command(&s, plain(KeyCode::Char('y'))), Command::ConfirmDelete);
    assert_eq!(key_command(&s, plain(KeyCode::Esc)), Command::CancelDelete);
    s.show_confirmation = false;
    s.show_input_dialog = true;
    assert_eq!(key_command(&s, plain(KeyCode::Char('q'))), Command::InputChar('q'));
    assert_eq!(key_command(&s, plain(KeyCode::Backspace)), Command::InputBackspace);
    assert_eq!(key_command(&s, plain(KeyCode::Enter)), Command::SubmitInput);
    assert_eq!(key_command(&s, plain(KeyCode::Esc)), Command::CancelInput);
}

#[test]
fn normal_mode_bindings_follow_focus() {
    let mut s = state();
    assert_eq!(key_command(&s, plain(KeyCode::Char('q'))), Command::Quit);
    assert_eq!(key_command(&s, plain(KeyCode::Down)), Command::CursorDown(true));
    assert_eq!(key_command(&s, plain(KeyCode::Char('k'))), Command::CursorUp(true));
    assert_eq!(key_command(&s, plain(KeyCode::Char('h'))), Command::LeaveDirectory);
    assert_eq!(key_command(&s, plain(KeyCode::Enter)), Command::EnterDirectory);
    assert_eq!(key_command(&s, plain(KeyCode::Char('p'))), Command::Paste);
    assert_eq!(key_command(&s, plain(KeyCode::Char('n'))), Command::EnterCreateMode);
    s.focus = FocusBlock::Xdg;
    assert_eq!(key_command(&s, plain(KeyCode::Char('j'))), Command::CursorDown(false));
    assert_eq!(key_command(&s, plain(KeyCode::Left)), Command::Nothing);
    assert_eq!(key_command(&s, plain(KeyCode::Other)), Command::Nothing);
}

#[test]
fn create_mode_picks_the_kind() {
    let mut s = state();
    s.input_mode = InputMode::Create;
    assert_eq!(
        key_command(&s, plain(KeyCode::Char('f'))),
        Command::ChooseCreateType(CreateFileType::File)
    );
    assert_eq!(
        key_command(&s, plain(KeyCode::Char('d'))),
        Command::ChooseCreateType(CreateFileType::Directory)
    );
    assert_eq!(key_command(&s, plain(KeyCode::Char('z'))), Command::LeaveCreateMode);
}

#[test]
fn input_dialog_creates_the_typed_item() {
    let mut s = state();
    s.enter_create_mode();
    assert_eq!(s.input_mode, InputMode::Create);
    s.choose_create_type(CreateFileType::File);
    assert!(s.show_input_dialog);
    assert_eq!(s.input_mode, InputMode::Normal);
    s.input_char('a');
    s.input_char('x');
    s.input_backspace();
    s.input_char('b');
    assert_eq!(s.input_buffer, "ab");
    s.submit_input();
    assert!(!s.show_input_dialog);
    let tasks = s.task_manager.get_tasks();
    assert_eq!(tasks[0].kind, TaskKind::CreateFile { path: "/home/u/ab".to_string() });
    s.input_backspace();
    assert_eq!(s.input_buffer, "");
    s.input_char('z');
    s.cancel_input();
    assert!(s.input_buffer.is_empty());
    s.leave_create_mode();
    assert_eq!(s.input_mode, InputMode::Normal);
}

#[test]
fn select_tab_ignores_missing_tabs() {
    let mut s = state();
    s.new_tab("/tmp".to_string());
    s.select_tab(0);
    assert_eq!(s.active_tab_index, 0);
    s.select_tab(5);
    assert_eq!(s.active_tab_index, 0);
}
