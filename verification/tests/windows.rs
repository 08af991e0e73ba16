//! The window state machines and the application state that drives them.

use fily::appstate::AppState;
use fily::empty::Empty;
use fily::eval::Command;
use fily::filemanager::{FileManager, InputOutcome};
use fily::key::Key;
use fily::window::{Element, WindowState};

fn s(t: &str) -> String {
    String::from(t)
}

fn no_dirs() -> Vec<String> {
    Vec::new()
}

#[test]
fn typing_a_command_into_a_content_window() {
    let mut e = Empty::new(s("hello"));
    assert!(!e.searching());
    assert_eq!(e.handle_input(Key::Char(':')), None);
    assert!(e.searching());
    assert_eq!(e.pulling_info(), s(":"));
    assert_eq!(e.handle_input(Key::Char('q')), None);
    assert_eq!(e.pulling_info(), s(":q"));
    let res = e.handle_input(Key::Enter);
    assert_eq!(res, Some(vec![Command::Quit()]));
    assert!(!e.searching());
    assert_eq!(e.pulling_info(), s(""));
}

#[test]
fn s_enters_entry_mode_without_accumulating() {
    let mut e = Empty::new(s(""));
    assert_eq!(e.handle_input(Key::Char('s')), None);
    assert!(e.searching());
    assert_eq!(e.pulling_info(), s(""));
    assert_eq!(e.handle_input(Key::Char('s')), None);
    assert_eq!(e.pulling_info(), s("s"));
}

#[test]
fn backspace_and_escape_in_entry_mode() {
    let mut e = Empty::new(s(""));
    e.handle_input(Key::Char('s'));
    e.handle_input(Key::Char('a'));
    e.handle_input(Key::Char('b'));
    assert_eq!(e.pulling_info(), s("ab"));
    e.handle_input(Key::Backspace);
    assert_eq!(e.pulling_info(), s("a"));
    e.handle_input(Key::Backspace);
    e.handle_input(Key::Backspace);
    assert_eq!(e.pulling_info(), s(""));
    e.handle_input(Key::Esc);
    assert!(!e.searching());
}

#[test]
fn enter_outside_entry_mode_does_nothing() {
    let mut e = Empty::new(s("line"));
    assert_eq!(e.handle_input(Key::Enter), None);
    assert!(!e.searching());
}

#[test]
fn browser_steps_into_the_selected_entry() {
    let mut f = FileManager::new(s("/a"), vec![s("/a/b"), s("/a/c")]);
    f.handle_input(Key::Down);
    assert_eq!(f.file_index(), 1);
    let out = f.handle_input(Key::Enter);
    assert_eq!(out, InputOutcome::RefreshDirs(s("/a/c")));
    assert_eq!(f.curr_dir(), &s("/a/c"));
    assert_eq!(f.file_index(), 0);
    f.set_dirs(vec![s("/a/c/d")]);
    assert_eq!(f.dirs(), &vec![s("/a/c/d")]);
}

#[test]
fn browser_steps_back_up_the_tree() {
    let mut f = FileManager::new(s("/a/b"), no_dirs());
    let out = f.handle_input(Key::Backspace);
    assert_eq!(out, InputOutcome::RefreshDirs(s("/a/")));
    assert_eq!(f.curr_dir(), &s("/a/"));
}

#[test]
fn browser_selection_stays_in_bounds() {
    let mut f = FileManager::new(s("/"), vec![s("/x")]);
    f.handle_input(Key::Up);
    assert_eq!(f.file_index(), 0);
    f.handle_input(Key::Down);
    assert_eq!(f.file_index(), 0);
}

#[test]
fn browser_entry_mode_runs_the_pipeline() {
    let mut f = FileManager::new(s("/"), no_dirs());
    f.handle_input(Key::Char('s'));
    assert!(f.searching());
    f.handle_input(Key::Char(':'));
    f.handle_input(Key::Char('r'));
    f.handle_input(Key::Char('f'));
    assert_eq!(f.pulling_info(), s(":rf"));
    let out = f.handle_input(Key::Enter);
    assert_eq!(out, InputOutcome::Commands(vec![Command::FocusRight()]));
    assert!(!f.searching());
}

#[test]
fn back_cuts_at_the_last_separator() {
    assert_eq!(FileManager::back(s("a/b/c/")), s("a/b/"));
    assert_eq!(FileManager::back(s("/a/b")), s("/a/"));
    assert_eq!(FileManager::back(s("x/")), s("x/"));
    assert_eq!(FileManager::back(s("x")), s("x"));
    assert_eq!(FileManager::back(s("")), s(""));
    assert_eq!(FileManager::back(s("/")), s("/"));
}

#[test]
fn window_dispatches_to_its_element() {
    let mut w = WindowState::new(s("notes"), Element::Empty(Box::new(Empty::new(s("text")))));
    assert_eq!(w.name(), s("notes"));
    assert!(!w.using_keyboard());
    w.handle_input(Key::Char('s'));
    assert!(w.using_keyboard());
    assert!(w.is_using_keyboard());
    w.handle_input(Key::Char('x'));
    assert_eq!(w.pulling_info(), s("x"));
}

#[test]
fn elements_convert_from_their_contents() {
    let e = Element::from(Empty::new(s("text")));
    assert!(matches!(e, Element::Empty(_)));
    let f = Element::from(FileManager::new(s("/"), no_dirs()));
    assert!(matches!(f, Element::FileManager(_)));
}

#[test]
fn empty_element_window_ignores_keys() {
    let mut w = WindowState::new(s("bare"), Element::Nothing);
    assert_eq!(w.handle_input(Key::Char('s')), InputOutcome::Quiet);
    assert!(!w.using_keyboard());
    assert_eq!(w.pulling_info(), s(""));
}

#[test]
fn win_command_opens_a_content_window() {
    let mut state = AppState::new();
    state.evaluate_commands(vec![Command::Win(s("hello"))], &s("/"), &no_dirs());
    assert_eq!(state.windowStates().len(), 1);
    assert_eq!(state.windowStates()[0].name(), s("empty"));
    assert_eq!(state.curr_win_index(), 0);
}

#[test]
fn explorer_command_opens_a_browser_window() {
    let mut state = AppState::new();
    state.evaluate_commands(vec![Command::Explorer()], &s("/srv"), &vec![s("/srv/log")]);
    assert_eq!(state.windowStates().len(), 1);
    assert_eq!(state.windowStates()[0].name(), s("balls"));
    match state.windowStates()[0].elements() {
        Element::FileManager(f) => {
            assert_eq!(f.curr_dir(), &s("/srv"));
            assert_eq!(f.dirs(), &vec![s("/srv/log")]);
        },
        other => panic!("expected a browser element, got a different one: {:?}", other),
    }
}

#[test]
fn copy_command_duplicates_the_focused_window() {
    let mut state = AppState::new();
    state.evaluate_commands(
        vec![Command::Win(s("one")), Command::CopyWin()],
        &s("/"),
        &no_dirs(),
    );
    assert_eq!(state.windowStates().len(), 2);
    assert_eq!(state.windowStates()[1].name(), s("empty"));
}

#[test]
fn quit_command_closes_the_focused_window() {
    let mut state = AppState::new();
    state.evaluate_commands(
        vec![Command::Win(s("a")), Command::Win(s("b")), Command::Quit()],
        &s("/"),
        &no_dirs(),
    );
    assert_eq!(state.windowStates().len(), 1);
}

#[test]
fn quit_command_on_an_empty_state_changes_nothing() {
    let mut state = AppState::new();
    state.evaluate_commands(vec![Command::Quit()], &s("/"), &no_dirs());
    assert_eq!(state.windowStates().len(), 0);
    assert!(!state.requests_exit());
}

#[test]
fn exit_command_raises_the_exit_flag() {
    let mut state = AppState::new();
    assert!(!state.requests_exit());
    state.evaluate_commands(vec![Command::RequestExit()], &s("/"), &no_dirs());
    assert!(state.requests_exit());
}

#[test]
fn unknown_commands_are_ignored() {
    let mut state = AppState::new();
    state.evaluate_commands(
        vec![Command::Unknown, Command::NoOp, Command::MapVar(s("v"), fily::token::Token::Glob)],
        &s("/"),
        &no_dirs(),
    );
    assert_eq!(state.windowStates().len(), 0);
}

#[test]
fn focus_wraps_around_both_ways() {
    let mut state = AppState::new();
    for name in ["a", "b", "c"] {
        state.push_win(WindowState::new(s(name), Element::Nothing));
    }
    assert_eq!(state.curr_win_index(), 0);
    state.focus_left();
    assert_eq!(state.curr_win_index(), 2);
    state.focus_right();
    assert_eq!(state.curr_win_index(), 0);
    state.focus_right();
    assert_eq!(state.curr_win_index(), 1);
    state.focus_left();
    assert_eq!(state.curr_win_index(), 0);
}

#[test]
fn focus_moves_on_an_empty_state_change_nothing() {
    let mut state = AppState::new();
    state.focus_left();
    state.focus_right();
    assert_eq!(state.curr_win_index(), 0);
}

#[test]
fn remove_win_refocuses() {
    let mut state = AppState::new();
    for name in ["a", "b"] {
        state.push_win(WindowState::new(s(name), Element::Nothing));
    }
    state.remove_win(0);
    assert_eq!(state.windowStates().len(), 1);
    assert_eq!(state.curr_win_index(), 0);
    assert_eq!(state.windowStates()[0].name(), s("b"));
}

#[test]
fn curr_win_is_none_on_an_empty_state() {
    let state = AppState::new();
    assert!(state.curr_win().is_none());
    assert!(!state.is_pulling_keys());
}

#[test]
fn state_routes_keys_to_the_focused_window() {
    let mut state = AppState::new();
    state.push_win(WindowState::new(s("w"), Element::Empty(Box::new(Empty::new(s(""))))));
    state.handle_input(Key::Char(':'));
    state.handle_input(Key::Char('e'));
    assert!(state.is_pulling_keys());
    let out = state.handle_input(Key::Enter);
    assert_eq!(out, InputOutcome::Commands(vec![Command::Explorer()]));
    assert!(!state.is_pulling_keys());
}

#[test]
fn state_refreshes_the_focused_browser() {
    let mut state = AppState::new();
    state.evaluate_commands(vec![Command::Explorer()], &s("/top"), &no_dirs());
    state.refresh_curr_dirs(vec![s("/top/sub")]);
    match state.windowStates()[0].elements() {
        Element::FileManager(f) => assert_eq!(f.dirs(), &vec![s("/top/sub")]),
        other => panic!("expected a browser element, got a different one: {:?}", other),
    }
}
