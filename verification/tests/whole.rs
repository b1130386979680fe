use git_sidebar::geometry::{split_git_sidebar_sections, Rect};
use git_sidebar::git_sidebar::{GitFileStatus, GitFileStatusKind, GitSidebarRow, GitSidebarState};
use git_sidebar::keys::{KeyCode, KeyEvent, CONTROL};
use git_sidebar::render::{render_git_sidebar, render_git_sidebar_collapsed, PaletteColor, Style};
use git_sidebar::runtime::{App, AppState, Mode, Workspace};

fn file(path: &str) -> GitFileStatus {
    GitFileStatus { path: path.to_string(), status: GitFileStatusKind::Added }
}

fn app() -> App {
    let mut state = GitSidebarState::default();
    state.cwd = Some("/repo".to_string());
    state.last_refresh = Some(0);
    state.staged_files = vec![file("a"), file("b")];
    state.untracked_files = vec![file("u")];
    App {
        state: AppState {
            active: Some(0),
            workspaces: vec![Workspace { resolved_cwd: Some("/repo".to_string()) }],
            mode: Mode::GitSidebar,
            git_sidebar_closed: false,
            git_sidebar_escape_to_dismiss: true,
            session_dirty: false,
            git_sidebar_rect: Rect { x: 0, y: 0, width: 30, height: 20 },
            git_sidebar_state: state,
        },
    }
}

fn every_key() -> Vec<KeyEvent> {
    let mut keys = vec![];
    for modifiers in [0, CONTROL] {
        for code in [
            KeyCode::Backspace,
            KeyCode::Enter,
            KeyCode::Left,
            KeyCode::Right,
            KeyCode::Up,
            KeyCode::Down,
            KeyCode::Home,
            KeyCode::End,
            KeyCode::PageUp,
            KeyCode::PageDown,
            KeyCode::Tab,
            KeyCode::BackTab,
            KeyCode::Delete,
            KeyCode::Esc,
            KeyCode::Other,
        ] {
            keys.push(KeyEvent { code, modifiers });
        }
        for c in " skjgGhlaucDrx".chars() {
            keys.push(KeyEvent { code: KeyCode::Char(c), modifiers });
        }
    }
    keys
}

#[test]
fn keys_start_no_second_command_or_probe() {
    for key in every_key() {
        for row in 0..5 {
            let mut app = app();
            app.state.git_sidebar_state.selected_index = row;
            app.state.git_sidebar_state.action_in_flight = true;
            app.state.git_sidebar_state.is_refreshing = true;
            let effect = app.handle_git_sidebar_key(key, 9);
            assert!(matches!(
                effect,
                None | Some(git_sidebar::runtime::GitSidebarEffect::OpenPopup { .. })
            ));
            assert!(app.state.git_sidebar_state.action_in_flight);
            assert!(app.state.git_sidebar_state.is_refreshing);
        }
    }
}

#[test]
fn keys_keep_the_cursor_on_a_row_and_the_caret_between_characters() {
    let mut app = app();
    app.state.git_sidebar_state.insert_commit_text("\u{e9}\u{1f600}");
    for _ in 0..3 {
        for key in every_key() {
            app.handle_git_sidebar_key(key, 9);
            let state = &app.state.git_sidebar_state;
            assert!(state.selected_index < state.rows().len());
            assert!(state.commit_message.is_char_boundary(state.commit_cursor));
        }
    }
}

#[test]
fn list_keys_disarm_except_those_of_either_sub_mode() {
    for key in every_key() {
        let mut app = app();
        app.state.git_sidebar_state.selected_index = 1;
        app.state.git_sidebar_state.pending_discard = Some("z".to_string());
        app.handle_git_sidebar_key(key, 9);
        let kept = app.state.git_sidebar_state.pending_discard;
        let expected = match key.code {
            KeyCode::Char('D') => Some("a".to_string()),
            KeyCode::Tab | KeyCode::BackTab => Some("z".to_string()),
            KeyCode::Enter if key.modifiers == CONTROL => Some("z".to_string()),
            _ => None,
        };
        assert_eq!(kept, expected);
    }
}

#[test]
fn backspace_undoes_typing() {
    let mut state = GitSidebarState::default();
    state.insert_commit_text("ab");
    state.move_commit_cursor(-1);
    let before = state.clone();
    state.insert_commit_text("\u{1f600}");
    assert_eq!(state.commit_message, "a\u{1f600}b");
    state.backspace_commit();
    assert_eq!(state, before);
}

#[test]
fn the_caret_moves_there_and_back() {
    let mut state = GitSidebarState::default();
    state.insert_commit_text("\u{e9}\u{1f600}x");
    let before = state.clone();
    state.move_commit_cursor(-1);
    assert_eq!(state.commit_cursor, 6);
    state.move_commit_cursor(1);
    assert_eq!(state, before);
    state.move_commit_cursor(-100);
    assert_eq!(state.commit_cursor, 0);
    state.move_commit_cursor(2);
    assert_eq!(state.commit_cursor, 6);
    state.move_commit_cursor(isize::MAX);
    assert_eq!(state.commit_cursor, 7);
    state.move_commit_cursor(isize::MIN);
    assert_eq!(state.commit_cursor, 0);
    state.clear_commit_message();
    assert_eq!(state.commit_message, "");
    assert_eq!(state.commit_cursor, 0);
}

#[test]
fn tab_and_backtab_undo_each_other() {
    for first in [KeyCode::Tab, KeyCode::BackTab] {
        for second in [KeyCode::Tab, KeyCode::BackTab] {
            let mut app = app();
            let before = app.state.git_sidebar_state.focus;
            app.handle_git_sidebar_key(KeyEvent { code: first, modifiers: 0 }, 1);
            assert_ne!(app.state.git_sidebar_state.focus, before);
            app.handle_git_sidebar_key(KeyEvent { code: second, modifiers: 0 }, 7);
            assert_eq!(app.state.git_sidebar_state.focus, before);
        }
    }
}

#[test]
fn keys_that_do_not_read_the_caret_take_any_caret() {
    for (code, modifiers, cursor) in [
        (KeyCode::Home, 0, 0),
        (KeyCode::End, 0, 2),
        (KeyCode::Down, 0, 1),
        (KeyCode::Char('x'), CONTROL, 1),
        (KeyCode::Other, 0, 1),
        (KeyCode::Enter, 0, 0),
    ] {
        let mut app = app();
        app.state.git_sidebar_state.focus_message();
        app.state.git_sidebar_state.commit_message = "\u{e9}".to_string();
        app.state.git_sidebar_state.commit_cursor = 1;
        app.handle_git_sidebar_key(KeyEvent { code, modifiers }, 1);
        assert_eq!(app.state.git_sidebar_state.commit_cursor, cursor);
    }
}

#[test]
fn toggling_twice_changes_visibility_back() {
    let mut app = app();
    app.toggle_git_sidebar(1);
    assert!(app.state.git_sidebar_closed);
    app.toggle_git_sidebar(1);
    assert!(!app.state.git_sidebar_closed);
}

#[test]
fn every_cell_of_a_high_panel_has_one_part() {
    let area = Rect { x: 3, y: 5, width: 4, height: 11 };
    let (changes, divider, commits) = split_git_sidebar_sections(area);
    for y in 5..16 {
        let mut parts = 0;
        if y >= changes.y && y < changes.y + changes.height {
            parts += 1;
        }
        if divider == Some(y) {
            parts += 1;
        }
        if y >= commits.y && y < commits.y + commits.height {
            parts += 1;
        }
        assert_eq!(parts, 1);
    }
}

#[test]
fn cells_of_a_collapsed_panel_lie_in_it() {
    let area = Rect { x: 3, y: 5, width: 3, height: 4 };
    for cell in render_git_sidebar_collapsed(area).unwrap().cells {
        assert!(cell.x >= 3 && cell.x < 6 && cell.y >= 5 && cell.y < 9);
    }
}

#[test]
fn at_most_one_line_is_set_off() {
    for selected in 0..6 {
        let mut app = app();
        app.state.git_sidebar_state.selected_index = selected;
        let view = render_git_sidebar(&app.state, app.state.git_sidebar_rect).unwrap();
        let dim = Style::bg(PaletteColor::SurfaceDim);
        let lines = view.changes.items.iter().filter(|i| i.style == dim).count();
        assert_eq!(lines, if selected == 1 || selected == 2 { 1 } else { 0 });
        assert_eq!(view.message.style.bg == Some(PaletteColor::SurfaceDim), selected == 0);
    }
}

#[test]
fn moving_the_cursor_stays_on_the_rows() {
    let mut app = app();
    let state = &mut app.state.git_sidebar_state;
    assert_eq!(state.rows().len(), 5);
    state.move_selection(isize::MAX);
    assert_eq!(state.selected_index, 4);
    assert!(matches!(state.selected_row(), Some(GitSidebarRow::File { .. })));
    state.move_selection(isize::MIN);
    assert_eq!(state.selected_index, 0);
    state.select_index(99);
    assert_eq!(state.selected_index, 4);
}
