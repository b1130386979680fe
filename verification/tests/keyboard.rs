use git_sidebar::geometry::Rect;
use git_sidebar::git_sidebar::{
    GitCommitGraphEntry, GitFileStatus, GitFileStatusKind, GitSection, GitSidebarFocus,
    GitSidebarItem, GitSidebarRow, GitSidebarState,
};
use git_sidebar::keys::{KeyCode, KeyEvent, ALT, CONTROL};
use git_sidebar::runtime::{App, AppState, GitSidebarAction, GitSidebarEffect, Mode, Workspace};

fn file(path: &str) -> GitFileStatus {
    GitFileStatus { path: path.to_string(), status: GitFileStatusKind::Modified }
}

fn commit(hash: &str) -> GitCommitGraphEntry {
    GitCommitGraphEntry {
        hash: hash.to_string(),
        subject: "subject".to_string(),
        author: "author".to_string(),
        relative_time: "now".to_string(),
        graph_columns: vec!['*'],
    }
}

/// Rows: 0 staged header, 1 a, 2 b, 3 changes header, 4 c, 5 commits header,
/// 6 h1, 7 h2.
fn app() -> App {
    let mut state = GitSidebarState::default();
    state.repo_root = Some("/repo".to_string());
    state.cwd = Some("/repo".to_string());
    state.last_refresh = Some(0);
    state.staged_files = vec![file("a"), file("b")];
    state.unstaged_files = vec![file("c")];
    state.recent_commits = vec![commit("h1"), commit("h2")];
    App {
        state: AppState {
            active: Some(0),
            workspaces: vec![Workspace { resolved_cwd: Some("/repo".to_string()) }],
            mode: Mode::GitSidebar,
            git_sidebar_closed: false,
            git_sidebar_escape_to_dismiss: false,
            session_dirty: false,
            git_sidebar_rect: Rect { x: 0, y: 0, width: 30, height: 12 },
            git_sidebar_state: state,
        },
    }
}

fn press(app: &mut App, code: KeyCode) -> Option<GitSidebarEffect> {
    app.handle_git_sidebar_key(KeyEvent { code, modifiers: 0 }, 1)
}

fn press_with(app: &mut App, code: KeyCode, modifiers: u8) -> Option<GitSidebarEffect> {
    app.handle_git_sidebar_key(KeyEvent { code, modifiers }, 1)
}

fn at(app: &App) -> usize {
    app.state.git_sidebar_state.selected_index
}

fn run(action: GitSidebarAction) -> Option<GitSidebarEffect> {
    Some(GitSidebarEffect::SpawnAction { repo_root: "/repo".to_string(), action })
}

#[test]
fn modifier_bits_are_those_of_the_terminal_library() {
    assert_eq!(CONTROL, crossterm::event::KeyModifiers::CONTROL.bits());
    assert_eq!(ALT, crossterm::event::KeyModifiers::ALT.bits());
    let mut bits: u8 = 0;
    loop {
        let key = KeyEvent { code: KeyCode::Other, modifiers: bits };
        assert_eq!(key.ctrl(), bits & 2 != 0);
        assert_eq!(key.alt(), bits & 4 != 0);
        if bits == 255 {
            break;
        }
        bits += 1;
    }
}

#[test]
fn rows_follow_the_groups() {
    let app = app();
    let state = &app.state.git_sidebar_state;
    assert_eq!(
        state.rows(),
        vec![
            GitSidebarRow::SectionHeader(GitSection::Staged),
            GitSidebarRow::File { section: GitSection::Staged, index: 0 },
            GitSidebarRow::File { section: GitSection::Staged, index: 1 },
            GitSidebarRow::SectionHeader(GitSection::Changes),
            GitSidebarRow::File { section: GitSection::Changes, index: 0 },
            GitSidebarRow::SectionHeader(GitSection::Commits),
            GitSidebarRow::Commit { index: 0 },
            GitSidebarRow::Commit { index: 1 },
        ]
    );
    assert_eq!(GitSidebarState::default().rows(), vec![GitSidebarRow::Placeholder]);
    let mut all = GitSidebarState::default();
    all.merge_files = vec![file("m")];
    all.untracked_files = vec![file("u")];
    all.section_collapsed_merge = true;
    assert_eq!(
        all.rows(),
        vec![
            GitSidebarRow::SectionHeader(GitSection::Merge),
            GitSidebarRow::SectionHeader(GitSection::Untracked),
            GitSidebarRow::File { section: GitSection::Untracked, index: 0 },
        ]
    );
    assert_eq!(all.selected_item, None::<GitSidebarItem>);
}

#[test]
fn selected_file_is_that_of_its_row() {
    let mut app = app();
    let state = &mut app.state.git_sidebar_state;
    assert_eq!(state.selected_file(), None);
    state.select_index(2);
    assert_eq!(state.selected_file(), Some((GitSection::Staged, &file("b"))));
    state.select_index(6);
    assert_eq!(state.selected_file(), None);
    state.selected_index = 100;
    assert_eq!(state.selected_row(), None);
    assert_eq!(state.file_at(GitSection::Staged, 2), None);
    assert_eq!(state.file_at(GitSection::Commits, 0), None);
}

#[test]
fn cursor_keys_move_within_the_rows() {
    let mut app = app();
    assert_eq!(press(&mut app, KeyCode::Up), None);
    assert_eq!(at(&app), 0);
    press(&mut app, KeyCode::Down);
    press(&mut app, KeyCode::Char('j'));
    assert_eq!(at(&app), 2);
    press(&mut app, KeyCode::Char('k'));
    assert_eq!(at(&app), 1);
    press(&mut app, KeyCode::End);
    assert_eq!(at(&app), 7);
    press(&mut app, KeyCode::Down);
    assert_eq!(at(&app), 7);
    press(&mut app, KeyCode::Home);
    assert_eq!(at(&app), 0);
    press(&mut app, KeyCode::Char('G'));
    assert_eq!(at(&app), 7);
    press(&mut app, KeyCode::Char('g'));
    assert_eq!(at(&app), 0);
}

#[test]
fn a_page_is_the_height_of_the_list() {
    let mut app = app();
    // 12 rows: one for the title, 6 for the changes, 3 of them for the box.
    press(&mut app, KeyCode::PageDown);
    assert_eq!(at(&app), 3);
    press(&mut app, KeyCode::PageDown);
    assert_eq!(at(&app), 6);
    press(&mut app, KeyCode::PageUp);
    assert_eq!(at(&app), 3);
    app.state.git_sidebar_rect = Rect { x: 0, y: 0, width: 0, height: 0 };
    press(&mut app, KeyCode::PageDown);
    assert_eq!(at(&app), 4);
}

#[test]
fn collapsing_moves_to_the_header() {
    let mut app = app();
    app.state.git_sidebar_state.select_index(4);
    press(&mut app, KeyCode::Left);
    assert!(app.state.git_sidebar_state.section_collapsed_changes);
    assert_eq!(
        app.state.git_sidebar_state.selected_row(),
        Some(GitSidebarRow::SectionHeader(GitSection::Changes))
    );
    press(&mut app, KeyCode::Char('h'));
    assert_eq!(at(&app), 3);
    press(&mut app, KeyCode::Right);
    assert!(!app.state.git_sidebar_state.section_collapsed_changes);
    assert_eq!(at(&app), 3);
    app.state.git_sidebar_state.select_index(7);
    press(&mut app, KeyCode::Char('h'));
    assert!(app.state.git_sidebar_state.section_collapsed_commits);
    assert_eq!(at(&app), 5);
    press(&mut app, KeyCode::Char('l'));
    assert!(!app.state.git_sidebar_state.section_collapsed_commits);
    let mut empty = GitSidebarState::default();
    let before = empty.clone();
    empty.set_selected_git_section_collapsed(true);
    assert_eq!(empty, before);
}

#[test]
fn space_folds_a_header_and_stages_a_file() {
    let mut app = app();
    assert_eq!(press(&mut app, KeyCode::Char(' ')), None);
    assert!(app.state.git_sidebar_state.section_collapsed_staged);
    assert_eq!(press(&mut app, KeyCode::Char('s')), None);
    assert!(!app.state.git_sidebar_state.section_collapsed_staged);
    press(&mut app, KeyCode::Down);
    assert_eq!(
        press(&mut app, KeyCode::Char(' ')),
        run(GitSidebarAction::Unstage("a".to_string()))
    );
}

#[test]
fn commands_heed_control() {
    let mut a = app();
    assert_eq!(press_with(&mut a, KeyCode::Char('a'), CONTROL), None);
    assert_eq!(press_with(&mut a, KeyCode::Char('u'), CONTROL), None);
    assert_eq!(press_with(&mut a, KeyCode::Char('c'), CONTROL), None);
    assert_eq!(a.state.git_sidebar_state.focus, GitSidebarFocus::List);
    assert_eq!(press_with(&mut a, KeyCode::Char('r'), CONTROL), None);
    assert_eq!(press(&mut a, KeyCode::Char('a')), run(GitSidebarAction::StageAll));
    let mut b = app();
    assert_eq!(press(&mut b, KeyCode::Char('u')), run(GitSidebarAction::UnstageAll));
    assert_eq!(press(&mut b, KeyCode::Char('c')), None);
    assert_eq!(b.state.git_sidebar_state.focus, GitSidebarFocus::Message);
}

#[test]
fn refresh_key_probes_at_once() {
    let mut app = app();
    app.state.git_sidebar_state.error_message = Some("e".to_string());
    app.state.git_sidebar_state.status_message = Some("s".to_string());
    assert_eq!(
        press(&mut app, KeyCode::Char('r')),
        Some(GitSidebarEffect::SpawnRefresh { cwd: "/repo".to_string() })
    );
    assert_eq!(app.state.git_sidebar_state.error_message, None);
    assert_eq!(app.state.git_sidebar_state.status_message, None);
    assert_eq!(app.state.git_sidebar_state.last_refresh, Some(1));
}

#[test]
fn discard_key_arms_and_other_keys_disarm() {
    let mut app = app();
    app.state.git_sidebar_state.select_index(4);
    assert_eq!(press(&mut app, KeyCode::Char('D')), None);
    assert_eq!(app.state.git_sidebar_state.pending_discard, Some("c".to_string()));
    press(&mut app, KeyCode::Other);
    assert_eq!(app.state.git_sidebar_state.pending_discard, None);
    assert_eq!(press(&mut app, KeyCode::Char('D')), None);
    assert_eq!(
        press(&mut app, KeyCode::Char('D')),
        run(GitSidebarAction::Discard("c".to_string()))
    );
}

#[test]
fn enter_opens_the_diff_and_control_enter_commits() {
    let mut app = app();
    app.state.git_sidebar_state.select_index(4);
    assert!(matches!(
        press(&mut app, KeyCode::Enter),
        Some(GitSidebarEffect::OpenPopup { .. })
    ));
    app.state.git_sidebar_state.insert_commit_text("m");
    assert_eq!(
        press_with(&mut app, KeyCode::Enter, CONTROL),
        run(GitSidebarAction::Commit("m".to_string()))
    );
}

#[test]
fn tab_switches_between_box_and_list() {
    let mut app = app();
    app.state.git_sidebar_state.insert_commit_text("h\u{e9}");
    app.state.git_sidebar_state.commit_cursor = 0;
    press(&mut app, KeyCode::Tab);
    assert_eq!(app.state.git_sidebar_state.focus, GitSidebarFocus::Message);
    assert_eq!(app.state.git_sidebar_state.commit_cursor, 3);
    press(&mut app, KeyCode::BackTab);
    assert_eq!(app.state.git_sidebar_state.focus, GitSidebarFocus::List);
}

#[test]
fn focus_functions_set_focus_and_caret() {
    let mut state = GitSidebarState::default();
    state.commit_message = "\u{1f600}x".to_string();
    state.focus_message();
    assert_eq!(state.focus, GitSidebarFocus::Message);
    assert_eq!(state.commit_cursor, 5);
    state.focus_list();
    assert_eq!(state.focus, GitSidebarFocus::List);
    assert_eq!(state.commit_cursor, 5);
}

#[test]
fn typing_and_editing_the_message() {
    let mut app = app();
    press(&mut app, KeyCode::Tab);
    for c in ['a', '\u{e9}', '\u{1f600}'] {
        assert_eq!(press(&mut app, KeyCode::Char(c)), None);
    }
    assert_eq!(app.state.git_sidebar_state.commit_message, "a\u{e9}\u{1f600}");
    assert_eq!(app.state.git_sidebar_state.commit_cursor, 7);
    press_with(&mut app, KeyCode::Char('x'), CONTROL);
    press_with(&mut app, KeyCode::Char('x'), ALT);
    assert_eq!(app.state.git_sidebar_state.commit_message, "a\u{e9}\u{1f600}");
    press(&mut app, KeyCode::Left);
    assert_eq!(app.state.git_sidebar_state.commit_cursor, 3);
    press(&mut app, KeyCode::Left);
    assert_eq!(app.state.git_sidebar_state.commit_cursor, 1);
    press(&mut app, KeyCode::Right);
    assert_eq!(app.state.git_sidebar_state.commit_cursor, 3);
    press(&mut app, KeyCode::Backspace);
    assert_eq!(app.state.git_sidebar_state.commit_message, "a\u{1f600}");
    assert_eq!(app.state.git_sidebar_state.commit_cursor, 1);
    press(&mut app, KeyCode::Char('b'));
    assert_eq!(app.state.git_sidebar_state.commit_message, "ab\u{1f600}");
    press(&mut app, KeyCode::Delete);
    assert_eq!(app.state.git_sidebar_state.commit_message, "ab");
    press(&mut app, KeyCode::Delete);
    press(&mut app, KeyCode::Right);
    assert_eq!(app.state.git_sidebar_state.commit_cursor, 2);
    press(&mut app, KeyCode::Home);
    assert_eq!(app.state.git_sidebar_state.commit_cursor, 0);
    press(&mut app, KeyCode::Backspace);
    press(&mut app, KeyCode::Left);
    assert_eq!(app.state.git_sidebar_state.commit_message, "ab");
    assert_eq!(app.state.git_sidebar_state.commit_cursor, 0);
    press(&mut app, KeyCode::End);
    assert_eq!(app.state.git_sidebar_state.commit_cursor, 2);
    press(&mut app, KeyCode::Up);
    assert_eq!(app.state.git_sidebar_state.focus, GitSidebarFocus::Message);
    press(&mut app, KeyCode::Down);
    assert_eq!(app.state.git_sidebar_state.focus, GitSidebarFocus::List);
}

#[test]
fn enter_in_the_box_commits() {
    let mut app = app();
    press(&mut app, KeyCode::Tab);
    assert_eq!(press(&mut app, KeyCode::Enter), None);
    assert_eq!(
        app.state.git_sidebar_state.error_message,
        Some("commit message is empty".to_string())
    );
    press(&mut app, KeyCode::Char('z'));
    assert_eq!(press(&mut app, KeyCode::Enter), run(GitSidebarAction::Commit("z".to_string())));
}

#[test]
fn escape_blurs_and_may_close() {
    let mut app = app();
    app.state.git_sidebar_state.pending_discard = Some("c".to_string());
    assert_eq!(press(&mut app, KeyCode::Esc), None);
    assert_eq!(app.state.mode, Mode::Terminal);
    assert_eq!(app.state.git_sidebar_state.pending_discard, None);
    assert!(!app.state.git_sidebar_closed);
    assert!(!app.state.session_dirty);
    app.state.mode = Mode::GitSidebar;
    app.state.git_sidebar_escape_to_dismiss = true;
    assert_eq!(press(&mut app, KeyCode::Esc), None);
    assert!(app.state.git_sidebar_closed);
    assert!(app.state.session_dirty);
}

#[test]
fn group_helpers() {
    let mut app = app();
    let state = &mut app.state.git_sidebar_state;
    assert_eq!(state.section_len(GitSection::Staged), 2);
    assert_eq!(state.section_len(GitSection::Commits), 2);
    assert_eq!(state.section_len(GitSection::Merge), 0);
    for section in [
        GitSection::Merge,
        GitSection::Staged,
        GitSection::Changes,
        GitSection::Untracked,
        GitSection::Commits,
    ] {
        assert!(!state.is_collapsed(section));
        state.toggle_collapsed(section);
        assert!(state.is_collapsed(section));
        state.set_collapsed(section, false);
        assert!(!state.is_collapsed(section));
        assert_eq!(section.is_staged(), section == GitSection::Staged);
    }
    state.set_selected_git_section_collapsed(true);
    assert!(state.section_collapsed_staged);
    app.set_selected_git_section_collapsed(false);
    assert!(!app.state.git_sidebar_state.section_collapsed_staged);
}
