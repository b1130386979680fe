use git_sidebar::geometry::Rect;
use git_sidebar::git_sidebar::{
    GitCommitGraphEntry, GitFileStatus, GitFileStatusKind, GitSection, GitSidebarSnapshot,
    GitSidebarState, GIT_SIDEBAR_REFRESH_INTERVAL,
};
use git_sidebar::runtime::{
    App, AppState, GitSidebarAction, GitSidebarEffect, GitSidebarPopup, Mode, Workspace,
};

const SECOND: u64 = 1_000_000_000;

fn file(path: &str) -> GitFileStatus {
    GitFileStatus { path: path.to_string(), status: GitFileStatusKind::Modified }
}

fn commit(hash: &str) -> GitCommitGraphEntry {
    GitCommitGraphEntry {
        hash: hash.to_string(),
        subject: "subject".to_string(),
        author: "author".to_string(),
        relative_time: "now".to_string(),
        graph_columns: vec!['*'],
    }
}

fn app_at(cwd: Option<&str>) -> App {
    App {
        state: AppState {
            active: Some(0),
            workspaces: vec![Workspace { resolved_cwd: cwd.map(|c| c.to_string()) }],
            mode: Mode::GitSidebar,
            git_sidebar_closed: false,
            git_sidebar_escape_to_dismiss: false,
            session_dirty: false,
            git_sidebar_rect: Rect { x: 0, y: 0, width: 30, height: 40 },
            git_sidebar_state: GitSidebarState::default(),
        },
    }
}

fn snapshot(cwd: &str) -> GitSidebarSnapshot {
    GitSidebarSnapshot {
        cwd: cwd.to_string(),
        repo_root: Some("/repo".to_string()),
        repo_name: "repo".to_string(),
        branch: "main".to_string(),
        merge_files: vec![],
        staged_files: vec![file("staged.rs")],
        unstaged_files: vec![file("dir/changed.rs")],
        untracked_files: vec![file("new.rs")],
        recent_commits: vec![commit("abc")],
    }
}

fn app_with_contents() -> App {
    let mut app = app_at(Some("/repo/sub"));
    app.start_git_sidebar_refresh_if_due(0);
    assert!(app.handle_git_sidebar_refresh_complete(snapshot("/repo/sub")));
    app
}

fn probe(cwd: &str) -> Option<GitSidebarEffect> {
    Some(GitSidebarEffect::SpawnRefresh { cwd: cwd.to_string() })
}

fn run(action: GitSidebarAction) -> Option<GitSidebarEffect> {
    Some(GitSidebarEffect::SpawnAction { repo_root: "/repo".to_string(), action })
}

#[test]
fn cwd_is_that_of_the_active_workspace() {
    let mut app = app_at(Some("/a"));
    app.state.workspaces.push(Workspace { resolved_cwd: Some("/b".to_string()) });
    assert_eq!(app.git_sidebar_cwd(), Some("/a".to_string()));
    app.state.active = Some(1);
    assert_eq!(app.git_sidebar_cwd(), Some("/b".to_string()));
    app.state.active = Some(2);
    assert_eq!(app.git_sidebar_cwd(), None);
    app.state.active = None;
    assert_eq!(app.git_sidebar_cwd(), None);
}

#[test]
fn repo_root_falls_back_to_cwd() {
    let mut app = app_at(Some("/a"));
    assert_eq!(app.git_sidebar_repo_root(), Some("/a".to_string()));
    app.state.git_sidebar_state.repo_root = Some("/root".to_string());
    assert_eq!(app.git_sidebar_repo_root(), Some("/root".to_string()));
}

#[test]
fn interval_is_three_seconds() {
    assert_eq!(GIT_SIDEBAR_REFRESH_INTERVAL, 3 * SECOND);
}

#[test]
fn deadline_follows_the_last_probe() {
    let mut app = app_at(Some("/a"));
    assert_eq!(app.git_sidebar_refresh_deadline(7), None);
    app.state.git_sidebar_state.last_refresh = Some(10);
    assert_eq!(app.git_sidebar_refresh_deadline(7), Some(10 + 3 * SECOND));
    app.state.git_sidebar_state.needs_force_refresh = true;
    assert_eq!(app.git_sidebar_refresh_deadline(7), Some(7));
    app.state.git_sidebar_state.is_refreshing = true;
    assert_eq!(app.git_sidebar_refresh_deadline(7), None);
    app.state.git_sidebar_state.is_refreshing = false;
    app.state.git_sidebar_closed = true;
    assert_eq!(app.git_sidebar_refresh_deadline(7), None);
}

#[test]
fn closed_panel_does_nothing() {
    let mut app = app_at(Some("/a"));
    app.state.git_sidebar_closed = true;
    let before = app.clone();
    assert_eq!(app.start_git_sidebar_refresh_if_due(5), None);
    assert_eq!(app, before);
}

#[test]
fn first_tick_probes_and_probes_do_not_overlap() {
    let mut app = app_at(Some("/a"));
    assert_eq!(app.start_git_sidebar_refresh_if_due(5), probe("/a"));
    assert!(app.state.git_sidebar_state.is_refreshing);
    assert_eq!(app.state.git_sidebar_state.cwd, Some("/a".to_string()));
    assert_eq!(app.state.git_sidebar_state.last_refresh, Some(5));
    assert_eq!(app.start_git_sidebar_refresh_if_due(5 + 10 * SECOND), None);
}

#[test]
fn next_probe_waits_for_the_deadline() {
    let mut app = app_with_contents();
    assert_eq!(app.git_sidebar_refresh_deadline(1), Some(3 * SECOND));
    let before = app.clone();
    assert_eq!(app.start_git_sidebar_refresh_if_due(3 * SECOND - 1), None);
    assert_eq!(app, before);
    assert_eq!(app.start_git_sidebar_refresh_if_due(3 * SECOND), probe("/repo/sub"));
}

#[test]
fn clock_before_the_last_probe_is_not_due() {
    let mut app = app_with_contents();
    app.state.git_sidebar_state.last_refresh = Some(100 * SECOND);
    assert_eq!(app.start_git_sidebar_refresh_if_due(SECOND), None);
}

#[test]
fn missing_directory_leaves_no_passed_deadline() {
    let mut app = app_at(None);
    app.state.git_sidebar_state.needs_force_refresh = true;
    assert_eq!(app.start_git_sidebar_refresh_if_due(50), None);
    assert!(!app.state.git_sidebar_state.is_refreshing);
    assert_eq!(app.git_sidebar_refresh_deadline(50), Some(50 + 3 * SECOND));
}

#[test]
fn probe_result_is_adopted() {
    let app = app_with_contents();
    let state = &app.state.git_sidebar_state;
    assert!(!state.is_refreshing);
    assert_eq!(state.repo_root, Some("/repo".to_string()));
    assert_eq!(state.repo_name, "repo");
    assert_eq!(state.branch, "main");
    assert_eq!(state.staged_files, vec![file("staged.rs")]);
    assert_eq!(state.unstaged_files, vec![file("dir/changed.rs")]);
    assert_eq!(state.untracked_files, vec![file("new.rs")]);
    assert_eq!(state.recent_commits, vec![commit("abc")]);
}

#[test]
fn paths_are_compared_by_their_components() {
    let mut app = app_at(Some("/repo//sub/."));
    app.start_git_sidebar_refresh_if_due(0);
    assert!(app.handle_git_sidebar_refresh_complete(snapshot("/repo/sub")));
    let mut app = app_at(Some("/repo/sub"));
    app.start_git_sidebar_refresh_if_due(0);
    assert!(!app.handle_git_sidebar_refresh_complete(snapshot("/repo/other")));
    assert!(git_sidebar::path::is_same_path("a/b", "a//b"));
    assert!(!git_sidebar::path::is_same_path("a/b", "a/c"));
    assert!(git_sidebar::path::is_same_optional_path(&None, &None));
    assert!(!git_sidebar::path::is_same_optional_path(&None, &Some("a".to_string())));
}

#[test]
fn switching_workspaces_drops_contents_and_late_results() {
    let mut app = app_with_contents();
    assert_eq!(app.start_git_sidebar_refresh_if_due(4 * SECOND), probe("/repo/sub"));
    app.state.workspaces[0].resolved_cwd = Some("/elsewhere".to_string());
    assert_eq!(app.start_git_sidebar_refresh_if_due(4 * SECOND + 1), None);
    let state = &app.state.git_sidebar_state;
    assert!(state.is_refreshing);
    assert!(state.needs_force_refresh);
    assert_eq!(state.cwd, None);
    assert!(state.staged_files.is_empty() && state.recent_commits.is_empty());
    assert!(!app.handle_git_sidebar_refresh_complete(snapshot("/repo/sub")));
    assert!(!app.state.git_sidebar_state.is_refreshing);
    assert!(app.state.git_sidebar_state.staged_files.is_empty());
    assert_eq!(app.start_git_sidebar_refresh_if_due(4 * SECOND + 2), probe("/elsewhere"));
}

#[test]
fn switching_keeps_the_message_being_written() {
    let mut app = app_with_contents();
    app.state.git_sidebar_state.insert_commit_text("draft");
    app.state.git_sidebar_state.pending_discard = Some("x".to_string());
    app.state.workspaces[0].resolved_cwd = Some("/elsewhere".to_string());
    assert_eq!(app.start_git_sidebar_refresh_if_due(1), probe("/elsewhere"));
    assert_eq!(app.state.git_sidebar_state.commit_message, "draft");
    assert_eq!(app.state.git_sidebar_state.commit_cursor, 5);
    assert_eq!(app.state.git_sidebar_state.pending_discard, None);
}

#[test]
fn tick_for_takes_the_comparison() {
    let mut app = app_with_contents();
    let before = app.clone();
    assert_eq!(app.start_git_sidebar_refresh_for(Some("/q".to_string()), false, 1), None);
    assert_eq!(app, before);
    assert_eq!(app.start_git_sidebar_refresh_for(Some("/q".to_string()), true, 1), probe("/q"));
}

#[test]
fn finish_refresh_takes_the_comparison() {
    let mut app = app_at(None);
    assert!(!app.finish_git_sidebar_refresh(snapshot("/z"), false));
    assert_eq!(app.state.git_sidebar_state.repo_name, "");
    assert!(app.finish_git_sidebar_refresh(snapshot("/z"), true));
    assert_eq!(app.state.git_sidebar_state.repo_name, "repo");
}

#[test]
fn adopting_keeps_the_cursor_on_a_row() {
    let mut app = app_with_contents();
    app.state.git_sidebar_state.select_last();
    assert_eq!(app.state.git_sidebar_state.selected_index, 7);
    let mut smaller = snapshot("/repo/sub");
    smaller.recent_commits = vec![];
    smaller.untracked_files = vec![];
    app.handle_git_sidebar_refresh_complete(smaller);
    assert_eq!(app.state.git_sidebar_state.selected_index, 3);
}

#[test]
fn action_outcomes_are_recorded() {
    let mut app = app_with_contents();
    app.state.git_sidebar_state.action_in_flight = true;
    app.state.git_sidebar_state.status_message = Some("old".to_string());
    assert!(app.handle_git_sidebar_action_complete(Some("bad".to_string()), Some("m".to_string())));
    assert_eq!(app.state.git_sidebar_state.error_message, Some("bad".to_string()));
    assert_eq!(app.state.git_sidebar_state.status_message, None);
    assert!(!app.state.git_sidebar_state.action_in_flight);
    assert_eq!(app.git_sidebar_refresh_deadline(9), Some(9));
    assert!(app.handle_git_sidebar_action_complete(None, Some("fine".to_string())));
    assert_eq!(app.state.git_sidebar_state.error_message, None);
    assert_eq!(app.state.git_sidebar_state.status_message, Some("fine".to_string()));
}

#[test]
fn actions_do_not_overlap() {
    let mut app = app_with_contents();
    app.state.git_sidebar_state.status_message = Some("old".to_string());
    app.state.git_sidebar_state.pending_discard = Some("x".to_string());
    assert_eq!(
        app.run_git_sidebar_action(GitSidebarAction::StageAll),
        run(GitSidebarAction::StageAll)
    );
    assert_eq!(app.state.git_sidebar_state.status_message, None);
    assert_eq!(app.state.git_sidebar_state.pending_discard, None);
    let before = app.clone();
    assert_eq!(app.run_git_sidebar_action(GitSidebarAction::UnstageAll), None);
    assert_eq!(app, before);
    app.handle_git_sidebar_action_complete(None, None);
    assert_eq!(
        app.run_git_sidebar_action(GitSidebarAction::UnstageAll),
        run(GitSidebarAction::UnstageAll)
    );
}

#[test]
fn action_without_a_place_is_ignored() {
    let mut app = app_at(None);
    assert_eq!(app.run_git_sidebar_action(GitSidebarAction::StageAll), None);
    assert!(!app.state.git_sidebar_state.action_in_flight);
}

#[test]
fn stage_depends_on_the_group() {
    let mut app = app_with_contents();
    app.state.git_sidebar_state.select_index(1);
    assert_eq!(
        app.clone().toggle_git_sidebar_stage(),
        run(GitSidebarAction::Unstage("staged.rs".to_string()))
    );
    app.state.git_sidebar_state.select_index(3);
    assert_eq!(
        app.clone().toggle_git_sidebar_stage(),
        run(GitSidebarAction::Stage("dir/changed.rs".to_string()))
    );
    app.state.git_sidebar_state.select_index(5);
    assert_eq!(
        app.clone().toggle_git_sidebar_stage(),
        run(GitSidebarAction::Stage("new.rs".to_string()))
    );
    app.state.git_sidebar_state.select_index(0);
    assert_eq!(app.toggle_git_sidebar_stage(), None);
}

#[test]
fn commit_refuses_a_blank_message() {
    let mut app = app_with_contents();
    app.state.git_sidebar_state.insert_commit_text(" \t\u{3000}\u{a0}");
    assert_eq!(app.commit_from_git_sidebar(), None);
    assert_eq!(
        app.state.git_sidebar_state.error_message,
        Some("commit message is empty".to_string())
    );
    assert_eq!(app.state.git_sidebar_state.commit_message, " \t\u{3000}\u{a0}");
}

#[test]
fn commit_refuses_an_empty_index() {
    let mut app = app_with_contents();
    app.state.git_sidebar_state.staged_files.clear();
    app.state.git_sidebar_state.insert_commit_text("message");
    assert_eq!(app.commit_from_git_sidebar(), None);
    assert_eq!(
        app.state.git_sidebar_state.error_message,
        Some("nothing staged to commit".to_string())
    );
    app.state.git_sidebar_state.merge_files.push(file("merged.rs"));
    assert_eq!(
        app.commit_from_git_sidebar(),
        run(GitSidebarAction::Commit("message".to_string()))
    );
}

#[test]
fn commit_takes_the_trimmed_message() {
    let mut app = app_with_contents();
    app.state.git_sidebar_state.error_message = Some("old".to_string());
    app.state.git_sidebar_state.insert_commit_text("\u{2028} fix \u{200b}it \u{85}");
    assert_eq!(
        app.commit_from_git_sidebar(),
        run(GitSidebarAction::Commit("fix \u{200b}it".to_string()))
    );
    assert_eq!(app.state.git_sidebar_state.commit_message, "");
    assert_eq!(app.state.git_sidebar_state.commit_cursor, 0);
    assert_eq!(app.state.git_sidebar_state.error_message, None);
    assert!(app.state.git_sidebar_state.action_in_flight);
}

#[test]
fn every_white_space_character_is_trimmed_and_no_other() {
    let white: Vec<char> = vec![
        '\u{9}', '\u{a}', '\u{b}', '\u{c}', '\u{d}', '\u{20}', '\u{85}', '\u{a0}', '\u{1680}',
        '\u{2000}', '\u{2001}', '\u{2002}', '\u{2003}', '\u{2004}', '\u{2005}', '\u{2006}',
        '\u{2007}', '\u{2008}', '\u{2009}', '\u{200a}', '\u{2028}', '\u{2029}', '\u{202f}',
        '\u{205f}', '\u{3000}',
    ];
    let mut code: u32 = 0;
    while code <= 0x10ffff {
        if let Some(c) = char::from_u32(code) {
            assert_eq!(c.is_whitespace(), white.contains(&c));
        }
        code += 1;
    }
    for c in white {
        let mut app = app_with_contents();
        app.state.git_sidebar_state.insert_commit_text(&format!("{}a{}b{}", c, c, c));
        assert_eq!(
            app.commit_from_git_sidebar(),
            run(GitSidebarAction::Commit(format!("a{}b", c)))
        );
    }
}

#[test]
fn discard_takes_two_presses() {
    let mut app = app_with_contents();
    app.state.git_sidebar_state.select_index(3);
    assert_eq!(app.discard_selected_git_sidebar_file(), None);
    assert_eq!(app.state.git_sidebar_state.pending_discard, Some("dir/changed.rs".to_string()));
    assert_eq!(
        app.state.git_sidebar_state.status_message,
        Some("press D again to discard changed.rs".to_string())
    );
    assert_eq!(
        app.discard_selected_git_sidebar_file(),
        run(GitSidebarAction::Discard("dir/changed.rs".to_string()))
    );
    assert_eq!(app.state.git_sidebar_state.pending_discard, None);
}

#[test]
fn discard_of_another_file_arms_anew() {
    let mut app = app_with_contents();
    app.state.git_sidebar_state.select_index(3);
    app.discard_selected_git_sidebar_file();
    app.state.git_sidebar_state.select_index(1);
    assert_eq!(app.discard_selected_git_sidebar_file(), None);
    assert_eq!(app.state.git_sidebar_state.pending_discard, Some("staged.rs".to_string()));
}

#[test]
fn discard_names_a_path_without_file_name_in_full() {
    let mut app = app_with_contents();
    app.state.git_sidebar_state.unstaged_files = vec![file("a/..")];
    app.state.git_sidebar_state.select_index(3);
    assert_eq!(app.discard_selected_git_sidebar_file(), None);
    assert_eq!(
        app.state.git_sidebar_state.status_message,
        Some("press D again to discard a/..".to_string())
    );
}

#[test]
fn untracked_files_are_not_discarded() {
    let mut app = app_with_contents();
    app.state.git_sidebar_state.select_index(5);
    assert_eq!(app.discard_selected_git_sidebar_file(), None);
    assert_eq!(app.state.git_sidebar_state.pending_discard, None);
    assert_eq!(
        app.state.git_sidebar_state.error_message,
        Some("cannot discard an untracked file".to_string())
    );
}

#[test]
fn discard_file_takes_the_comparison() {
    let mut app = app_with_contents();
    let path = "p".to_string();
    assert_eq!(
        app.discard_git_sidebar_file(GitSection::Changes, path.clone(), false, None),
        None
    );
    assert_eq!(
        app.state.git_sidebar_state.status_message,
        Some("press D again to discard p".to_string())
    );
    assert_eq!(
        app.discard_git_sidebar_file(GitSection::Changes, path.clone(), true, None),
        run(GitSidebarAction::Discard(path))
    );
}

#[test]
fn diff_shows_the_selected_row() {
    let mut app = app_with_contents();
    app.state.git_sidebar_state.select_index(3);
    assert_eq!(
        app.open_git_sidebar_diff(),
        Some(GitSidebarEffect::OpenPopup {
            popup: GitSidebarPopup::Diff {
                section: GitSection::Changes,
                file: file("dir/changed.rs")
            },
            repo_root: "/repo".to_string(),
        })
    );
    app.state.git_sidebar_state.select_index(7);
    assert_eq!(
        app.open_git_sidebar_diff(),
        Some(GitSidebarEffect::OpenPopup {
            popup: GitSidebarPopup::Show { commit: commit("abc") },
            repo_root: "/repo".to_string(),
        })
    );
    app.state.git_sidebar_state.select_index(2);
    assert_eq!(app.open_git_sidebar_diff(), None);
    let nowhere = app_at(None);
    assert_eq!(
        nowhere.open_git_sidebar_popup(GitSidebarPopup::Show { commit: commit("abc") }),
        None
    );
}

#[test]
fn popup_errors_are_shown() {
    let mut app = app_with_contents();
    app.finish_git_sidebar_popup(None);
    assert_eq!(app.state.git_sidebar_state.error_message, None);
    app.finish_git_sidebar_popup(Some("no shell".to_string()));
    assert_eq!(app.state.git_sidebar_state.error_message, Some("no shell".to_string()));
    app.finish_git_sidebar_popup(None);
    assert_eq!(app.state.git_sidebar_state.error_message, Some("no shell".to_string()));
}

#[test]
fn blur_gives_the_keys_back() {
    let mut app = app_with_contents();
    app.state.git_sidebar_state.pending_discard = Some("x".to_string());
    app.blur_git_sidebar();
    assert_eq!(app.state.mode, Mode::Terminal);
    assert_eq!(app.state.git_sidebar_state.pending_discard, None);
    assert!(!app.state.git_sidebar_closed);
    app.state.mode = Mode::GitSidebar;
    app.state.active = None;
    app.blur_git_sidebar();
    assert_eq!(app.state.mode, Mode::Navigate);
    app.state.mode = Mode::Other;
    app.blur_git_sidebar();
    assert_eq!(app.state.mode, Mode::Other);
}

#[test]
fn toggling_opens_and_probes() {
    let mut app = app_at(Some("/a"));
    app.state.git_sidebar_closed = true;
    assert_eq!(app.toggle_git_sidebar(1), probe("/a"));
    assert!(!app.state.git_sidebar_closed);
    assert_eq!(app.toggle_git_sidebar(2), None);
    assert!(app.state.git_sidebar_closed);
}
