use git_sidebar::geometry::{
    collapsed_git_sidebar_toggle_rect, expanded_git_sidebar_toggle_rect, git_sidebar_list_rect,
    split_git_sidebar_sections, Rect,
};
use git_sidebar::git_sidebar::{
    GitCommitGraphEntry, GitFileStatus, GitFileStatusKind, GitSection, GitSidebarRow,
    GitSidebarState,
};
use git_sidebar::render::{
    render_git_sidebar, render_git_sidebar_collapsed, render_git_sidebar_toggle, Cell, ListItem,
    PaletteColor, Span, Style,
};
use git_sidebar::runtime::{AppState, Mode};
use git_sidebar::text::decimal_text;

fn rect(x: u16, y: u16, width: u16, height: u16) -> Rect {
    Rect { x, y, width, height }
}

fn file(path: &str, status: GitFileStatusKind) -> GitFileStatus {
    GitFileStatus { path: path.to_string(), status }
}

fn app() -> AppState {
    AppState {
        active: None,
        workspaces: vec![],
        mode: Mode::GitSidebar,
        git_sidebar_closed: false,
        git_sidebar_escape_to_dismiss: false,
        session_dirty: false,
        git_sidebar_rect: rect(0, 0, 0, 0),
        git_sidebar_state: GitSidebarState::default(),
    }
}

fn texts(items: &[ListItem]) -> Vec<String> {
    items.iter().map(|i| i.spans.iter().map(|s| s.content.clone()).collect::<String>()).collect()
}

fn span(content: &str, style: Style) -> Span {
    Span { content: content.to_string(), style }
}

#[test]
fn decimal_numbers() {
    for n in [0usize, 7, 10, 99, 100, 1234567890, usize::MAX] {
        assert_eq!(decimal_text(n), format!("{}", n));
    }
}

#[test]
fn toggle_is_the_first_cell_of_the_last_row() {
    assert_eq!(collapsed_git_sidebar_toggle_rect(rect(5, 2, 3, 10)), rect(5, 11, 1, 1));
    assert_eq!(expanded_git_sidebar_toggle_rect(rect(5, 2, 3, 10)), rect(5, 11, 1, 1));
    for area in [rect(5, 2, 1, 10), rect(5, 2, 0, 10), rect(5, 2, 3, 0)] {
        assert_eq!(collapsed_git_sidebar_toggle_rect(area), rect(0, 0, 0, 0));
        assert_eq!(expanded_git_sidebar_toggle_rect(area), rect(0, 0, 0, 0));
    }
    assert_eq!(expanded_git_sidebar_toggle_rect(rect(65535, 65535, 2, 1)), rect(65535, 65535, 0, 0));
}

#[test]
fn sections_share_the_panel() {
    assert_eq!(
        split_git_sidebar_sections(rect(1, 2, 20, 6)),
        (rect(1, 2, 20, 6), None, rect(0, 0, 0, 0))
    );
    assert_eq!(
        split_git_sidebar_sections(rect(1, 2, 20, 7)),
        (rect(1, 2, 20, 4), Some(6), rect(1, 7, 20, 2))
    );
    assert_eq!(
        split_git_sidebar_sections(rect(1, 2, 20, 10)),
        (rect(1, 2, 20, 5), Some(7), rect(1, 8, 20, 4))
    );
}

#[test]
fn parts_of_panels_of_every_height() {
    for y in [0u16, 1, 9, 40000] {
        let mut height: u16 = 1;
        while height < 120 {
            let area = rect(3, y, 17, height);
            let view = render_git_sidebar(&app(), area).unwrap();
            let inner = height - 1;
            let changes = if inner < 7 { inner } else { inner / 2 + inner % 2 };
            let head = if changes < 3 { changes } else { 3 };
            assert_eq!(view.area, area);
            assert_eq!(view.message_area, rect(4, y + 1, 16, head));
            assert_eq!(view.changes.area, rect(4, y + 1 + head, 16, changes - head));
            assert_eq!(git_sidebar_list_rect(area), view.changes.area);
            if inner < 7 {
                assert_eq!(view.commits, None);
            } else {
                assert_eq!(
                    view.commits.unwrap().area,
                    rect(4, y + 1 + changes + 1, 16, inner - changes - 1)
                );
            }
            height += 1;
        }
    }
}

#[test]
fn parts_of_panels_at_the_edge_of_the_coordinates() {
    assert_eq!(git_sidebar_list_rect(rect(65530, 65530, 5, 5)), rect(65531, 65534, 4, 1));
    assert_eq!(git_sidebar_list_rect(rect(65535, 65535, 5, 5)), rect(65535, 65535, 4, 0));
    assert_eq!(git_sidebar_list_rect(rect(65530, 65533, 5, 6)), rect(65531, 65535, 4, 0));
}

#[test]
fn empty_areas_draw_nothing() {
    assert_eq!(render_git_sidebar(&app(), rect(1, 1, 0, 5)), None);
    assert_eq!(render_git_sidebar(&app(), rect(1, 1, 5, 0)), None);
    assert_eq!(render_git_sidebar_collapsed(rect(1, 1, 0, 5)), None);
    assert_eq!(render_git_sidebar_collapsed(rect(1, 1, 5, 0)), None);
    assert_eq!(render_git_sidebar_toggle(rect(1, 1, 1, 5), true), None);
    assert_eq!(render_git_sidebar_toggle(rect(1, 1, 5, 0), false), None);
}

#[test]
fn title_and_commit_box() {
    let mut app = app();
    let area = rect(0, 0, 40, 30);
    let view = render_git_sidebar(&app, area).unwrap();
    assert_eq!(view.title, " SOURCE CONTROL ");
    assert_eq!(view.style, Style::colors(PaletteColor::Text, PaletteColor::SidebarBg));
    assert_eq!(view.message_border, Style::fg(PaletteColor::SurfaceDim));
    assert_eq!(
        view.message,
        span(
            "Message (Enter to commit)",
            Style::colors(PaletteColor::Overlay0, PaletteColor::SurfaceDim)
        )
    );
    app.git_sidebar_state.repo_name = "repo".to_string();
    app.git_sidebar_state.branch = "main".to_string();
    app.git_sidebar_state.commit_message = "fix".to_string();
    app.mode = Mode::Terminal;
    let view = render_git_sidebar(&app, area).unwrap();
    assert_eq!(view.title, " SOURCE CONTROL: repo (main) ");
    assert_eq!(
        view.message,
        span("fix", Style::colors(PaletteColor::Text, PaletteColor::SidebarBg))
    );
}

#[test]
fn missing_changes_are_explained() {
    let mut app = app();
    let area = rect(0, 0, 40, 30);
    assert_eq!(
        render_git_sidebar(&app, area).unwrap().changes.items,
        vec![ListItem {
            spans: vec![span("No changes", Style::fg(PaletteColor::Overlay0))],
            style: Style::plain(),
        }]
    );
    app.git_sidebar_state.error_message = Some("broken".to_string());
    assert_eq!(
        render_git_sidebar(&app, area).unwrap().changes.items,
        vec![ListItem {
            spans: vec![span("broken", Style::fg(PaletteColor::Red))],
            style: Style::plain(),
        }]
    );
    app.git_sidebar_state.is_refreshing = true;
    assert_eq!(
        render_git_sidebar(&app, area).unwrap().changes.items,
        vec![ListItem {
            spans: vec![span("Refreshing...", Style::plain())],
            style: Style::plain(),
        }]
    );
    assert_eq!(render_git_sidebar(&app, area).unwrap().commits.unwrap().items, vec![]);
}

#[test]
fn changes_and_commits_are_listed() {
    let mut app = app();
    let area = rect(0, 0, 40, 30);
    app.git_sidebar_state.staged_files = vec![
        file("a", GitFileStatusKind::Added),
        file("b", GitFileStatusKind::Deleted),
    ];
    app.git_sidebar_state.unstaged_files = vec![
        file("c", GitFileStatusKind::Modified),
        file("d", GitFileStatusKind::Renamed),
        file("e", GitFileStatusKind::Untracked),
    ];
    app.git_sidebar_state.recent_commits = vec![GitCommitGraphEntry {
        hash: "abc".to_string(),
        subject: "subject".to_string(),
        author: "author".to_string(),
        relative_time: "now".to_string(),
        graph_columns: vec!['|', '*'],
    }];
    app.git_sidebar_state.selected_index = 4;
    let view = render_git_sidebar(&app, area).unwrap();
    assert_eq!(
        texts(&view.changes.items),
        vec![
            "? Staged Changes (2)", "  A a", "  D b", "? Changes (3)", "  M c", "  R d", "  U e"
        ]
    );
    let dim = PaletteColor::SurfaceDim;
    let plain = PaletteColor::SidebarBg;
    assert_eq!(
        view.changes.items[0],
        ListItem {
            spans: vec![span("? ", Style::bold()), span("Staged Changes (2)", Style::bold())],
            style: Style::plain(),
        }
    );
    assert_eq!(
        view.changes.items[1],
        ListItem {
            spans: vec![
                span("  ", Style::plain()),
                span("A ", Style::colors(PaletteColor::Green, plain)),
                span("a", Style::colors(PaletteColor::Text, plain)),
            ],
            style: Style::bg(plain),
        }
    );
    assert_eq!(
        view.changes.items[5],
        ListItem {
            spans: vec![
                span("  ", Style::plain()),
                span("R ", Style::colors(PaletteColor::Yellow, dim)),
                span("d", Style::colors(PaletteColor::Text, dim)),
            ],
            style: Style::bg(dim),
        }
    );
    let commits = view.commits.unwrap();
    assert_eq!(texts(&commits.items), vec!["? Commits", "  |* abc subject"]);
    assert_eq!(
        commits.items[1],
        ListItem {
            spans: vec![
                span("  ", Style::plain()),
                span("|*", Style::colors(PaletteColor::Overlay0, plain)),
                span(" ", Style::plain()),
                span("abc", Style::colors(PaletteColor::Yellow, plain)),
                span(" ", Style::plain()),
                span("subject", Style::colors(PaletteColor::Text, plain)),
            ],
            style: Style::bg(plain),
        }
    );

    app.git_sidebar_state.selected_index = 6;
    let commits = render_git_sidebar(&app, area).unwrap().commits.unwrap();
    assert_eq!(commits.items[1].style, Style::bg(dim));
    app.git_sidebar_state.section_collapsed_staged = true;
    app.git_sidebar_state.section_collapsed_changes = true;
    app.git_sidebar_state.selected_index = 1;
    let view = render_git_sidebar(&app, area).unwrap();
    assert_eq!(texts(&view.changes.items), vec!["? Staged Changes (2)", "? Changes (3)"]);
    assert_eq!(view.commits.unwrap().items[1].style, Style::bg(dim));
    app.git_sidebar_state.section_collapsed_commits = true;
    let view = render_git_sidebar(&app, area).unwrap();
    assert_eq!(texts(&view.commits.unwrap().items), vec!["? Commits"]);
}

#[test]
fn selected_position_counts_headers_for_the_keys_only() {
    let mut app = app();
    app.git_sidebar_state.staged_files =
        vec![file("a", GitFileStatusKind::Added), file("b", GitFileStatusKind::Added)];
    app.git_sidebar_state.unstaged_files = vec![file("c", GitFileStatusKind::Modified)];
    app.git_sidebar_state.selected_index = 3;
    assert_eq!(
        app.git_sidebar_state.selected_row(),
        Some(GitSidebarRow::SectionHeader(GitSection::Changes))
    );
    let view = render_git_sidebar(&app, rect(0, 0, 40, 30)).unwrap();
    assert_eq!(view.changes.items[4].spans[2].content, "c");
    assert_eq!(view.changes.items[4].style, Style::bg(PaletteColor::SurfaceDim));
}

#[test]
fn nothing_is_set_off_while_the_keys_go_elsewhere() {
    let mut app = app();
    app.mode = Mode::Navigate;
    app.git_sidebar_state.staged_files = vec![file("a", GitFileStatusKind::Added)];
    app.git_sidebar_state.selected_index = 1;
    let view = render_git_sidebar(&app, rect(0, 0, 40, 30)).unwrap();
    assert_eq!(view.changes.items[1].style, Style::bg(PaletteColor::SidebarBg));
    for selected in [0, 2, 9] {
        app.git_sidebar_state.selected_index = selected;
        assert_eq!(render_git_sidebar(&app, rect(0, 0, 40, 30)), Some(view.clone()));
    }
}

#[test]
fn collapsed_panel_is_a_bar_with_letters() {
    let view = render_git_sidebar_collapsed(rect(7, 4, 3, 3)).unwrap();
    let bar = Style::fg(PaletteColor::SurfaceDim);
    let text = Style::fg(PaletteColor::Text);
    assert_eq!(view.area, rect(7, 4, 3, 3));
    assert_eq!(view.style, Style::bg(PaletteColor::SidebarBg));
    assert_eq!(
        view.cells,
        vec![
            Cell { x: 7, y: 4, symbol: '\u{a6}', style: bar },
            Cell { x: 7, y: 5, symbol: '\u{a6}', style: bar },
            Cell { x: 7, y: 6, symbol: '\u{a6}', style: bar },
            Cell { x: 8, y: 5, symbol: 'S', style: text },
            Cell { x: 8, y: 6, symbol: 'C', style: text },
        ]
    );
    assert_eq!(render_git_sidebar_collapsed(rect(7, 4, 2, 3)).unwrap().cells.len(), 3);
    assert_eq!(render_git_sidebar_collapsed(rect(7, 4, 3, 2)).unwrap().cells.len(), 2);
}

#[test]
fn toggle_points_right_when_collapsed_and_left_when_expanded() {
    for (collapsed, icon) in [(true, ">"), (false, "<")] {
        let view = render_git_sidebar_toggle(rect(7, 4, 3, 3), collapsed).unwrap();
        assert_eq!(view.area, rect(7, 6, 1, 1));
        assert_eq!(view.icon, span(icon, Style::fg(PaletteColor::Overlay0)));
    }
}
