//! What the contracts speak of is what the values hold: every field, by its
//! own text or number.

use crate::git_sidebar::{
    GitCommitGraphEntry, GitFileStatus, GitSidebarSnapshot, GitSidebarState,
};
use crate::render::{ListItem, ListView, SidebarView, Span};
use crate::runtime::{
    ActionModel, App, AppState, EffectModel, GitSidebarAction, GitSidebarEffect, GitSidebarPopup,
    PopupModel,
};
use vstd::prelude::*;

verus! {

/// Whether an optional text is seen as it is.
pub open spec fn seen(text: Option<String>, as_seen: Option<Seq<char>>) -> bool {
    &&& text is Some <==> as_seen is Some
    &&& text is Some ==> as_seen->0 == text->0@
}

/// Whether files are seen one by one, in their order.
pub open spec fn seen_files(
    files: Seq<GitFileStatus>,
    as_seen: Seq<crate::git_sidebar::FileModel>,
) -> bool {
    &&& as_seen.len() == files.len()
    &&& forall|i: int|
        0 <= i < files.len() ==> (#[trigger] as_seen[i]).path == files[i].path@ && as_seen[i].status
            == files[i].status
}

/// Whether commits are seen one by one, in their order.
pub open spec fn seen_commits(
    commits: Seq<GitCommitGraphEntry>,
    as_seen: Seq<crate::git_sidebar::CommitModel>,
) -> bool {
    &&& as_seen.len() == commits.len()
    &&& forall|i: int|
        0 <= i < commits.len() ==> {
            &&& (#[trigger] as_seen[i]).hash == commits[i].hash@
            &&& as_seen[i].subject == commits[i].subject@
            &&& as_seen[i].author == commits[i].author@
            &&& as_seen[i].relative_time == commits[i].relative_time@
            &&& as_seen[i].graph_columns == commits[i].graph_columns@
        }
}

/// A panel is seen field by field.
pub proof fn law_panel_is_seen_as_it_is(s: GitSidebarState)
    ensures
        seen(s.cwd, s@.cwd),
        seen(s.repo_root, s@.repo_root),
        s@.repo_name == s.repo_name@,
        s@.branch == s.branch@,
        seen_files(s.merge_files@, s@.merge_files),
        seen_files(s.staged_files@, s@.staged_files),
        seen_files(s.unstaged_files@, s@.unstaged_files),
        seen_files(s.untracked_files@, s@.untracked_files),
        seen_commits(s.recent_commits@, s@.recent_commits),
        s@.commit_message == s.commit_message@,
        s@.commit_cursor == s.commit_cursor,
        s@.section_collapsed_merge == s.section_collapsed_merge,
        s@.section_collapsed_staged == s.section_collapsed_staged,
        s@.section_collapsed_changes == s.section_collapsed_changes,
        s@.section_collapsed_untracked == s.section_collapsed_untracked,
        s@.section_collapsed_commits == s.section_collapsed_commits,
        s@.scroll_changes == s.scroll_changes,
        s@.scroll_graph == s.scroll_graph,
        s@.selected_item == s.selected_item,
        s@.selected_index == s.selected_index,
        s@.focus == s.focus,
        s@.is_refreshing == s.is_refreshing,
        s@.needs_force_refresh == s.needs_force_refresh,
        s@.last_refresh == s.last_refresh,
        s@.action_in_flight == s.action_in_flight,
        seen(s.pending_discard, s@.pending_discard),
        seen(s.error_message, s@.error_message),
        seen(s.status_message, s@.status_message),
{
}

/// What a probe found is seen field by field.
pub proof fn law_snapshot_is_seen_as_it_is(s: GitSidebarSnapshot)
    ensures
        s@.cwd == s.cwd@,
        seen(s.repo_root, s@.repo_root),
        s@.repo_name == s.repo_name@,
        s@.branch == s.branch@,
        seen_files(s.merge_files@, s@.merge_files),
        seen_files(s.staged_files@, s@.staged_files),
        seen_files(s.unstaged_files@, s@.unstaged_files),
        seen_files(s.untracked_files@, s@.untracked_files),
        seen_commits(s.recent_commits@, s@.recent_commits),
{
}

/// The program is seen field by field.
pub proof fn law_program_is_seen_as_it_is(app: App, state: AppState)
    ensures
        app@ == app.state@,
        state@.active == state.active,
        state@.workspaces.len() == state.workspaces@.len(),
        forall|i: int|
            0 <= i < state.workspaces@.len() ==> seen(
                state.workspaces@[i].resolved_cwd,
                #[trigger] state@.workspaces[i],
            ),
        state@.mode == state.mode,
        state@.git_sidebar_closed == state.git_sidebar_closed,
        state@.git_sidebar_escape_to_dismiss == state.git_sidebar_escape_to_dismiss,
        state@.session_dirty == state.session_dirty,
        state@.git_sidebar_rect == state.git_sidebar_rect,
        state@.sidebar == state.git_sidebar_state@,
{
}

/// The work that is handed back is seen as it is, with its texts.
pub proof fn law_work_is_seen_as_it_is(
    effect: GitSidebarEffect,
    action: GitSidebarAction,
    popup: GitSidebarPopup,
)
    ensures
        match effect {
            GitSidebarEffect::SpawnRefresh { cwd } => effect@ == (EffectModel::SpawnRefresh {
                cwd: cwd@,
            }),
            GitSidebarEffect::SpawnAction { repo_root, action } => effect@ == (
            EffectModel::SpawnAction { repo_root: repo_root@, action: action@ }),
            GitSidebarEffect::OpenPopup { popup, repo_root } => effect@ == (
            EffectModel::OpenPopup { popup: popup@, repo_root: repo_root@ }),
        },
        crate::runtime::effect_model(Some(effect)) == Some(effect@),
        crate::runtime::effect_model(None) is None,
        match action {
            GitSidebarAction::Stage(path) => action@ == ActionModel::Stage(path@),
            GitSidebarAction::Unstage(path) => action@ == ActionModel::Unstage(path@),
            GitSidebarAction::StageAll => action@ == ActionModel::StageAll,
            GitSidebarAction::UnstageAll => action@ == ActionModel::UnstageAll,
            GitSidebarAction::Commit(message) => action@ == ActionModel::Commit(message@),
            GitSidebarAction::Discard(path) => action@ == ActionModel::Discard(path@),
        },
        match popup {
            GitSidebarPopup::Diff { section, file } => popup@ == (PopupModel::Diff {
                section,
                file: file@,
            }),
            GitSidebarPopup::Show { commit } => popup@ == (PopupModel::Show { commit: commit@ }),
        },
{
}

/// What is to be drawn is seen as it is: spans and lines in their order.
pub proof fn law_drawing_is_seen_as_it_is(
    view: SidebarView,
    list: ListView,
    line: ListItem,
    span: Span,
)
    ensures
        view@.area == view.area,
        view@.title == view.title@,
        view@.style == view.style,
        view@.message_area == view.message_area,
        view@.message == view.message@,
        view@.message_border == view.message_border,
        view@.changes == view.changes@,
        view@.commits is Some <==> view.commits is Some,
        view.commits is Some ==> view@.commits->0 == view.commits->0@,
        crate::render::panel_model(Some(view)) == Some(view@),
        crate::render::panel_model(None) is None,
        list@.area == list.area,
        list@.items.len() == list.items@.len(),
        forall|i: int| 0 <= i < list.items@.len() ==> #[trigger] list@.items[i] == list.items@[i]@,
        line@.style == line.style,
        line@.spans.len() == line.spans@.len(),
        forall|i: int| 0 <= i < line.spans@.len() ==> #[trigger] line@.spans[i] == line.spans@[i]@,
        span@.content == span.content@,
        span@.style == span.style,
{
}

/// Two paths are the same if their texts are, or if the platform takes them
/// for the same; two missing paths are the same, and one is not.
pub proof fn law_same_paths(a: Option<Seq<char>>, b: Option<Seq<char>>)
    ensures
        crate::path::same_optional_path(a, b) <==> {
            ||| a is None && b is None
            ||| a is Some && b is Some && (a->0 == b->0 || crate::path::path_texts_equal(
                a->0,
                b->0,
            ))
        },
        a is Some && b is Some ==> crate::path::same_path(a->0, b->0)
            == crate::path::same_optional_path(a, b),
{
}

} // verus!
