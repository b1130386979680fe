//! What holds of the panel as a whole.

use crate::geometry::Rect;
use crate::git_sidebar::{
    GitSection, GitSidebarFocus, GitSidebarRow, SidebarModel, SnapshotModel,
};
use crate::keys::{KeyCode, KeyEvent};
use crate::runtime::{ActionModel, AppModel, EffectModel, Mode};
use vstd::prelude::*;

verus! {

/// Where the rows of a group start.
pub open spec fn section_start(m: SidebarModel, section: GitSection) -> int {
    let merge = m.section_rows(GitSection::Merge).len() as int;
    let staged = m.section_rows(GitSection::Staged).len() as int;
    let changes = m.section_rows(GitSection::Changes).len() as int;
    let untracked = m.section_rows(GitSection::Untracked).len() as int;
    match section {
        GitSection::Merge => 0,
        GitSection::Staged => merge,
        GitSection::Changes => merge + staged,
        GitSection::Untracked => merge + staged + changes,
        GitSection::Commits => if merge + staged + changes + untracked == 0 {
            1
        } else {
            merge + staged + changes + untracked
        },
    }
}

/// How many rows there are.
pub proof fn lemma_rows_len(m: SidebarModel)
    ensures
        m.rows().len() == section_start(m, GitSection::Commits) + m.section_rows(
            GitSection::Commits,
        ).len(),
        m.rows().len() >= 1,
{
}

/// The rows of a group stand together, from its start on.
pub proof fn lemma_section_in_rows(m: SidebarModel, section: GitSection, j: int)
    requires
        0 <= j < m.section_rows(section).len(),
    ensures
        section_start(m, section) + j < m.rows().len(),
        m.rows()[section_start(m, section) + j] == m.section_rows(section)[j],
{
}

/// A row stands among the rows of its group.
proof fn lemma_row_in_section(m: SidebarModel, i: int)
    requires
        0 <= i < m.rows().len(),
    ensures
        m.rows()[i].spec_section() matches Some(section) ==> {
            let j = i - section_start(m, section);
            &&& 0 <= j < m.section_rows(section).len()
            &&& m.rows()[i] == m.section_rows(section)[j]
        },
{
    let merge = m.section_rows(GitSection::Merge);
    let staged = m.section_rows(GitSection::Staged);
    let changes = m.section_rows(GitSection::Changes);
    let untracked = m.section_rows(GitSection::Untracked);
    let commits = m.section_rows(GitSection::Commits);
    lemma_rows_of_section(m, GitSection::Merge);
    lemma_rows_of_section(m, GitSection::Staged);
    lemma_rows_of_section(m, GitSection::Changes);
    lemma_rows_of_section(m, GitSection::Untracked);
    lemma_rows_of_section(m, GitSection::Commits);
    let start = section_start(m, GitSection::Commits);
    if i >= start {
        assert(m.rows()[i] == commits[i - start]);
    } else if m.change_rows().len() == 0 {
        assert(m.rows()[i] == GitSidebarRow::Placeholder);
    } else {
        assert(m.rows()[i] == m.change_rows()[i]);
        if i < merge.len() {
            assert(m.rows()[i] == merge[i]);
        } else if i < merge.len() + staged.len() {
            assert(m.rows()[i] == staged[i - merge.len()]);
        } else if i < merge.len() + staged.len() + changes.len() {
            assert(m.rows()[i] == changes[i - merge.len() - staged.len()]);
        } else {
            assert(m.rows()[i] == untracked[i - merge.len() - staged.len() - changes.len()]);
        }
    }
}

/// The rows of a group belong to it, and only the first is a header.
proof fn lemma_rows_of_section(m: SidebarModel, section: GitSection)
    ensures
        forall|j: int|
            0 <= j < m.section_rows(section).len() ==> {
                &&& (#[trigger] m.section_rows(section)[j]).spec_section() == Some(section)
                &&& m.section_rows(section)[j] == GitSidebarRow::SectionHeader(section) <==> j == 0
            },
{
}

/// Every group that has entries has one header among the rows, at its start.
pub proof fn law_one_header_per_group(m: SidebarModel, section: GitSection, i: int)
    requires
        0 <= i < m.rows().len(),
    ensures
        m.section_len(section) > 0 <==> m.rows().contains(GitSidebarRow::SectionHeader(section)),
        m.rows()[i] == GitSidebarRow::SectionHeader(section) ==> forall|j: int|
            0 <= j < m.rows().len() && j != i ==> #[trigger] m.rows()[j]
                != GitSidebarRow::SectionHeader(section),
{
    let header = GitSidebarRow::SectionHeader(section);
    lemma_rows_of_section(m, section);
    if m.section_len(section) > 0 {
        lemma_section_in_rows(m, section, 0);
    }
    assert forall|j: int| 0 <= j < m.rows().len() && #[trigger] m.rows()[j] == header implies j
        == section_start(m, section) && m.section_len(section) > 0 by {
        lemma_row_in_section(m, j);
    }
}

/// Every row of the list stands for something: a file row for a file of its
/// group, a commit row for a commit, and a header for a group with entries.
/// The list is never empty.
pub proof fn law_rows_stand_for_entries(m: SidebarModel, i: int)
    requires
        0 <= i < m.rows().len(),
        forall|section: GitSection| #[trigger] m.section_len(section) <= usize::MAX,
    ensures
        m.rows().len() > 0,
        match m.rows()[i] {
            GitSidebarRow::SectionHeader(section) => m.section_len(section) > 0,
            GitSidebarRow::File { section, index } => {
                &&& section != GitSection::Commits
                &&& index < m.files(section).len()
                &&& !m.is_collapsed(section)
            },
            GitSidebarRow::Commit { index } => {
                &&& index < m.recent_commits.len()
                &&& !m.section_collapsed_commits
            },
            GitSidebarRow::Placeholder => {
                &&& i == 0
                &&& m.merge_files.len() == 0
                &&& m.staged_files.len() == 0
                &&& m.unstaged_files.len() == 0
                &&& m.untracked_files.len() == 0
            },
        },
{
    lemma_row_in_section(m, i);
    match m.rows()[i].spec_section() {
        Some(section) => {
            assert(m.section_len(section) <= usize::MAX);
        },
        None => {
            if i >= section_start(m, GitSection::Commits) {
                lemma_rows_of_section(m, GitSection::Commits);
                assert(m.rows()[i] == m.section_rows(GitSection::Commits)[i - section_start(
                    m,
                    GitSection::Commits,
                )]);
            } else if m.change_rows().len() > 0 {
                lemma_rows_of_section(m, GitSection::Merge);
                lemma_rows_of_section(m, GitSection::Staged);
                lemma_rows_of_section(m, GitSection::Changes);
                lemma_rows_of_section(m, GitSection::Untracked);
            }
        },
    }
}

/// Collapsing the group that the cursor sits in leaves the cursor on that
/// group's header.
pub proof fn law_collapse_moves_to_header(m: SidebarModel, section: GitSection)
    requires
        m.selected_row() matches Some(row) && row.spec_section() == Some(section),
        !m.is_collapsed(section),
    ensures
        m.collapse_selected(true).is_collapsed(section),
        m.collapse_selected(true).selected_row() == Some(GitSidebarRow::SectionHeader(section)),
{
    let folded = m.set_collapsed(section, true);
    let header = GitSidebarRow::SectionHeader(section);
    lemma_row_in_section(m, m.selected_index);
    lemma_rows_len(folded);
    law_one_header_per_group(folded, section, 0);
    folded.rows().index_of_first_ensures(header);
    let index = folded.rows().index_of_first(header)->0;
    let after = folded.select(index);
    assert(after.rows() =~= folded.rows()) by {
        lemma_same_rows(folded, after);
    }
}

/// What the rows depend on.
proof fn lemma_same_rows(a: SidebarModel, b: SidebarModel)
    requires
        same_contents(a, b),
    ensures
        a.rows() == b.rows(),
{
}

/// Every entry of an expanded group is listed.
pub proof fn law_entries_are_listed(m: SidebarModel, section: GitSection, index: usize)
    requires
        index < m.section_len(section),
        !m.is_collapsed(section),
    ensures
        m.rows().contains(
            if section == GitSection::Commits {
                GitSidebarRow::Commit { index }
            } else {
                GitSidebarRow::File { section, index }
            },
        ),
{
    lemma_section_in_rows(m, section, index + 1);
}

/// A closed panel costs nothing: a tick neither changes anything nor starts a
/// probe, and the event loop is not to wake up for it.
pub proof fn law_closed_panel_is_idle(m: AppModel, now: u64)
    requires
        m.git_sidebar_closed,
    ensures
        m.refresh_if_due(now) == (m, None::<EffectModel>),
        m.refresh_deadline(now) is None,
{
}

/// Probes never overlap: a tick starts one only while none is out, and then
/// one is; otherwise the tick leaves a probe that is out alone.
pub proof fn law_probes_never_overlap(m: AppModel, now: u64)
    ensures
        ({
            let (after, effect) = m.refresh_if_due(now);
            &&& effect is Some ==> !m.sidebar.is_refreshing && after.sidebar.is_refreshing
            &&& effect is None ==> after.sidebar.is_refreshing == m.sidebar.is_refreshing
            &&& m.sidebar.is_refreshing ==> effect is None
        }),
{
}

/// A tick never leaves a deadline behind that has passed already, whether or
/// not the workspace has a directory, so the event loop does not spin.
pub proof fn law_tick_leaves_no_passed_deadline(m: AppModel, now: u64)
    ensures
        ({
            let after = m.refresh_if_due(now).0;
            after.refresh_deadline(now) matches Some(at) ==> at > now
        }),
{
}

/// A tick at or after the deadline starts the probe of the workspace's
/// directory.
pub proof fn law_tick_at_deadline_probes(m: AppModel, now: u64, tick: u64)
    requires
        m.refresh_deadline(now) matches Some(at) && at <= tick,
        m.cwd() is Some,
    ensures
        m.refresh_if_due(tick).1 == Some(EffectModel::SpawnRefresh { cwd: m.cwd()->0 }),
{
}

/// A tick before the deadline does nothing while the workspace stays where it
/// is.
pub proof fn law_tick_before_deadline_waits(m: AppModel, now: u64, tick: u64)
    requires
        m.refresh_deadline(now) matches Some(at) && tick < at,
        !m.sidebar.needs_force_refresh,
        !m.has_moved(),
    ensures
        m.refresh_if_due(tick) == (m, None::<EffectModel>),
{
}

/// What a probe found is adopted when it is of the directory that the probe
/// was started for.
pub proof fn law_probe_result_is_adopted(m: AppModel, now: u64, snapshot: SnapshotModel)
    requires
        m.refresh_if_due(now).1 == Some(EffectModel::SpawnRefresh { cwd: snapshot.cwd }),
    ensures
        ({
            let probing = m.refresh_if_due(now).0;
            let (after, changed) = probing.finish_refresh(snapshot, probing.is_current(snapshot));
            &&& changed
            &&& !after.sidebar.is_refreshing
            &&& after.sidebar.repo_root == snapshot.repo_root
            &&& after.sidebar.repo_name == snapshot.repo_name
            &&& after.sidebar.branch == snapshot.branch
            &&& after.sidebar.merge_files == snapshot.merge_files
            &&& after.sidebar.staged_files == snapshot.staged_files
            &&& after.sidebar.unstaged_files == snapshot.unstaged_files
            &&& after.sidebar.untracked_files == snapshot.untracked_files
            &&& after.sidebar.recent_commits == snapshot.recent_commits
            &&& !after.has_moved()
        }),
{
}

/// A tick after a switch of workspaces drops the old contents at once, and
/// what a probe that is still out brings of the old directory is dropped too.
pub proof fn law_late_probe_is_dropped(m: AppModel, now: u64, late: SnapshotModel)
    requires
        !m.git_sidebar_closed,
        m.has_moved(),
        m.sidebar.is_refreshing,
    ensures
        ({
            let left = m.refresh_if_due(now).0;
            let (after, changed) = left.finish_refresh(late, left.is_current(late));
            &&& left == m.with_sidebar(m.sidebar.moved_away())
            &&& left.sidebar.merge_files.len() == 0
            &&& left.sidebar.staged_files.len() == 0
            &&& left.sidebar.unstaged_files.len() == 0
            &&& left.sidebar.untracked_files.len() == 0
            &&& left.sidebar.recent_commits.len() == 0
            &&& !changed
            &&& after == left.with_sidebar(left.sidebar.end_refresh())
        }),
{
}

/// Once the probe of a left directory is back, the next tick probes the new
/// one, however short the time since.
pub proof fn law_new_directory_is_probed_next(m: AppModel, now: u64, late: SnapshotModel, tick: u64)
    requires
        !m.git_sidebar_closed,
        m.has_moved(),
        m.sidebar.is_refreshing,
    ensures
        ({
            let left = m.refresh_if_due(now).0;
            let back = left.finish_refresh(late, left.is_current(late)).0;
            back.refresh_if_due(tick).1 == Some(EffectModel::SpawnRefresh { cwd: m.cwd()->0 })
        }),
{
    law_late_probe_is_dropped(m, now, late);
}

/// What a probe of another directory than the panel's brings changes nothing
/// but that the probe is back.
pub proof fn law_other_probe_is_dropped(m: AppModel, snapshot: SnapshotModel)
    requires
        !m.is_current(snapshot),
    ensures
        m.finish_refresh(snapshot, m.is_current(snapshot)) == (
            m.with_sidebar(m.sidebar.end_refresh()),
            false,
        ),
{
}

/// Commands never overlap: while one is running every other is ignored, and
/// one that is started is running until its outcome is reported.
pub proof fn law_commands_never_overlap(m: AppModel, action: ActionModel)
    ensures
        m.sidebar.action_in_flight ==> m.run_action(action) == (m, None::<EffectModel>),
        m.run_action(action).1 is Some <==> !m.sidebar.action_in_flight && m.repo_root() is Some,
        m.run_action(action).1 is Some ==> m.run_action(action).0.sidebar.action_in_flight,
{
}

/// A command runs at the root of the repository, or in the directory of the
/// workspace while no root is known.
pub proof fn law_commands_run_at_root(m: AppModel, action: ActionModel)
    requires
        m.run_action(action).1 is Some,
    ensures
        m.run_action(action).1 == Some(
            EffectModel::SpawnAction {
                repo_root: if m.sidebar.repo_root is Some {
                    m.sidebar.repo_root->0
                } else {
                    m.cwd()->0
                },
                action,
            },
        ),
{
}

/// The outcome of a command is shown, another command may start, and an open
/// panel with no probe out wants a probe at once.
pub proof fn law_outcome_asks_for_probe(
    m: AppModel,
    error: Option<Seq<char>>,
    message: Option<Seq<char>>,
    now: u64,
)
    ensures
        ({
            let after = m.action_complete(error, message);
            &&& !after.sidebar.action_in_flight
            &&& after.sidebar.error_message == error
            &&& after.sidebar.status_message is Some ==> after.sidebar.error_message is None
            &&& error is None ==> after.sidebar.status_message == message
            &&& !m.git_sidebar_closed && !m.sidebar.is_refreshing ==> after.refresh_deadline(now)
                == Some(now as int)
        }),
{
}

/// A commit is refused exactly when the message is blank or nothing is staged
/// or merged, and a refused message stays in the box.
pub proof fn law_commit_refusals(m: AppModel)
    ensures
        m.commit_refusal() is Some <==> {
            ||| forall|i: int|
                0 <= i < m.sidebar.commit_message.len() ==> crate::text::is_white_space(
                    #[trigger] m.sidebar.commit_message[i],
                )
            ||| m.sidebar.staged_files.len() == 0 && m.sidebar.merge_files.len() == 0
        },
        m.commit_refusal() is Some ==> {
            &&& m.commit().1 is None
            &&& m.commit().0 == m.with_error(m.commit_refusal()->0)
            &&& m.commit().0.sidebar.commit_message == m.sidebar.commit_message
        },
        m.commit_refusal() is None ==> m.commit().0.sidebar.commit_message.len() == 0,
{
    crate::text::lemma_trimmed_empty(m.sidebar.commit_message);
}

/// A commit that is not refused runs with the trimmed message, if no other
/// command is running and there is a place to run it.
pub proof fn law_commit_runs(m: AppModel)
    requires
        m.commit_refusal() is None,
        !m.sidebar.action_in_flight,
        m.repo_root() is Some,
    ensures
        m.commit().1 == Some(
            EffectModel::SpawnAction {
                repo_root: m.repo_root()->0,
                action: ActionModel::Commit(crate::text::trimmed(m.sidebar.commit_message)),
            },
        ),
{
}

/// Whether an effect throws away the changes of a file.
pub open spec fn discards(effect: Option<EffectModel>, path: Seq<char>) -> bool {
    effect matches Some(EffectModel::SpawnAction { action, .. }) && action == ActionModel::Discard(
        path,
    )
}

/// No key throws changes away but the discard key, in the list, on the
/// selected file of a group that git tracks, with the discard armed for it.
pub proof fn law_discard_needs_arming(m: AppModel, key: KeyEvent, now: u64, path: Seq<char>)
    requires
        discards(m.key(key, now).1, path),
    ensures
        key.code == KeyCode::Char('D'),
        m.sidebar.focus == GitSidebarFocus::List,
        m.is_armed(path),
        m.sidebar.selected_file() matches Some((section, file)) && file.path == path && section
            != GitSection::Untracked,
{
}

/// The first press arms the discard for the selected file and runs nothing,
/// and the second press runs it.
pub proof fn law_discard_takes_two_presses(m: AppModel)
    requires
        m.sidebar.selected_file() matches Some((section, file)) && section != GitSection::Untracked
            && !m.is_armed(file.path),
        !m.sidebar.action_in_flight,
        m.repo_root() is Some,
    ensures
        ({
            let (_, file) = m.sidebar.selected_file()->0;
            let path = file.path;
            let (armed, first) = m.discard_selected();
            let (_, second) = armed.discard_selected();
            &&& first is None
            &&& armed.is_armed(path)
            &&& second == Some(
                EffectModel::SpawnAction {
                    repo_root: m.repo_root()->0,
                    action: ActionModel::Discard(path),
                },
            )
        }),
{
    let armed = m.discard_selected().0;
    lemma_same_rows(m.sidebar, armed.sidebar);
}

/// An untracked file is never discarded, nor is the discard armed for it.
pub proof fn law_untracked_files_are_kept(m: AppModel)
    requires
        m.sidebar.selected_file() matches Some((section, _)) && section == GitSection::Untracked,
    ensures
        m.discard_selected().1 is None,
        m.discard_selected().0.sidebar.pending_discard == m.sidebar.pending_discard,
{
}

/// Every key that the list handles other than the discard key disarms the
/// discard.
pub proof fn law_other_list_keys_disarm(m: AppModel, key: KeyEvent, now: u64)
    requires
        key.code != KeyCode::Char('D'),
    ensures
        m.list_key(key, now).0.sidebar.pending_discard is None,
{
}

/// The stage key unstages what is staged and stages everything else.
pub proof fn law_stage_key_depends_on_group(m: AppModel)
    requires
        m.sidebar.selected_file() is Some,
        !m.sidebar.action_in_flight,
        m.repo_root() is Some,
    ensures
        ({
            let (section, file) = m.sidebar.selected_file()->0;
            m.toggle_stage().1 == Some(
                EffectModel::SpawnAction {
                    repo_root: m.repo_root()->0,
                    action: if section == GitSection::Staged {
                        ActionModel::Unstage(file.path)
                    } else {
                        ActionModel::Stage(file.path)
                    },
                },
            )
        }),
{
}

/// Whether what starts with `effect` was not running before, runs after, and
/// nothing else starts or ends.
pub open spec fn starts_once(
    before: SidebarModel,
    after: SidebarModel,
    effect: Option<EffectModel>,
) -> bool {
    &&& match effect {
        Some(EffectModel::SpawnAction { .. }) => !before.action_in_flight && after.action_in_flight,
        _ => after.action_in_flight == before.action_in_flight,
    }
    &&& match effect {
        Some(EffectModel::SpawnRefresh { .. }) => !before.is_refreshing && after.is_refreshing,
        _ => after.is_refreshing == before.is_refreshing,
    }
}

proof fn lemma_browse_starts_nothing(m: SidebarModel, key: KeyEvent, page: int)
    ensures
        m.browse(key, page) matches Some(after) ==> starts_once(m, after, None),
{
    lemma_collapse_starts_nothing(m, true);
    lemma_collapse_starts_nothing(m, false);
}

proof fn lemma_collapse_starts_nothing(m: SidebarModel, collapsed: bool)
    ensures
        starts_once(m, m.collapse_selected(collapsed), None),
{
}

proof fn lemma_discard_starts_once(m: AppModel)
    ensures
        starts_once(m.sidebar, m.discard_selected().0.sidebar, m.discard_selected().1),
{
}

proof fn lemma_toggle_starts_once(m: AppModel)
    ensures
        starts_once(m.sidebar, m.toggle_selected().0.sidebar, m.toggle_selected().1),
{
}

proof fn lemma_commit_starts_once(m: AppModel)
    ensures
        starts_once(m.sidebar, m.commit().0.sidebar, m.commit().1),
{
}

proof fn lemma_act_starts_once(m: AppModel, key: KeyEvent, now: u64)
    ensures
        starts_once(m.sidebar, m.act(key, now).0.sidebar, m.act(key, now).1),
{
    match key.code {
        KeyCode::Char(' ') | KeyCode::Char('s') => lemma_toggle_starts_once(m),
        KeyCode::Char('D') => lemma_discard_starts_once(m),
        KeyCode::Char('r') => law_probes_never_overlap(
            m.with_sidebar(m.sidebar.request_refresh()),
            now,
        ),
        _ => {},
    }
}

proof fn lemma_list_command_starts_once(m: AppModel, key: KeyEvent, now: u64)
    ensures
        starts_once(m.sidebar, m.list_command(key, now).0.sidebar, m.list_command(key, now).1),
{
    lemma_browse_starts_nothing(m.sidebar, key, m.page());
    lemma_act_starts_once(m, key, now);
}

/// Whatever the key, a command is started only while none is running and then
/// one is, and a probe is started only while none is out and then one is.
pub proof fn law_keys_start_nothing_twice(m: AppModel, key: KeyEvent, now: u64)
    ensures
        starts_once(m.sidebar, m.key(key, now).0.sidebar, m.key(key, now).1),
{
    lemma_list_command_starts_once(m, key, now);
    lemma_commit_starts_once(m);
}

/// Esc gives the keys back and disarms the discard.  It leaves the panel
/// visible unless it is set to close it.
pub proof fn law_escape_gives_keys_back(m: AppModel, key: KeyEvent, now: u64)
    requires
        key.code == KeyCode::Esc,
    ensures
        ({
            let (after, effect) = m.key(key, now);
            &&& effect is None
            &&& after.mode != Mode::GitSidebar
            &&& m.mode != Mode::GitSidebar ==> after.mode == m.mode
            &&& after.sidebar.pending_discard is None
            &&& after.git_sidebar_closed == (m.git_sidebar_closed
                || m.git_sidebar_escape_to_dismiss)
        }),
{
}

/// Tab and BackTab lead from the list to the commit box with the caret at the
/// end, and back, and change nothing else.  Either takes back the focus that
/// either gave away.
pub proof fn law_tab_switches_focus(
    m: AppModel,
    key: KeyEvent,
    now: u64,
    back: KeyEvent,
    later: u64,
)
    requires
        key.code == KeyCode::Tab || key.code == KeyCode::BackTab,
        back.code == KeyCode::Tab || back.code == KeyCode::BackTab,
    ensures
        m.sidebar.focus == GitSidebarFocus::List ==> m.key(key, now) == (
            m.with_sidebar(m.sidebar.focus_message()),
            None::<EffectModel>,
        ),
        m.sidebar.focus == GitSidebarFocus::Message ==> m.key(key, now) == (
            m.with_sidebar(m.sidebar.focus_list()),
            None::<EffectModel>,
        ),
        m.key(key, now).0.key(back, later).0.sidebar.focus == m.sidebar.focus,
{
}

/// Toggling the panel twice leaves it as open or closed as it was.
pub proof fn law_toggle_twice(m: AppModel, now: u64, later: u64)
    ensures
        m.toggle_visibility().refresh_if_due(now).0.toggle_visibility().refresh_if_due(
            later,
        ).0.git_sidebar_closed == m.git_sidebar_closed,
{
}

/// Whether two panels hold the same entries and fold the same groups.
spec fn same_contents(a: SidebarModel, b: SidebarModel) -> bool {
    &&& a.merge_files == b.merge_files
    &&& a.staged_files == b.staged_files
    &&& a.unstaged_files == b.unstaged_files
    &&& a.untracked_files == b.untracked_files
    &&& a.recent_commits == b.recent_commits
    &&& a.section_collapsed_merge == b.section_collapsed_merge
    &&& a.section_collapsed_staged == b.section_collapsed_staged
    &&& a.section_collapsed_changes == b.section_collapsed_changes
    &&& a.section_collapsed_untracked == b.section_collapsed_untracked
    &&& a.section_collapsed_commits == b.section_collapsed_commits
}

proof fn lemma_select_well_formed(m: SidebarModel, index: int)
    requires
        m.caret_ok(),
    ensures
        m.select(index).well_formed(),
{
    lemma_rows_len(m);
    lemma_same_rows(m, m.select(index));
}

/// Looking at another row keeps the selection on a row; `index` may be any.
pub proof fn law_selection_stays_on_a_row(m: SidebarModel, index: int)
    requires
        m.caret_ok(),
    ensures
        m.select(index).well_formed(),
        0 <= index < m.rows().len() ==> m.select(index).selected_row() == Some(m.rows()[index]),
{
    lemma_select_well_formed(m, index);
    lemma_same_rows(m, m.select(index));
}

proof fn lemma_message_well_formed(m: SidebarModel, before: Seq<char>, after: Seq<char>)
    requires
        m.well_formed(),
    ensures
        m.with_message(before, after).well_formed(),
        m.with_message(before, after).before_caret() == before,
        m.with_message(before, after).after_caret() == after,
{
    crate::text::lemma_caret_between(before, after);
    lemma_same_rows(m, m.with_message(before, after));
}

proof fn lemma_ends_are_places(m: SidebarModel)
    ensures
        crate::text::caret_ok(m.commit_message, 0),
        crate::text::caret_ok(m.commit_message, crate::text::byte_len(m.commit_message)),
        crate::text::caret_ok(Seq::empty(), 0),
{
    let none = Seq::<char>::empty();
    crate::text::lemma_caret_between(none, m.commit_message);
    crate::text::lemma_caret_between(m.commit_message, none);
    crate::text::lemma_caret_between(none, none);
}

/// Editing keeps the caret between characters and the selection on a row.
pub proof fn law_editing_keeps_well_formed(m: SidebarModel, key: KeyEvent)
    requires
        m.well_formed(),
    ensures
        m.edit(key).well_formed(),
{
    lemma_ends_are_places(m);
    match key.code {
        KeyCode::Char(c) => lemma_message_well_formed(
            m,
            m.before_caret() + seq![c],
            m.after_caret(),
        ),
        KeyCode::Backspace => lemma_message_well_formed(
            m,
            m.before_caret().drop_last(),
            m.after_caret(),
        ),
        KeyCode::Delete => lemma_message_well_formed(
            m,
            m.before_caret(),
            m.after_caret().drop_first(),
        ),
        KeyCode::Left => lemma_move_well_formed(m, -1),
        KeyCode::Right => lemma_move_well_formed(m, 1),
        _ => lemma_same_rows(m, m.edit(key)),
    }
}

/// Switching between the commit box and the list keeps the caret between
/// characters and the selection on a row.
pub proof fn law_switching_keeps_well_formed(m: SidebarModel)
    requires
        m.well_formed(),
    ensures
        m.focus_message().well_formed(),
        m.focus_list().well_formed(),
        m.switch_focus().well_formed(),
{
    lemma_ends_are_places(m);
    lemma_same_rows(m, m.focus_list());
    lemma_same_rows(m, m.focus_message());
}

proof fn lemma_move_well_formed(m: SidebarModel, delta: int)
    requires
        m.well_formed(),
    ensures
        m.move_caret(delta).well_formed(),
{
    let target = m.before_caret().len() + delta;
    let place = if target < 0 {
        0
    } else if target > m.commit_message.len() {
        m.commit_message.len() as int
    } else {
        target
    };
    lemma_message_well_formed(m, m.commit_message.take(place), m.commit_message.skip(place));
}

/// How many rows a group has.
proof fn lemma_section_rows_len(m: SidebarModel, section: GitSection)
    ensures
        m.section_rows(section).len() == if m.section_len(section) == 0 {
            0
        } else if m.is_collapsed(section) {
            1
        } else {
            1 + m.section_len(section)
        },
{
}

/// Folding a group leaves the rows of the others and the start of its own
/// where they are, and an expanded group has no fewer rows than a collapsed
/// one.
proof fn lemma_fold_rows(m: SidebarModel, section: GitSection, collapsed: bool)
    ensures
        section_start(m.set_collapsed(section, collapsed), section) == section_start(m, section),
        collapsed == m.is_collapsed(section) ==> m.set_collapsed(section, collapsed) == m,
        !collapsed ==> m.set_collapsed(section, collapsed).rows().len() >= m.rows().len(),
{
    let folded = m.set_collapsed(section, collapsed);
    lemma_rows_len(m);
    lemma_rows_len(folded);
    lemma_section_rows_len(m, GitSection::Merge);
    lemma_section_rows_len(m, GitSection::Staged);
    lemma_section_rows_len(m, GitSection::Changes);
    lemma_section_rows_len(m, GitSection::Untracked);
    lemma_section_rows_len(m, GitSection::Commits);
    lemma_section_rows_len(folded, GitSection::Merge);
    lemma_section_rows_len(folded, GitSection::Staged);
    lemma_section_rows_len(folded, GitSection::Changes);
    lemma_section_rows_len(folded, GitSection::Untracked);
    lemma_section_rows_len(folded, GitSection::Commits);
}

/// Folding the group of the cursor keeps the selection on a row.
pub proof fn law_folding_keeps_well_formed(m: SidebarModel, collapsed: bool)
    requires
        m.well_formed(),
    ensures
        m.collapse_selected(collapsed).well_formed(),
{
    match m.selected_row() {
        Some(row) => match row.spec_section() {
            Some(section) => {
                let folded = m.set_collapsed(section, collapsed);
                lemma_fold_rows(m, section, collapsed);
                if collapsed && !m.is_collapsed(section) {
                    law_collapse_moves_to_header(m, section);
                }
            },
            None => {},
        },
        None => {},
    }
}

proof fn lemma_toggle_keeps_well_formed(m: AppModel)
    requires
        m.sidebar.well_formed(),
    ensures
        m.toggle_selected().0.sidebar.well_formed(),
{
    match m.sidebar.selected_row() {
        Some(GitSidebarRow::SectionHeader(section)) => {
            let collapsed = !m.sidebar.is_collapsed(section);
            let folded = m.sidebar.set_collapsed(section, collapsed);
            let at = m.sidebar.selected_index;
            lemma_fold_rows(m.sidebar, section, collapsed);
            lemma_row_in_section(m.sidebar, at);
            lemma_rows_of_section(m.sidebar, section);
            lemma_section_rows_len(folded, section);
            lemma_section_in_rows(folded, section, 0);
        },
        _ => {
            lemma_same_rows(m.sidebar, m.toggle_stage().0.sidebar);
        },
    }
}

proof fn lemma_commit_keeps_well_formed(m: AppModel)
    requires
        m.sidebar.well_formed(),
    ensures
        m.commit().0.sidebar.well_formed(),
{
    lemma_ends_are_places(m.sidebar);
    lemma_same_rows(m.sidebar, m.commit().0.sidebar);
}

proof fn lemma_discard_keeps_well_formed(m: AppModel)
    requires
        m.sidebar.well_formed(),
    ensures
        m.discard_selected().0.sidebar.well_formed(),
{
    lemma_same_rows(m.sidebar, m.discard_selected().0.sidebar);
}

proof fn lemma_reset_well_formed(m: SidebarModel)
    requires
        m.caret_ok(),
    ensures
        m.reset_for_new_repo().well_formed(),
{
    lemma_rows_len(m.reset_for_new_repo());
}

/// A tick keeps the caret between characters and the selection on a row.
pub proof fn law_ticks_keep_well_formed(m: AppModel, now: u64)
    requires
        m.sidebar.well_formed(),
    ensures
        m.refresh_if_due(now).0.sidebar.well_formed(),
{
    let after = m.refresh_if_due(now).0.sidebar;
    let reset = m.sidebar.reset_for_new_repo();
    lemma_reset_well_formed(m.sidebar);
    if !m.git_sidebar_closed && m.has_moved() {
        lemma_same_rows(reset, after);
    } else {
        lemma_same_rows(m.sidebar, after);
    }
}

/// What comes back from a probe, a command or a popup keeps the caret between
/// characters and the selection on a row.
pub proof fn law_outcomes_keep_well_formed(
    m: AppModel,
    snapshot: SnapshotModel,
    current: bool,
    error: Option<Seq<char>>,
    message: Option<Seq<char>>,
)
    requires
        m.sidebar.well_formed(),
    ensures
        m.finish_refresh(snapshot, current).0.sidebar.well_formed(),
        m.action_complete(error, message).sidebar.well_formed(),
        m.finish_popup(error).sidebar.well_formed(),
{
    lemma_same_rows(m.sidebar, m.sidebar.end_refresh());
    lemma_same_rows(m.sidebar, m.action_complete(error, message).sidebar);
    lemma_same_rows(m.sidebar, m.finish_popup(error).sidebar);
    if current {
        let done = m.sidebar.end_refresh();
        let filled = SidebarModel {
            repo_root: snapshot.repo_root,
            repo_name: snapshot.repo_name,
            branch: snapshot.branch,
            merge_files: snapshot.merge_files,
            staged_files: snapshot.staged_files,
            unstaged_files: snapshot.unstaged_files,
            untracked_files: snapshot.untracked_files,
            recent_commits: snapshot.recent_commits,
            ..done
        };
        lemma_select_well_formed(filled, done.selected_index);
    }
}

proof fn lemma_browse_keeps_well_formed(m: SidebarModel, key: KeyEvent, page: int)
    requires
        m.well_formed(),
    ensures
        m.browse(key, page) matches Some(after) ==> after.well_formed(),
{
    let at = m.selected_index;
    match key.code {
        KeyCode::Up | KeyCode::Char('k') => lemma_select_well_formed(m, at - 1),
        KeyCode::Down | KeyCode::Char('j') => lemma_select_well_formed(m, at + 1),
        KeyCode::PageUp => lemma_select_well_formed(m, at - page),
        KeyCode::PageDown => lemma_select_well_formed(m, at + page),
        KeyCode::Home | KeyCode::Char('g') => lemma_select_well_formed(m, 0),
        KeyCode::End | KeyCode::Char('G') => lemma_select_well_formed(m, m.rows().len() - 1),
        KeyCode::Left | KeyCode::Char('h') => law_folding_keeps_well_formed(m, true),
        KeyCode::Right | KeyCode::Char('l') => law_folding_keeps_well_formed(m, false),
        _ => {},
    }
}

proof fn lemma_act_keeps_well_formed(m: AppModel, key: KeyEvent, now: u64)
    requires
        m.sidebar.well_formed(),
    ensures
        m.act(key, now).0.sidebar.well_formed(),
{
    match key.code {
        KeyCode::Char(' ') | KeyCode::Char('s') => lemma_toggle_keeps_well_formed(m),
        KeyCode::Char('c') => law_switching_keeps_well_formed(m.sidebar),
        KeyCode::Char('D') => lemma_discard_keeps_well_formed(m),
        KeyCode::Char('r') => {
            let asked = m.with_sidebar(m.sidebar.request_refresh());
            lemma_same_rows(m.sidebar, asked.sidebar);
            law_ticks_keep_well_formed(asked, now);
        },
        _ => lemma_same_rows(m.sidebar, m.act(key, now).0.sidebar),
    }
}

proof fn lemma_list_command_keeps_well_formed(m: AppModel, key: KeyEvent, now: u64)
    requires
        m.sidebar.well_formed(),
    ensures
        m.list_command(key, now).0.sidebar.well_formed(),
{
    lemma_browse_keeps_well_formed(m.sidebar, key, m.page());
    lemma_act_keeps_well_formed(m, key, now);
}

/// Every key keeps the caret between characters and the selection on a row.
pub proof fn law_keys_keep_well_formed(m: AppModel, key: KeyEvent, now: u64)
    requires
        m.sidebar.well_formed(),
    ensures
        m.key(key, now).0.sidebar.well_formed(),
{
    let code = key.code;
    if code == KeyCode::Esc {
        lemma_same_rows(m.sidebar, m.escape().sidebar);
    } else if code == KeyCode::Tab || code == KeyCode::BackTab {
        law_switching_keeps_well_formed(m.sidebar);
    } else if code == KeyCode::Enter && key.spec_ctrl() {
        lemma_commit_keeps_well_formed(m);
    } else if m.sidebar.focus == GitSidebarFocus::Message {
        lemma_commit_keeps_well_formed(m);
        law_editing_keeps_well_formed(m.sidebar, key);
    } else {
        let commanded = m.list_command(key, now).0.sidebar;
        lemma_list_command_keeps_well_formed(m, key, now);
        lemma_same_rows(commanded, commanded.disarm_discard());
    }
}

/// Backspace takes back what was typed last.
pub proof fn law_backspace_undoes_typing(m: SidebarModel, c: char)
    requires
        m.well_formed(),
    ensures
        m.insert_text(seq![c]).backspace() == m,
{
    let typed = m.before_caret() + seq![c];
    lemma_message_well_formed(m, typed, m.after_caret());
    crate::text::lemma_caret_splits(m.commit_message, m.commit_cursor);
    assert(typed.drop_last() =~= m.before_caret());
}

/// Typing puts the text where the caret is and the caret behind the text.
pub proof fn law_typing_goes_to_the_caret(m: SidebarModel, text: Seq<char>)
    requires
        m.well_formed(),
    ensures
        m.commit_message == m.before_caret() + m.after_caret(),
        m.insert_text(text).commit_message == m.before_caret() + text + m.after_caret(),
        m.insert_text(text).before_caret() == m.before_caret() + text,
        m.insert_text(text).after_caret() == m.after_caret(),
{
    lemma_message_well_formed(m, m.before_caret() + text, m.after_caret());
    crate::text::lemma_caret_splits(m.commit_message, m.commit_cursor);
}

/// Moving the caret left and right again leads back, unless it was at the
/// start; and neither changes the message.
pub proof fn law_caret_moves_back(m: SidebarModel)
    requires
        m.well_formed(),
        m.before_caret().len() > 0,
    ensures
        m.move_caret(-1).commit_message == m.commit_message,
        m.move_caret(-1).move_caret(1) == m,
{
    let k = m.before_caret().len() as int;
    crate::text::lemma_caret_splits(m.commit_message, m.commit_cursor);
    assert(m.before_caret() =~= m.commit_message.take(k));
    lemma_message_well_formed(m, m.commit_message.take(k - 1), m.commit_message.skip(k - 1));
    assert(m.commit_message.take(k - 1) + m.commit_message.skip(k - 1) =~= m.commit_message);
    assert(m.commit_message.take(k) + m.commit_message.skip(k) =~= m.commit_message);
}

/// In a panel that is high enough, every cell belongs to the changes, to the
/// divider or to the commits, and to one of them only.
pub proof fn law_sections_tile_the_panel(area: Rect, x: int, y: int)
    requires
        area.x + area.width <= u16::MAX,
        area.y + area.height <= u16::MAX,
        area.height >= 7,
    ensures
        crate::geometry::splits(area),
        ({
            let (changes, divider, commits) = crate::geometry::sections_of(area);
            let on_divider = area.x <= x < area.x + area.width && divider == Some(y as u16) && 0
                <= y <= u16::MAX;
            &&& area.covers(x, y) <==> changes.covers(x, y) || on_divider || commits.covers(x, y)
            &&& !(changes.covers(x, y) && on_divider)
            &&& !(changes.covers(x, y) && commits.covers(x, y))
            &&& !(on_divider && commits.covers(x, y))
        }),
{
}

/// The commit box, the list of changes and the list of commits lie in the
/// panel and do not overlap.
pub proof fn law_parts_lie_in_the_panel(area: Rect, x: int, y: int)
    requires
        area.x + area.width <= u16::MAX,
        area.y + area.height <= u16::MAX,
    ensures
        crate::geometry::panel_fits(area),
        ({
            let message = crate::geometry::message_box(area);
            let changes = crate::geometry::changes_list(area);
            let commits = crate::geometry::commits_part(area);
            &&& message.covers(x, y) ==> area.covers(x, y)
            &&& changes.covers(x, y) ==> area.covers(x, y)
            &&& commits.covers(x, y) ==> area.covers(x, y)
            &&& !(message.covers(x, y) && changes.covers(x, y))
            &&& !(message.covers(x, y) && commits.covers(x, y))
            &&& !(changes.covers(x, y) && commits.covers(x, y))
        }),
{
}

/// The toggle is one cell, in the last row of the panel, wherever the panel
/// has room beside its border.
pub proof fn law_toggle_lies_in_the_panel(area: Rect)
    requires
        area.x + area.width <= u16::MAX,
        area.y + area.height <= u16::MAX,
        area.width > 1,
        area.height > 0,
    ensures
        ({
            let toggle = crate::geometry::toggle_cell(area);
            &&& toggle.width == 1 && toggle.height == 1
            &&& area.covers(toggle.x as int, toggle.y as int)
            &&& toggle.y == area.y + area.height - 1
        }),
{
}

/// A collapsed panel draws in its own cells only.
pub proof fn law_collapsed_cells_lie_in_the_panel(area: Rect, i: int)
    requires
        area.x + area.width <= u16::MAX,
        area.y + area.height <= u16::MAX,
        area.width > 0,
        0 <= i < crate::render::collapsed_cells(area).len(),
    ensures
        ({
            let cell = crate::render::collapsed_cells(area)[i];
            area.covers(cell.x as int, cell.y as int)
        }),
{
}

/// At most one position is set off, and none while the keys go elsewhere.
pub proof fn law_one_highlight(m: AppModel, i: int, j: int)
    ensures
        m.is_highlighted(i) && m.is_highlighted(j) ==> i == j,
        m.mode != Mode::GitSidebar ==> !m.is_highlighted(i),
{
}

/// While the keys go elsewhere, the whole panel is drawn without regard to
/// what is selected.
pub proof fn law_selection_shows_only_with_the_keys(m: AppModel, index: int, area: Rect)
    requires
        m.mode != Mode::GitSidebar,
    ensures
        m.with_sidebar(SidebarModel { selected_index: index, ..m.sidebar }).panel(area) == m.panel(
            area,
        ),
{
    let other = m.with_sidebar(SidebarModel { selected_index: index, ..m.sidebar });
    assert(other.listed_changes() =~= m.listed_changes());
    assert(other.commit_items() =~= m.commit_items());
}

/// The toggle tells a collapsed panel from an expanded one.
pub proof fn law_toggle_tells_collapsed_from_expanded(a: bool, b: bool)
    ensures
        crate::render::toggle_icon(a) == crate::render::toggle_icon(b) <==> a == b,
{
    reveal_strlit(">");
    reveal_strlit("<");
    assert(">"@[0] != "<"@[0]);
}

} // verus!
