//! What ticks, probes and commands do, told by what the panel holds before
//! and after.

use crate::git_sidebar::{GitSection, GitSidebarRow, SidebarModel, SnapshotModel};
use crate::runtime::{ActionModel, AppModel, EffectModel, Mode, PopupModel};
use vstd::prelude::*;

verus! {

/// The directory of the active workspace.
pub open spec fn directory(m: AppModel) -> Option<Seq<char>> {
    if m.active is Some && m.active->0 < m.workspaces.len() {
        m.workspaces[m.active->0 as int]
    } else {
        None
    }
}

/// The place where commands run.
pub open spec fn place(m: AppModel) -> Option<Seq<char>> {
    if m.sidebar.repo_root is Some {
        m.sidebar.repo_root
    } else {
        directory(m)
    }
}

/// Whether the panel describes a directory, or has a probe of it out.
pub open spec fn describes(m: AppModel, dir: Seq<char>) -> bool {
    m.sidebar.cwd is Some && (m.sidebar.cwd->0 == dir || crate::path::path_texts_equal(
        m.sidebar.cwd->0,
        dir,
    ))
}

/// Whether the discard is armed for a path.
pub open spec fn armed_for(m: AppModel, path: Seq<char>) -> bool {
    m.sidebar.pending_discard is Some && (m.sidebar.pending_discard->0 == path
        || crate::path::path_texts_equal(m.sidebar.pending_discard->0, path))
}

/// Whether nothing of a program changed but its panel.
pub open spec fn same_around(a: AppModel, b: AppModel) -> bool {
    &&& a.active == b.active
    &&& a.workspaces == b.workspaces
    &&& a.mode == b.mode
    &&& a.git_sidebar_closed == b.git_sidebar_closed
    &&& a.git_sidebar_escape_to_dismiss == b.git_sidebar_escape_to_dismiss
    &&& a.session_dirty == b.session_dirty
    &&& a.git_sidebar_rect == b.git_sidebar_rect
}

/// Whether a panel holds nothing of any repository.
pub open spec fn is_bare(s: SidebarModel) -> bool {
    &&& s.repo_root is None
    &&& s.repo_name.len() == 0
    &&& s.branch.len() == 0
    &&& s.merge_files.len() == 0
    &&& s.staged_files.len() == 0
    &&& s.unstaged_files.len() == 0
    &&& s.untracked_files.len() == 0
    &&& s.recent_commits.len() == 0
    &&& s.selected_item is None
    &&& s.selected_index == 0
    &&& s.scroll_changes == 0
    &&& s.scroll_graph == 0
    &&& s.pending_discard is None
    &&& s.error_message is None
    &&& s.status_message is None
}

/// Whether what the user set up or is writing is the same, and the same
/// command is running or none.
pub open spec fn same_for_user(a: SidebarModel, b: SidebarModel) -> bool {
    &&& a.commit_message == b.commit_message
    &&& a.commit_cursor == b.commit_cursor
    &&& a.section_collapsed_merge == b.section_collapsed_merge
    &&& a.section_collapsed_staged == b.section_collapsed_staged
    &&& a.section_collapsed_changes == b.section_collapsed_changes
    &&& a.section_collapsed_untracked == b.section_collapsed_untracked
    &&& a.section_collapsed_commits == b.section_collapsed_commits
    &&& a.focus == b.focus
    &&& a.action_in_flight == b.action_in_flight
}

/// The directory is that of the active workspace, and commands run at the
/// root of the repository or, while none is known, in that directory.
pub proof fn law_places(m: AppModel)
    ensures
        m.cwd() == directory(m),
        m.repo_root() == place(m),
{
}

/// A tick in an open panel whose workspace went elsewhere leaves nothing of
/// the old repository, and everything of the user.  Unless a probe is still
/// out it starts the probe of the new directory; otherwise one is owed.
pub proof fn law_switch_drops_the_old_repository(m: AppModel, now: u64, dir: Seq<char>)
    requires
        !m.git_sidebar_closed,
        directory(m) == Some(dir),
        !describes(m, dir),
    ensures
        ({
            let (after, effect) = m.refresh_if_due(now);
            &&& same_around(m, after)
            &&& is_bare(after.sidebar)
            &&& same_for_user(m.sidebar, after.sidebar)
            &&& after.sidebar.is_refreshing
            &&& if m.sidebar.is_refreshing {
                &&& effect is None
                &&& after.sidebar.cwd is None
                &&& after.sidebar.needs_force_refresh
                &&& after.sidebar.last_refresh == m.sidebar.last_refresh
            } else {
                &&& effect == Some(EffectModel::SpawnRefresh { cwd: dir })
                &&& after.sidebar.cwd == Some(dir)
                &&& !after.sidebar.needs_force_refresh
                &&& after.sidebar.last_refresh == Some(now)
            }
        }),
{
}

/// Emptying the panel leaves nothing of the repository, and everything of the
/// user and of what is running.
pub proof fn law_reset_leaves_nothing_of_the_repository(s: SidebarModel)
    ensures
        is_bare(s.reset_for_new_repo()),
        s.reset_for_new_repo().cwd is None,
        same_for_user(s, s.reset_for_new_repo()),
        s.reset_for_new_repo().is_refreshing == s.is_refreshing,
        s.reset_for_new_repo().last_refresh == s.last_refresh,
        s.reset_for_new_repo().needs_force_refresh == s.needs_force_refresh,
        s.moved_away() == (SidebarModel { needs_force_refresh: true, ..s.reset_for_new_repo() }),
{
}

/// A tick in an open panel whose workspace is where it was, or nowhere, does
/// nothing while a probe is out or the last one is not three seconds old.
/// Otherwise it notes the time and, if there is a directory, starts its
/// probe.
pub proof fn law_tick_in_place(m: AppModel, now: u64)
    requires
        !m.git_sidebar_closed,
        directory(m) is Some ==> describes(m, directory(m)->0),
    ensures
        ({
            let (after, effect) = m.refresh_if_due(now);
            let owed = m.sidebar.needs_force_refresh || m.sidebar.last_refresh is None || now
                >= m.sidebar.last_refresh->0 + 3_000_000_000;
            if m.sidebar.is_refreshing || !owed {
                after == m && effect is None
            } else if directory(m) is Some {
                &&& effect == Some(EffectModel::SpawnRefresh { cwd: directory(m)->0 })
                &&& same_around(m, after)
                &&& after.sidebar == (SidebarModel {
                    cwd: directory(m),
                    is_refreshing: true,
                    needs_force_refresh: false,
                    last_refresh: Some(now),
                    ..m.sidebar
                })
            } else {
                &&& effect is None
                &&& same_around(m, after)
                &&& after.sidebar == (SidebarModel {
                    needs_force_refresh: false,
                    last_refresh: Some(now),
                    ..m.sidebar
                })
            }
        }),
{
}

/// A tick, given the directory and whether it is a new one.
pub proof fn law_tick_for(m: AppModel, dir: Option<Seq<char>>, moved: bool, now: u64)
    ensures
        ({
            let (after, effect) = m.refresh_for(dir, moved, now);
            let owed = moved || m.sidebar.needs_force_refresh || m.sidebar.last_refresh is None
                || now >= m.sidebar.last_refresh->0 + 3_000_000_000;
            let starts = owed && !m.sidebar.is_refreshing;
            &&& same_around(m, after)
            &&& effect == (if starts && dir is Some {
                Some(EffectModel::SpawnRefresh { cwd: dir->0 })
            } else {
                None
            })
            &&& moved ==> is_bare(after.sidebar) && same_for_user(m.sidebar, after.sidebar)
            &&& after.sidebar.cwd == (if starts && dir is Some {
                dir
            } else if moved {
                None
            } else {
                m.sidebar.cwd
            })
            &&& after.sidebar.is_refreshing == (m.sidebar.is_refreshing || starts && dir is Some)
            &&& after.sidebar.last_refresh == (if starts {
                Some(now)
            } else {
                m.sidebar.last_refresh
            })
            &&& after.sidebar.needs_force_refresh == (!starts && (moved
                || m.sidebar.needs_force_refresh))
            &&& !moved ==> after.sidebar == (SidebarModel {
                cwd: after.sidebar.cwd,
                is_refreshing: after.sidebar.is_refreshing,
                last_refresh: after.sidebar.last_refresh,
                needs_force_refresh: after.sidebar.needs_force_refresh,
                ..m.sidebar
            })
        }),
{
}

/// The event loop is woken at once for a probe that is owed, else three
/// seconds after the last one, and not at all for a closed panel, one with a
/// probe out, or one that was never probed.
pub proof fn law_deadline(m: AppModel, now: u64)
    ensures
        m.refresh_deadline(now) is Some <==> !m.git_sidebar_closed && !m.sidebar.is_refreshing && (
        m.sidebar.needs_force_refresh || m.sidebar.last_refresh is Some),
        m.refresh_deadline(now) matches Some(at) ==> at == (if m.sidebar.needs_force_refresh {
            now as int
        } else {
            m.sidebar.last_refresh->0 + 3_000_000_000
        }),
{
}

/// A probe that comes back is adopted if it is of the directory that the
/// panel describes: the panel then holds what was found, list by list, with
/// the cursor on the nearest row.  Otherwise only that it is back is noted.
pub proof fn law_probe_comes_back(m: AppModel, found: SnapshotModel)
    ensures
        m.is_current(found) <==> describes(m, found.cwd),
        ({
            let (after, changed) = m.finish_refresh(found, m.is_current(found));
            let kept = SidebarModel { is_refreshing: false, ..m.sidebar };
            &&& same_around(m, after)
            &&& changed == describes(m, found.cwd)
            &&& !changed ==> after.sidebar == kept
            &&& changed ==> after.sidebar == (SidebarModel {
                repo_root: found.repo_root,
                repo_name: found.repo_name,
                branch: found.branch,
                merge_files: found.merge_files,
                staged_files: found.staged_files,
                unstaged_files: found.unstaged_files,
                untracked_files: found.untracked_files,
                recent_commits: found.recent_commits,
                selected_index: crate::laws_list::nearest(m.sidebar.selected_index, crate::laws_list::height_of_list(after.sidebar)),
                ..kept
            })
        }),
{
    law_finished_probe(m, found, m.is_current(found));
}

/// A probe that comes back, given whether it is to be adopted.
pub proof fn law_finished_probe(m: AppModel, found: SnapshotModel, current: bool)
    ensures
        ({
            let (after, changed) = m.finish_refresh(found, current);
            let kept = SidebarModel { is_refreshing: false, ..m.sidebar };
            &&& same_around(m, after)
            &&& changed == current
            &&& !current ==> after.sidebar == kept
            &&& current ==> after.sidebar == (SidebarModel {
                repo_root: found.repo_root,
                repo_name: found.repo_name,
                branch: found.branch,
                merge_files: found.merge_files,
                staged_files: found.staged_files,
                unstaged_files: found.unstaged_files,
                untracked_files: found.untracked_files,
                recent_commits: found.recent_commits,
                selected_index: crate::laws_list::nearest(m.sidebar.selected_index, crate::laws_list::height_of_list(after.sidebar)),
                ..kept
            })
        }),
{
    let filled = SidebarModel {
        is_refreshing: false,
        repo_root: found.repo_root,
        repo_name: found.repo_name,
        branch: found.branch,
        merge_files: found.merge_files,
        staged_files: found.staged_files,
        unstaged_files: found.unstaged_files,
        untracked_files: found.untracked_files,
        recent_commits: found.recent_commits,
        ..m.sidebar
    };
    crate::laws_list::law_select_goes_to_the_nearest_row(filled, m.sidebar.selected_index);
}

/// What becomes of a command: it starts at the root, unless another one is
/// running or there is no place to run it.
pub open spec fn is_start(
    m: AppModel,
    after: AppModel,
    effect: Option<EffectModel>,
    action: ActionModel,
) -> bool {
    if m.sidebar.action_in_flight || place(m) is None {
        after == m && effect is None
    } else {
        &&& effect == Some(EffectModel::SpawnAction { repo_root: place(m)->0, action })
        &&& same_around(m, after)
        &&& after.sidebar == (SidebarModel {
            action_in_flight: true,
            status_message: None,
            pending_discard: None,
            ..m.sidebar
        })
    }
}

/// A command that is asked for starts as it is, at the root, if none is
/// running.
pub proof fn law_command_starts(m: AppModel, action: ActionModel)
    ensures
        is_start(m, m.run_action(action).0, m.run_action(action).1, action),
{
}

/// A command that comes back makes room for the next one and asks for a
/// probe.  Its error is shown, or else what it has to say, and never both.
pub proof fn law_command_comes_back(
    m: AppModel,
    error: Option<Seq<char>>,
    message: Option<Seq<char>>,
)
    ensures
        same_around(m, m.action_complete(error, message)),
        m.action_complete(error, message).sidebar == (SidebarModel {
            action_in_flight: false,
            needs_force_refresh: true,
            error_message: error,
            status_message: if error is None {
                message
            } else {
                None
            },
            ..m.sidebar
        }),
{
}

/// A popup that could not be opened leaves its error, and one that was opened
/// leaves nothing.
pub proof fn law_popup_outcome(m: AppModel, error: Option<Seq<char>>)
    ensures
        same_around(m, m.finish_popup(error)),
        m.finish_popup(error).sidebar == (SidebarModel {
            error_message: if error is Some {
                error
            } else {
                m.sidebar.error_message
            },
            ..m.sidebar
        }),
{
}

/// A popup opens at the root, if there is one.
pub proof fn law_popup_opens_at_the_root(m: AppModel, popup: PopupModel)
    ensures
        m.open_popup(popup) == (if place(m) is Some {
            Some(EffectModel::OpenPopup { popup, repo_root: place(m)->0 })
        } else {
            None
        }),
{
}

/// The file under the cursor is shown by its own diff.
pub proof fn law_diff_of_the_file_under_the_cursor(
    m: AppModel,
    section: GitSection,
    index: usize,
)
    requires
        section != GitSection::Commits,
        index + 1 < crate::laws_list::height_of_group(m.sidebar, section),
        m.sidebar.selected_index == crate::laws_list::top_of_group(m.sidebar, section) + 1 + index,
        place(m) is Some,
    ensures
        m.open_diff() == Some(
            EffectModel::OpenPopup {
                popup: PopupModel::Diff {
                    section,
                    file: crate::laws_list::files_in(m.sidebar, section)[index as int],
                },
                repo_root: place(m)->0,
            },
        ),
{
    crate::laws_list::law_selected_row_is_under_the_cursor(m.sidebar, section, index);
}

/// The commit under the cursor is shown.
pub proof fn law_show_of_the_commit_under_the_cursor(m: AppModel, index: usize)
    requires
        index + 1 < crate::laws_list::height_of_group(m.sidebar, GitSection::Commits),
        m.sidebar.selected_index == crate::laws_list::top_of_group(m.sidebar, GitSection::Commits) + 1 + index,
        place(m) is Some,
    ensures
        m.open_diff() == Some(
            EffectModel::OpenPopup {
                popup: PopupModel::Show { commit: m.sidebar.recent_commits[index as int] },
                repo_root: place(m)->0,
            },
        ),
{
    crate::laws_list::law_selected_row_is_under_the_cursor(
        m.sidebar,
        GitSection::Commits,
        index,
    );
}

/// Whether the cursor is on a row that stands for no file and no commit: on a
/// header, on the placeholder, or past the list.
pub open spec fn on_no_entry(s: SidebarModel) -> bool {
    ||| s.selected_index < 0
    ||| s.selected_index >= crate::laws_list::height_of_list(s)
    ||| !crate::laws_list::has_files(s) && s.selected_index == 0
    ||| exists|section: GitSection|
        s.selected_index == #[trigger] crate::laws_list::top_of_group(s, section) && crate::laws_list::height_of_group(s, section) > 0
}

/// Without a place, or on a row that stands for nothing, no popup opens.
pub proof fn law_nothing_to_show(m: AppModel)
    requires
        place(m) is None || on_no_entry(m.sidebar),
    ensures
        m.open_diff() is None,
{
    lemma_no_entry(m.sidebar);
}

proof fn lemma_no_entry(s: SidebarModel)
    ensures
        on_no_entry(s) ==> {
            ||| s.selected_row() is None
            ||| s.selected_row() == Some(GitSidebarRow::Placeholder)
            ||| s.selected_row()->0 is SectionHeader
        },
{
    crate::laws_list::law_selected_row_is_under_the_cursor(s, GitSection::Merge, 0);
    crate::laws_list::law_selected_row_is_under_the_cursor(s, GitSection::Staged, 0);
    crate::laws_list::law_selected_row_is_under_the_cursor(s, GitSection::Changes, 0);
    crate::laws_list::law_selected_row_is_under_the_cursor(s, GitSection::Untracked, 0);
    crate::laws_list::law_selected_row_is_under_the_cursor(s, GitSection::Commits, 0);
}

/// Staging takes the file under the cursor: it is unstaged if it stands in
/// the staged group, and staged otherwise.
pub proof fn law_staging_takes_the_file_under_the_cursor(
    m: AppModel,
    section: GitSection,
    index: usize,
)
    requires
        section != GitSection::Commits,
        index + 1 < crate::laws_list::height_of_group(m.sidebar, section),
        m.sidebar.selected_index == crate::laws_list::top_of_group(m.sidebar, section) + 1 + index,
    ensures
        ({
            let path = crate::laws_list::files_in(m.sidebar, section)[index as int].path;
            is_start(
                m,
                m.toggle_stage().0,
                m.toggle_stage().1,
                if section == GitSection::Staged {
                    ActionModel::Unstage(path)
                } else {
                    ActionModel::Stage(path)
                },
            )
        }),
{
    crate::laws_list::law_selected_file_is_under_the_cursor(m.sidebar, section, index);
}

/// Away from files nothing is staged or discarded.
pub proof fn law_only_files_are_staged_or_discarded(m: AppModel)
    requires
        on_no_entry(m.sidebar) || crate::laws_list::in_group(
            m.sidebar,
            GitSection::Commits,
            m.sidebar.selected_index,
        ),
    ensures
        m.toggle_stage() == (m, None::<EffectModel>),
        m.discard_selected() == (m, None::<EffectModel>),
{
    lemma_no_entry(m.sidebar);
    crate::laws_list::law_selected_file_is_under_the_cursor(m.sidebar, GitSection::Commits, 0);
}

/// Whether a discard of a file does what it should: an untracked file is
/// refused; another one is armed, by its name, or discarded if it was armed.
pub open spec fn is_discard(
    m: AppModel,
    after: AppModel,
    effect: Option<EffectModel>,
    section: GitSection,
    path: Seq<char>,
    armed: bool,
    name: Seq<char>,
) -> bool {
    if section == GitSection::Untracked {
        &&& effect is None
        &&& same_around(m, after)
        &&& after.sidebar == (SidebarModel {
            error_message: Some("cannot discard an untracked file"@),
            ..m.sidebar
        })
    } else if armed {
        is_start(m, after, effect, ActionModel::Discard(path))
    } else {
        &&& effect is None
        &&& same_around(m, after)
        &&& after.sidebar == (SidebarModel {
            pending_discard: Some(path),
            status_message: Some("press D again to discard "@ + name),
            ..m.sidebar
        })
    }
}

/// What a discard does, given whether it is armed and the file's name.
pub proof fn law_discard_of_a_file(
    m: AppModel,
    section: GitSection,
    path: Seq<char>,
    armed: bool,
    name: Option<Seq<char>>,
)
    ensures
        is_discard(
            m,
            m.discard_file(section, path, armed, name).0,
            m.discard_file(section, path, armed, name).1,
            section,
            path,
            armed,
            if name is Some {
                name->0
            } else {
                path
            },
        ),
{
}

/// A discard takes the file under the cursor.
pub proof fn law_discard_takes_the_file_under_the_cursor(
    m: AppModel,
    section: GitSection,
    index: usize,
)
    requires
        section != GitSection::Commits,
        index + 1 < crate::laws_list::height_of_group(m.sidebar, section),
        m.sidebar.selected_index == crate::laws_list::top_of_group(m.sidebar, section) + 1 + index,
    ensures
        ({
            let path = crate::laws_list::files_in(m.sidebar, section)[index as int].path;
            let name = crate::path::path_text_file_name(path);
            is_discard(
                m,
                m.discard_selected().0,
                m.discard_selected().1,
                section,
                path,
                armed_for(m, path),
                if name is Some {
                    name->0
                } else {
                    path
                },
            )
        }),
{
    crate::laws_list::law_selected_file_is_under_the_cursor(m.sidebar, section, index);
}

/// A trimmed text is the text without the white space around it: what is left
/// starts and ends with something else.
pub proof fn law_trimming(before: Seq<char>, text: Seq<char>, after: Seq<char>)
    requires
        forall|i: int|
            0 <= i < before.len() ==> crate::text::is_white_space(#[trigger] before[i]),
        forall|i: int| 0 <= i < after.len() ==> crate::text::is_white_space(#[trigger] after[i]),
        text.len() > 0 ==> !crate::text::is_white_space(text.first())
            && !crate::text::is_white_space(text.last()),
    ensures
        crate::text::trimmed(before + text + after) == text,
{
    if text.len() == 0 {
        let all = before + text + after;
        assert forall|i: int| 0 <= i < all.len() implies crate::text::is_white_space(
            #[trigger] all[i],
        ) by {
            if i < before.len() {
                assert(all[i] == before[i]);
            } else {
                assert(all[i] == after[i - before.len()]);
            }
        }
        crate::text::lemma_trimmed_empty(all);
        assert(crate::text::trimmed(all) =~= text);
    } else {
        lemma_trim_start(before, text + after);
        assert(before + text + after =~= before + (text + after));
        lemma_trim_end(text, after);
    }
}

proof fn lemma_trim_start(white: Seq<char>, rest: Seq<char>)
    requires
        forall|i: int|
            0 <= i < white.len() ==> crate::text::is_white_space(#[trigger] white[i]),
        rest.len() > 0,
        !crate::text::is_white_space(rest.first()),
    ensures
        crate::text::trim_start(white + rest) == rest,
    decreases white.len(),
{
    if white.len() == 0 {
        assert(white + rest =~= rest);
    } else {
        assert(crate::text::is_white_space(white[0]));
        assert((white + rest).drop_first() =~= white.drop_first() + rest);
        lemma_trim_start(white.drop_first(), rest);
    }
}

proof fn lemma_trim_end(rest: Seq<char>, white: Seq<char>)
    requires
        forall|i: int|
            0 <= i < white.len() ==> crate::text::is_white_space(#[trigger] white[i]),
        rest.len() > 0,
        !crate::text::is_white_space(rest.last()),
    ensures
        crate::text::trim_end(rest + white) == rest,
    decreases white.len(),
{
    if white.len() == 0 {
        assert(rest + white =~= rest);
    } else {
        assert(crate::text::is_white_space(white[white.len() - 1]));
        assert((rest + white).drop_last() =~= rest + white.drop_last());
        lemma_trim_end(rest, white.drop_last());
    }
}

/// Of the ASCII characters, tab, line feed, vertical tab, form feed, carriage
/// return and space are white space, and no other.
pub proof fn law_ascii_white_space(c: char)
    requires
        (c as u32) < 128,
    ensures
        crate::text::is_white_space(c) <==> c == '\t' || c == '\n' || c == '\u{b}' || c == '\u{c}'
            || c == '\r' || c == ' ',
{
}

/// A message of nothing but white space is refused, and stays.
pub proof fn law_blank_message_is_refused(m: AppModel)
    requires
        forall|i: int|
            0 <= i < m.sidebar.commit_message.len() ==> crate::text::is_white_space(
                #[trigger] m.sidebar.commit_message[i],
            ),
    ensures
        m.commit().1 is None,
        same_around(m, m.commit().0),
        m.commit().0.sidebar == (SidebarModel {
            error_message: Some("commit message is empty"@),
            ..m.sidebar
        }),
{
    crate::text::lemma_trimmed_empty(m.sidebar.commit_message);
}

/// Any other message is refused if nothing is staged or merged, and stays.
/// Otherwise it is taken out of the box, and the text between the white space
/// around it is committed.
pub proof fn law_commit_of_the_message(
    m: AppModel,
    before: Seq<char>,
    text: Seq<char>,
    after: Seq<char>,
)
    requires
        m.sidebar.commit_message == before + text + after,
        forall|i: int|
            0 <= i < before.len() ==> crate::text::is_white_space(#[trigger] before[i]),
        forall|i: int| 0 <= i < after.len() ==> crate::text::is_white_space(#[trigger] after[i]),
        text.len() > 0,
        !crate::text::is_white_space(text.first()),
        !crate::text::is_white_space(text.last()),
    ensures
        m.sidebar.staged_files.len() == 0 && m.sidebar.merge_files.len() == 0 ==> {
            &&& m.commit().1 is None
            &&& same_around(m, m.commit().0)
            &&& m.commit().0.sidebar == (SidebarModel {
                error_message: Some("nothing staged to commit"@),
                ..m.sidebar
            })
        },
        m.sidebar.staged_files.len() > 0 || m.sidebar.merge_files.len() > 0 ==> {
            let taken = AppModel {
                sidebar: SidebarModel {
                    commit_message: Seq::empty(),
                    commit_cursor: 0,
                    error_message: None,
                    ..m.sidebar
                },
                ..m
            };
            is_start(taken, m.commit().0, m.commit().1, ActionModel::Commit(text))
        },
{
    law_trimming(before, text, after);
}

/// Giving the keys back leads to the terminal if there is a workspace, else
/// to the choice of one, and disarms the discard; the panel stays as open as
/// it was.
pub proof fn law_blur(m: AppModel)
    ensures
        m.blur().mode == (if m.mode != Mode::GitSidebar {
            m.mode
        } else if m.active is Some {
            Mode::Terminal
        } else {
            Mode::Navigate
        }),
        same_around(m, AppModel { mode: m.mode, ..m.blur() }),
        m.blur().sidebar == (SidebarModel { pending_discard: None, ..m.sidebar }),
{
}

/// Toggling opens a closed panel and closes an open one, and changes nothing
/// else.
pub proof fn law_toggle_flips_visibility(m: AppModel)
    ensures
        m.toggle_visibility().git_sidebar_closed != m.git_sidebar_closed,
        m.toggle_visibility() == (AppModel { git_sidebar_closed: !m.git_sidebar_closed, ..m }),
{
}

} // verus!
