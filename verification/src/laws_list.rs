//! What the rows of the list are, and which of them is selected.

use crate::git_sidebar::{FileModel, GitSection, GitSidebarFocus, GitSidebarRow, SidebarModel};
use vstd::prelude::*;

verus! {

/// The files of a group of files.
pub open spec fn files_in(m: SidebarModel, section: GitSection) -> Seq<FileModel> {
    match section {
        GitSection::Merge => m.merge_files,
        GitSection::Staged => m.staged_files,
        GitSection::Changes => m.unstaged_files,
        GitSection::Untracked => m.untracked_files,
        GitSection::Commits => Seq::empty(),
    }
}

/// How many entries a group has.
pub open spec fn size_of_group(m: SidebarModel, section: GitSection) -> int {
    match section {
        GitSection::Merge => m.merge_files.len() as int,
        GitSection::Staged => m.staged_files.len() as int,
        GitSection::Changes => m.unstaged_files.len() as int,
        GitSection::Untracked => m.untracked_files.len() as int,
        GitSection::Commits => m.recent_commits.len() as int,
    }
}

/// Whether a group is folded to its header.
pub open spec fn folded(m: SidebarModel, section: GitSection) -> bool {
    match section {
        GitSection::Merge => m.section_collapsed_merge,
        GitSection::Staged => m.section_collapsed_staged,
        GitSection::Changes => m.section_collapsed_changes,
        GitSection::Untracked => m.section_collapsed_untracked,
        GitSection::Commits => m.section_collapsed_commits,
    }
}

/// How many rows a group takes.
pub open spec fn height_of_group(m: SidebarModel, section: GitSection) -> int {
    if size_of_group(m, section) == 0 {
        0
    } else if folded(m, section) {
        1
    } else {
        1 + size_of_group(m, section)
    }
}

/// Whether there is a file in any group.
pub open spec fn has_files(m: SidebarModel) -> bool {
    m.merge_files.len() + m.staged_files.len() + m.unstaged_files.len() + m.untracked_files.len()
        > 0
}

/// The row at which a group starts: after the groups before it, and the
/// commits after the placeholder where there is no file.
pub open spec fn top_of_group(m: SidebarModel, section: GitSection) -> int {
    match section {
        GitSection::Merge => 0,
        GitSection::Staged => height_of_group(m, GitSection::Merge),
        GitSection::Changes => height_of_group(m, GitSection::Merge) + height_of_group(
            m,
            GitSection::Staged,
        ),
        GitSection::Untracked => height_of_group(m, GitSection::Merge) + height_of_group(
            m,
            GitSection::Staged,
        ) + height_of_group(m, GitSection::Changes),
        GitSection::Commits => if has_files(m) {
            height_of_group(m, GitSection::Merge) + height_of_group(m, GitSection::Staged)
                + height_of_group(m, GitSection::Changes) + height_of_group(
                m,
                GitSection::Untracked,
            )
        } else {
            1
        },
    }
}

/// How many rows there are.
pub open spec fn height_of_list(m: SidebarModel) -> int {
    top_of_group(m, GitSection::Commits) + height_of_group(m, GitSection::Commits)
}

/// Whether row `at` is a row of a group.
pub open spec fn in_group(m: SidebarModel, section: GitSection, at: int) -> bool {
    top_of_group(m, section) <= at < top_of_group(m, section) + height_of_group(m, section)
}

/// The number from 0 to `count - 1` that is nearest to `index`.
pub open spec fn nearest(index: int, count: int) -> int {
    if index < 0 {
        0
    } else if index >= count {
        count - 1
    } else {
        index
    }
}

proof fn lemma_group(m: SidebarModel, section: GitSection)
    ensures
        m.section_rows(section).len() == height_of_group(m, section),
        height_of_group(m, section) > 0 ==> m.section_rows(section)[0]
            == GitSidebarRow::SectionHeader(section),
        forall|j: int|
            1 <= j < height_of_group(m, section) ==> #[trigger] m.section_rows(section)[j]
                == SidebarModel::item_row(section, j - 1),
{
}

/// The groups start where their heights say.
proof fn lemma_tops(m: SidebarModel, section: GitSection)
    ensures
        crate::laws::section_start(m, section) == top_of_group(m, section),
        m.rows().len() == height_of_list(m),
{
    lemma_group(m, GitSection::Merge);
    lemma_group(m, GitSection::Staged);
    lemma_group(m, GitSection::Changes);
    lemma_group(m, GitSection::Untracked);
    lemma_group(m, GitSection::Commits);
    crate::laws::lemma_rows_len(m);
}

/// Every group of files lists, at its place in the order of the groups, its
/// header and, unless it is folded, its files in their order; the commits
/// follow likewise; and there is no other row but the placeholder, which
/// stands alone above the commits where there is no file.
#[verifier::rlimit(40)]
#[verifier::spinoff_prover]
pub proof fn law_rows_in_order(m: SidebarModel, section: GitSection, index: usize)
    ensures
        m.rows().len() == height_of_list(m),
        height_of_group(m, section) > 0 ==> m.rows()[top_of_group(m, section)]
            == GitSidebarRow::SectionHeader(section),
        index + 1 < height_of_group(m, section) && section != GitSection::Commits
            ==> m.rows()[top_of_group(m, section) + 1 + index] == (GitSidebarRow::File {
            section,
            index,
        }),
        index + 1 < height_of_group(m, section) && section == GitSection::Commits
            ==> m.rows()[top_of_group(m, section) + 1 + index] == (GitSidebarRow::Commit { index }),
        !has_files(m) ==> m.rows()[0] == GitSidebarRow::Placeholder,
{
    lemma_tops(m, section);
    if height_of_group(m, section) > 0 {
        lemma_row_of_group(m, section, 0);
    }
    if index + 1 < height_of_group(m, section) {
        lemma_row_of_group(m, section, 1 + index);
    }
    lemma_placeholder(m);
}

proof fn lemma_placeholder(m: SidebarModel)
    ensures
        !has_files(m) ==> m.rows()[0] == GitSidebarRow::Placeholder,
{
}

/// Every row is the placeholder, or belongs to one group.
pub proof fn law_rows_belong_to_one_group(m: SidebarModel, at: int)
    requires
        0 <= at < height_of_list(m),
    ensures
        (!has_files(m) && at == 0) || exists|section: GitSection| #[trigger]
            in_group(m, section, at),
        forall|a: GitSection, b: GitSection| #[trigger]
            in_group(m, a, at) && #[trigger] in_group(m, b, at) ==> a == b,
        !has_files(m) && at == 0 ==> forall|section: GitSection| !#[trigger]
            in_group(m, section, at),
{
    assert(in_group(m, GitSection::Merge, at) || in_group(m, GitSection::Staged, at) || in_group(
        m,
        GitSection::Changes,
        at,
    ) || in_group(m, GitSection::Untracked, at) || in_group(m, GitSection::Commits, at) || (
    !has_files(m) && at == 0));
}

/// The selected row is the one that the cursor counts to, and there is none
/// where the cursor counts past the list.
pub proof fn law_selected_row_is_under_the_cursor(
    m: SidebarModel,
    section: GitSection,
    index: usize,
)
    ensures
        m.selected_row() is Some <==> 0 <= m.selected_index < height_of_list(m),
        height_of_group(m, section) > 0 && m.selected_index == top_of_group(m, section)
            ==> m.selected_row() == Some(GitSidebarRow::SectionHeader(section)),
        index + 1 < height_of_group(m, section) && m.selected_index == top_of_group(m, section) + 1
            + index ==> m.selected_row() == Some(
            if section == GitSection::Commits {
                GitSidebarRow::Commit { index }
            } else {
                GitSidebarRow::File { section, index }
            },
        ),
        !has_files(m) && m.selected_index == 0 ==> m.selected_row() == Some(
            GitSidebarRow::Placeholder,
        ),
{
    law_rows_in_order(m, section, index);
}

/// The selected file is the file of the row under the cursor: the entry at
/// the same place of the group's own list.  On a header, a commit, the
/// placeholder and past the list there is none.
pub proof fn law_selected_file_is_under_the_cursor(
    m: SidebarModel,
    section: GitSection,
    index: usize,
)
    ensures
        section != GitSection::Commits && index + 1 < height_of_group(m, section)
            && m.selected_index == top_of_group(m, section) + 1 + index ==> m.selected_file()
            == Some((section, files_in(m, section)[index as int])),
        m.selected_index == top_of_group(m, section) ==> m.selected_file() is None
            || height_of_group(m, section) == 0,
        in_group(m, GitSection::Commits, m.selected_index) ==> m.selected_file() is None,
        !has_files(m) ==> m.selected_file() is None,
        m.selected_index < 0 || m.selected_index >= height_of_list(m) ==> m.selected_file() is None,
{
    law_selected_row_is_under_the_cursor(m, section, index);
    if in_group(m, GitSection::Commits, m.selected_index) {
        lemma_group(m, GitSection::Commits);
        law_rows_in_order(m, GitSection::Commits, 0);
        let j = m.selected_index - top_of_group(m, GitSection::Commits);
        lemma_row_of_group(m, GitSection::Commits, j);
    }
    if !has_files(m) {
        law_rows_in_order(m, GitSection::Commits, 0);
        if m.selected_index > 0 && m.selected_index < height_of_list(m) {
            lemma_row_of_group(
                m,
                GitSection::Commits,
                m.selected_index - top_of_group(m, GitSection::Commits),
            );
        }
    }
}

/// The row at place `j` of a group is the header or an entry of the group.
#[verifier::rlimit(40)]
#[verifier::spinoff_prover]
pub proof fn lemma_row_of_group(m: SidebarModel, section: GitSection, j: int)
    requires
        0 <= j < height_of_group(m, section),
    ensures
        0 <= top_of_group(m, section) + j < m.rows().len(),
        m.rows().len() == height_of_list(m),
        m.rows()[top_of_group(m, section) + j] == (if j == 0 {
            GitSidebarRow::SectionHeader(section)
        } else {
            SidebarModel::item_row(section, j - 1)
        }),
        m.rows()[top_of_group(m, section) + j].spec_section() == Some(section),
{
    lemma_tops(m, section);
    lemma_group(m, section);
    crate::laws::lemma_section_in_rows(m, section, j);
}

/// A file is found by its group and its place there, and none elsewhere.
pub proof fn law_files_by_place(m: SidebarModel, section: GitSection, index: int)
    ensures
        m.files(section) == files_in(m, section),
        m.section_len(section) == size_of_group(m, section),
        m.is_collapsed(section) == folded(m, section),
        m.file_at(section, index) is Some <==> section != GitSection::Commits && 0 <= index
            < size_of_group(m, section),
        m.file_at(section, index) matches Some(file) ==> file == files_in(m, section)[index],
{
}

/// The cursor goes to the row that is asked for, or to the nearest one, and
/// nothing else changes.
pub proof fn law_select_goes_to_the_nearest_row(m: SidebarModel, index: int)
    ensures
        m.select(index) == (SidebarModel { selected_index: nearest(index, height_of_list(m)), ..m }),
{
    law_rows_in_order(m, GitSection::Commits, 0);
}

/// Folding a group sets the mark of that group alone.
pub proof fn law_folding_touches_one_group(
    m: SidebarModel,
    section: GitSection,
    collapsed: bool,
    other: GitSection,
)
    ensures
        ({
            let after = m.set_collapsed(section, collapsed);
            &&& folded(after, section) == collapsed
            &&& other != section ==> folded(after, other) == folded(m, other)
            &&& after.merge_files == m.merge_files
            &&& after.staged_files == m.staged_files
            &&& after.unstaged_files == m.unstaged_files
            &&& after.untracked_files == m.untracked_files
            &&& after.recent_commits == m.recent_commits
            &&& after == (SidebarModel {
                section_collapsed_merge: after.section_collapsed_merge,
                section_collapsed_staged: after.section_collapsed_staged,
                section_collapsed_changes: after.section_collapsed_changes,
                section_collapsed_untracked: after.section_collapsed_untracked,
                section_collapsed_commits: after.section_collapsed_commits,
                ..m
            })
        }),
{
}

/// Deleting takes out one character beside the caret, if there is one there,
/// and the caret stays between what is left.
pub proof fn law_deleting_beside_the_caret(
    m: SidebarModel,
    before: Seq<char>,
    after: Seq<char>,
)
    requires
        m.commit_message == before + after,
        m.commit_cursor == vstd::utf8::encode_utf8(before).len(),
    ensures
        before.len() == 0 ==> m.backspace() == m,
        before.len() > 0 ==> m.backspace() == (SidebarModel {
            commit_message: before.take(before.len() - 1) + after,
            commit_cursor: vstd::utf8::encode_utf8(before.take(before.len() - 1)).len() as int,
            ..m
        }),
        after.len() == 0 ==> m.delete_char() == m,
        after.len() > 0 ==> m.delete_char() == (SidebarModel {
            commit_message: before + after.skip(1),
            ..m
        }),
{
    crate::text::lemma_caret_between(before, after);
    if before.len() > 0 {
        assert(before.drop_last() =~= before.take(before.len() - 1));
    }
    if after.len() > 0 {
        assert(after.drop_first() =~= after.skip(1));
    }
}

/// Going to either end of the message, emptying the box and choosing who gets
/// the keys change the caret, the message and the focus, and nothing else.
pub proof fn law_commit_box_steps(m: SidebarModel)
    ensures
        ({
            let end = vstd::utf8::encode_utf8(m.commit_message).len() as int;
            &&& m.caret_home() == (SidebarModel { commit_cursor: 0, ..m })
            &&& m.caret_end() == (SidebarModel { commit_cursor: end, ..m })
            &&& m.clear_message() == (SidebarModel {
                commit_message: Seq::empty(),
                commit_cursor: 0,
                ..m
            })
            &&& m.message_taken() == (SidebarModel {
                commit_message: Seq::empty(),
                commit_cursor: 0,
                error_message: None,
                ..m
            })
            &&& m.focus_message() == (SidebarModel {
                focus: GitSidebarFocus::Message,
                commit_cursor: end,
                ..m
            })
            &&& m.focus_list() == (SidebarModel { focus: GitSidebarFocus::List, ..m })
        }),
{
}

/// Starting and ending a probe change what is known of probes, and nothing
/// else.  A probe is due if there was none yet, or three seconds after it.
pub proof fn law_probe_steps(m: SidebarModel, now: u64, cwd: Seq<char>)
    ensures
        m.refresh_due(now) <==> m.last_refresh is None || now >= m.last_refresh->0 + 3_000_000_000,
        m.claim_refresh(now) == (SidebarModel {
            needs_force_refresh: false,
            last_refresh: Some(now),
            ..m
        }),
        m.begin_refresh(cwd) == (SidebarModel { is_refreshing: true, cwd: Some(cwd), ..m }),
        m.end_refresh() == (SidebarModel { is_refreshing: false, ..m }),
        m.request_refresh() == (SidebarModel {
            needs_force_refresh: true,
            status_message: None,
            error_message: None,
            ..m
        }),
{
}

/// Starting and ending a command, showing an error, and arming the discard
/// and disarming it change what they are about, and nothing else.
pub proof fn law_command_steps(
    m: SidebarModel,
    error: Option<Seq<char>>,
    message: Option<Seq<char>>,
    path: Seq<char>,
    status: Seq<char>,
)
    ensures
        m.begin_action() == (SidebarModel {
            action_in_flight: true,
            status_message: None,
            pending_discard: None,
            ..m
        }),
        m.end_action(error, message) == (SidebarModel {
            action_in_flight: false,
            needs_force_refresh: true,
            error_message: error,
            status_message: if error is None {
                message
            } else {
                None
            },
            ..m
        }),
        m.with_error(status) == (SidebarModel { error_message: Some(status), ..m }),
        m.arm_discard(path, status) == (SidebarModel {
            pending_discard: Some(path),
            status_message: Some(status),
            ..m
        }),
        m.disarm_discard() == (SidebarModel { pending_discard: None, ..m }),
{
}

/// A new panel knows nothing, runs nothing, folds nothing, and gives its keys
/// to the list.
pub proof fn law_new_panel_is_empty()
    ensures
        ({
            let m = SidebarModel::initial();
            &&& m.cwd is None && m.repo_root is None
            &&& m.repo_name.len() == 0 && m.branch.len() == 0
            &&& !has_files(m) && m.recent_commits.len() == 0
            &&& m.commit_message.len() == 0 && m.commit_cursor == 0
            &&& forall|section: GitSection| !#[trigger] folded(m, section)
            &&& m.scroll_changes == 0 && m.scroll_graph == 0
            &&& m.selected_item is None && m.selected_index == 0
            &&& m.focus == GitSidebarFocus::List
            &&& !m.is_refreshing && !m.needs_force_refresh && m.last_refresh is None
            &&& !m.action_in_flight && m.pending_discard is None
            &&& m.error_message is None && m.status_message is None
        }),
{
}

} // verus!
