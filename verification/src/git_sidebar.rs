//! What the panel holds: the repository's files and commits, the rows that
//! list them, and the commit message being written.

use vstd::prelude::*;

verus! {

/// How often the panel probes the repository again while it is open, in
/// nanoseconds.
pub const GIT_SIDEBAR_REFRESH_INTERVAL: u64 = 3_000_000_000;

/// What happened to a file.
#[derive(Debug, Clone, Copy, PartialEq, Eq, Structural)]
pub enum GitFileStatusKind {
    Added,
    Modified,
    Deleted,
    Renamed,
    Untracked,
}

/// A file with changes.
#[derive(Debug, Clone, PartialEq, Eq)]
pub struct GitFileStatus {
    pub path: String,
    pub status: GitFileStatusKind,
}

/// A `GitFileStatus`, with its text as characters.
pub struct FileModel {
    pub path: Seq<char>,
    pub status: GitFileStatusKind,
}

impl View for GitFileStatus {
    type V = FileModel;

    open spec fn view(&self) -> FileModel {
        FileModel { path: self.path@, status: self.status }
    }
}

impl GitFileStatus {
    /// Another copy of the file.
    pub fn copied(&self) -> (r: GitFileStatus)
        ensures
            r@ == self@,
    {
        GitFileStatus { path: self.path.clone(), status: self.status }
    }
}

/// A commit, with the columns of the graph that lead to it.
#[derive(Debug, Clone, PartialEq, Eq)]
pub struct GitCommitGraphEntry {
    pub hash: String,
    pub subject: String,
    pub author: String,
    pub relative_time: String,
    pub graph_columns: Vec<char>,
}

/// A `GitCommitGraphEntry`, with its texts as characters.
pub struct CommitModel {
    pub hash: Seq<char>,
    pub subject: Seq<char>,
    pub author: Seq<char>,
    pub relative_time: Seq<char>,
    pub graph_columns: Seq<char>,
}

impl View for GitCommitGraphEntry {
    type V = CommitModel;

    open spec fn view(&self) -> CommitModel {
        CommitModel {
            hash: self.hash@,
            subject: self.subject@,
            author: self.author@,
            relative_time: self.relative_time@,
            graph_columns: self.graph_columns@,
        }
    }
}

impl GitCommitGraphEntry {
    /// Another copy of the commit.
    pub fn copied(&self) -> (r: GitCommitGraphEntry)
        ensures
            r@ == self@,
    {
        let graph_columns = self.graph_columns.clone();
        GitCommitGraphEntry {
            hash: self.hash.clone(),
            subject: self.subject.clone(),
            author: self.author.clone(),
            relative_time: self.relative_time.clone(),
            graph_columns,
        }
    }
}

/// An entry of one of the lists, by its position there.
#[derive(Debug, Clone, PartialEq, Eq, Structural)]
pub enum GitSidebarItem {
    StagedFile(usize),
    UnstagedFile(usize),
    Commit(usize),
}

/// The groups of the list, in the order in which they are listed.
#[derive(Debug, Clone, Copy, PartialEq, Eq, Structural)]
pub enum GitSection {
    /// Files with merge conflicts.
    Merge,
    /// Files whose changes are in the index.
    Staged,
    /// Files with changes that are not in the index.
    Changes,
    /// Files that git does not track.
    Untracked,
    /// Recent commits.
    Commits,
}

impl GitSection {
    /// Whether the files of the group are in the index.
    pub fn is_staged(self) -> (r: bool)
        ensures
            r == (self == GitSection::Staged),
    {
        self == GitSection::Staged
    }
}

/// One row of the list.
#[derive(Debug, Clone, Copy, PartialEq, Eq, Structural)]
pub enum GitSidebarRow {
    SectionHeader(GitSection),
    /// The file at `index` of the group.
    File { section: GitSection, index: usize },
    /// The commit at `index`.
    Commit { index: usize },
    /// Stands where no group has a file.
    Placeholder,
}

impl GitSidebarRow {
    /// The group that the row belongs to.
    pub open spec fn spec_section(self) -> Option<GitSection> {
        match self {
            GitSidebarRow::SectionHeader(section) => Some(section),
            GitSidebarRow::File { section, .. } => Some(section),
            GitSidebarRow::Commit { .. } => Some(GitSection::Commits),
            GitSidebarRow::Placeholder => None,
        }
    }

    /// The group that the row belongs to; the placeholder belongs to none.
    pub fn section(self) -> (r: Option<GitSection>)
        ensures
            r == self.spec_section(),
    {
        match self {
            GitSidebarRow::SectionHeader(section) => Some(section),
            GitSidebarRow::File { section, .. } => Some(section),
            GitSidebarRow::Commit { .. } => Some(GitSection::Commits),
            GitSidebarRow::Placeholder => None,
        }
    }
}

/// Which part of the panel takes the keys.
#[derive(Debug, Clone, Copy, PartialEq, Eq, Structural)]
pub enum GitSidebarFocus {
    /// The box with the commit message.
    Message,
    /// The list of files and commits.
    List,
}

/// What one probe of the repository found.
#[derive(Debug, Clone, PartialEq, Eq)]
pub struct GitSidebarSnapshot {
    /// The directory that was probed.
    pub cwd: String,
    pub repo_root: Option<String>,
    pub repo_name: String,
    pub branch: String,
    pub merge_files: Vec<GitFileStatus>,
    pub staged_files: Vec<GitFileStatus>,
    pub unstaged_files: Vec<GitFileStatus>,
    pub untracked_files: Vec<GitFileStatus>,
    pub recent_commits: Vec<GitCommitGraphEntry>,
}

/// A `GitSidebarSnapshot`, with its texts as characters.
pub struct SnapshotModel {
    pub cwd: Seq<char>,
    pub repo_root: Option<Seq<char>>,
    pub repo_name: Seq<char>,
    pub branch: Seq<char>,
    pub merge_files: Seq<FileModel>,
    pub staged_files: Seq<FileModel>,
    pub unstaged_files: Seq<FileModel>,
    pub untracked_files: Seq<FileModel>,
    pub recent_commits: Seq<CommitModel>,
}

/// The files of a list, each by its view.
pub open spec fn file_models(files: Seq<GitFileStatus>) -> Seq<FileModel> {
    files.map_values(|f: GitFileStatus| f@)
}

/// The commits of a list, each by its view.
pub open spec fn commit_models(commits: Seq<GitCommitGraphEntry>) -> Seq<CommitModel> {
    commits.map_values(|c: GitCommitGraphEntry| c@)
}

impl View for GitSidebarSnapshot {
    type V = SnapshotModel;

    open spec fn view(&self) -> SnapshotModel {
        SnapshotModel {
            cwd: self.cwd@,
            repo_root: crate::text::optional_text(self.repo_root),
            repo_name: self.repo_name@,
            branch: self.branch@,
            merge_files: file_models(self.merge_files@),
            staged_files: file_models(self.staged_files@),
            unstaged_files: file_models(self.unstaged_files@),
            untracked_files: file_models(self.untracked_files@),
            recent_commits: commit_models(self.recent_commits@),
        }
    }
}

/// Everything that the panel shows and remembers.
#[derive(Debug, Clone, PartialEq, Eq)]
pub struct GitSidebarState {
    /// The directory that the contents describe, or that a probe is out for.
    pub cwd: Option<String>,
    pub repo_root: Option<String>,
    pub repo_name: String,
    pub branch: String,
    pub merge_files: Vec<GitFileStatus>,
    pub staged_files: Vec<GitFileStatus>,
    pub unstaged_files: Vec<GitFileStatus>,
    pub untracked_files: Vec<GitFileStatus>,
    pub recent_commits: Vec<GitCommitGraphEntry>,
    /// The message being written.
    pub commit_message: String,
    /// The caret in the message, as an offset in bytes.
    pub commit_cursor: usize,
    pub section_collapsed_merge: bool,
    pub section_collapsed_staged: bool,
    pub section_collapsed_changes: bool,
    pub section_collapsed_untracked: bool,
    pub section_collapsed_commits: bool,
    pub scroll_changes: usize,
    pub scroll_graph: usize,
    pub selected_item: Option<GitSidebarItem>,
    /// The position that is selected, which is read in two ways.  The keys,
    /// through `selected_row`, take it as an index into `rows`, where headers
    /// count too.  The screen, through `AppModel::is_highlighted`, takes 0 as
    /// the commit box and counts the staged and unstaged files and the commits
    /// that are shown from 1 on, without headers.  So the line that is set off
    /// need not be the row that a key acts on.
    pub selected_index: usize,
    pub focus: GitSidebarFocus,
    /// Whether a probe is out.
    pub is_refreshing: bool,
    /// Whether the next probe is not to wait for its time.
    pub needs_force_refresh: bool,
    /// When the last probe was started, in nanoseconds of a steady clock.
    pub last_refresh: Option<u64>,
    /// Whether a mutating command is running.
    pub action_in_flight: bool,
    /// The file whose changes the next press of the discard key throws away.
    pub pending_discard: Option<String>,
    pub error_message: Option<String>,
    pub status_message: Option<String>,
}

/// A `GitSidebarState`, with its texts as characters and its numbers as
/// integers.
pub struct SidebarModel {
    pub cwd: Option<Seq<char>>,
    pub repo_root: Option<Seq<char>>,
    pub repo_name: Seq<char>,
    pub branch: Seq<char>,
    pub merge_files: Seq<FileModel>,
    pub staged_files: Seq<FileModel>,
    pub unstaged_files: Seq<FileModel>,
    pub untracked_files: Seq<FileModel>,
    pub recent_commits: Seq<CommitModel>,
    pub commit_message: Seq<char>,
    pub commit_cursor: int,
    pub section_collapsed_merge: bool,
    pub section_collapsed_staged: bool,
    pub section_collapsed_changes: bool,
    pub section_collapsed_untracked: bool,
    pub section_collapsed_commits: bool,
    pub scroll_changes: int,
    pub scroll_graph: int,
    pub selected_item: Option<GitSidebarItem>,
    pub selected_index: int,
    pub focus: GitSidebarFocus,
    pub is_refreshing: bool,
    pub needs_force_refresh: bool,
    pub last_refresh: Option<u64>,
    pub action_in_flight: bool,
    pub pending_discard: Option<Seq<char>>,
    pub error_message: Option<Seq<char>>,
    pub status_message: Option<Seq<char>>,
}

impl View for GitSidebarState {
    type V = SidebarModel;

    open spec fn view(&self) -> SidebarModel {
        SidebarModel {
            cwd: crate::text::optional_text(self.cwd),
            repo_root: crate::text::optional_text(self.repo_root),
            repo_name: self.repo_name@,
            branch: self.branch@,
            merge_files: file_models(self.merge_files@),
            staged_files: file_models(self.staged_files@),
            unstaged_files: file_models(self.unstaged_files@),
            untracked_files: file_models(self.untracked_files@),
            recent_commits: commit_models(self.recent_commits@),
            commit_message: self.commit_message@,
            commit_cursor: self.commit_cursor as int,
            section_collapsed_merge: self.section_collapsed_merge,
            section_collapsed_staged: self.section_collapsed_staged,
            section_collapsed_changes: self.section_collapsed_changes,
            section_collapsed_untracked: self.section_collapsed_untracked,
            section_collapsed_commits: self.section_collapsed_commits,
            scroll_changes: self.scroll_changes as int,
            scroll_graph: self.scroll_graph as int,
            selected_item: self.selected_item,
            selected_index: self.selected_index as int,
            focus: self.focus,
            is_refreshing: self.is_refreshing,
            needs_force_refresh: self.needs_force_refresh,
            last_refresh: self.last_refresh,
            action_in_flight: self.action_in_flight,
            pending_discard: crate::text::optional_text(self.pending_discard),
            error_message: crate::text::optional_text(self.error_message),
            status_message: crate::text::optional_text(self.status_message),
        }
    }
}

impl SidebarModel {
    /// The panel before anything is known or done.
    pub open spec fn initial() -> SidebarModel {
        SidebarModel {
            cwd: None,
            repo_root: None,
            repo_name: Seq::empty(),
            branch: Seq::empty(),
            merge_files: Seq::empty(),
            staged_files: Seq::empty(),
            unstaged_files: Seq::empty(),
            untracked_files: Seq::empty(),
            recent_commits: Seq::empty(),
            commit_message: Seq::empty(),
            commit_cursor: 0,
            section_collapsed_merge: false,
            section_collapsed_staged: false,
            section_collapsed_changes: false,
            section_collapsed_untracked: false,
            section_collapsed_commits: false,
            scroll_changes: 0,
            scroll_graph: 0,
            selected_item: None,
            selected_index: 0,
            focus: GitSidebarFocus::List,
            is_refreshing: false,
            needs_force_refresh: false,
            last_refresh: None,
            action_in_flight: false,
            pending_discard: None,
            error_message: None,
            status_message: None,
        }
    }

    /// Whether the caret stands between characters and the selection on a row.
    pub open spec fn well_formed(self) -> bool {
        &&& self.caret_ok()
        &&& 0 <= self.selected_index < self.rows().len()
    }

    /// The files of a group; the commits have none.
    pub open spec fn files(self, section: GitSection) -> Seq<FileModel> {
        match section {
            GitSection::Merge => self.merge_files,
            GitSection::Staged => self.staged_files,
            GitSection::Changes => self.unstaged_files,
            GitSection::Untracked => self.untracked_files,
            GitSection::Commits => Seq::empty(),
        }
    }

    /// How many files or commits a group has.
    pub open spec fn section_len(self, section: GitSection) -> nat {
        if section == GitSection::Commits {
            self.recent_commits.len()
        } else {
            self.files(section).len()
        }
    }

    /// Whether a group shows its header alone.
    pub open spec fn is_collapsed(self, section: GitSection) -> bool {
        match section {
            GitSection::Merge => self.section_collapsed_merge,
            GitSection::Staged => self.section_collapsed_staged,
            GitSection::Changes => self.section_collapsed_changes,
            GitSection::Untracked => self.section_collapsed_untracked,
            GitSection::Commits => self.section_collapsed_commits,
        }
    }

    /// The panel with a group collapsed or expanded.
    pub open spec fn set_collapsed(self, section: GitSection, collapsed: bool) -> SidebarModel {
        match section {
            GitSection::Merge => SidebarModel { section_collapsed_merge: collapsed, ..self },
            GitSection::Staged => SidebarModel { section_collapsed_staged: collapsed, ..self },
            GitSection::Changes => SidebarModel { section_collapsed_changes: collapsed, ..self },
            GitSection::Untracked => SidebarModel { section_collapsed_untracked: collapsed, ..self },
            GitSection::Commits => SidebarModel { section_collapsed_commits: collapsed, ..self },
        }
    }

    /// The row of the entry at `index` of a group.
    pub open spec fn item_row(section: GitSection, index: int) -> GitSidebarRow {
        if section == GitSection::Commits {
            GitSidebarRow::Commit { index: index as usize }
        } else {
            GitSidebarRow::File { section, index: index as usize }
        }
    }

    /// The rows of the entries that a group shows.
    pub open spec fn item_rows(self, section: GitSection) -> Seq<GitSidebarRow> {
        if self.is_collapsed(section) {
            Seq::empty()
        } else {
            Seq::new(self.section_len(section), |i: int| Self::item_row(section, i))
        }
    }

    /// The rows of a group: nothing where it is empty, else its header and
    /// then, unless it is collapsed, its entries.
    pub open spec fn section_rows(self, section: GitSection) -> Seq<GitSidebarRow> {
        if self.section_len(section) == 0 {
            Seq::empty()
        } else {
            seq![GitSidebarRow::SectionHeader(section)] + self.item_rows(section)
        }
    }

    /// The rows of the groups of files.
    pub open spec fn change_rows(self) -> Seq<GitSidebarRow> {
        self.section_rows(GitSection::Merge) + self.section_rows(GitSection::Staged)
            + self.section_rows(GitSection::Changes) + self.section_rows(GitSection::Untracked)
    }

    /// All rows: the groups of files, or the placeholder where there is none,
    /// and then the commits.
    pub open spec fn rows(self) -> Seq<GitSidebarRow> {
        (if self.change_rows().len() == 0 {
            seq![GitSidebarRow::Placeholder]
        } else {
            self.change_rows()
        }) + self.section_rows(GitSection::Commits)
    }

    /// The row under the cursor.
    pub open spec fn selected_row(self) -> Option<GitSidebarRow> {
        if 0 <= self.selected_index < self.rows().len() {
            Some(self.rows()[self.selected_index])
        } else {
            None
        }
    }

    /// The file at a position of a group.
    pub open spec fn file_at(self, section: GitSection, index: int) -> Option<FileModel> {
        if 0 <= index < self.files(section).len() {
            Some(self.files(section)[index])
        } else {
            None
        }
    }

    /// The file under the cursor, with its group.
    pub open spec fn selected_file(self) -> Option<(GitSection, FileModel)> {
        match self.selected_row() {
            Some(GitSidebarRow::File { section, index }) => match self.file_at(
                section,
                index as int,
            ) {
                Some(file) => Some((section, file)),
                None => None,
            },
            _ => None,
        }
    }

    /// The panel with the cursor on row `index`, or on the last row where
    /// there are fewer.
    pub open spec fn select(self, index: int) -> SidebarModel {
        let last = self.rows().len() - 1;
        SidebarModel {
            selected_index: if index < 0 {
                0
            } else if index > last {
                last
            } else {
                index
            },
            ..self
        }
    }

    /// Whether the caret stands between two characters.
    pub open spec fn caret_ok(self) -> bool {
        crate::text::caret_ok(self.commit_message, self.commit_cursor)
    }

    /// The message before the caret.
    pub open spec fn before_caret(self) -> Seq<char> {
        crate::text::before_caret(self.commit_message, self.commit_cursor)
    }

    /// The message after the caret.
    pub open spec fn after_caret(self) -> Seq<char> {
        crate::text::after_caret(self.commit_message, self.commit_cursor)
    }

    /// The panel with this message, and the caret between its two parts.
    pub open spec fn with_message(self, before: Seq<char>, after: Seq<char>) -> SidebarModel {
        SidebarModel {
            commit_message: before + after,
            commit_cursor: crate::text::byte_len(before),
            ..self
        }
    }

    /// The panel with `text` typed at the caret.
    pub open spec fn insert_text(self, text: Seq<char>) -> SidebarModel {
        self.with_message(self.before_caret() + text, self.after_caret())
    }

    /// The panel with the character before the caret taken out.
    pub open spec fn backspace(self) -> SidebarModel {
        if self.before_caret().len() == 0 {
            self
        } else {
            self.with_message(self.before_caret().drop_last(), self.after_caret())
        }
    }

    /// The panel with the character after the caret taken out.
    pub open spec fn delete_char(self) -> SidebarModel {
        if self.after_caret().len() == 0 {
            self
        } else {
            self.with_message(self.before_caret(), self.after_caret().drop_first())
        }
    }

    /// The panel with the caret moved by `delta` characters, as far as the
    /// message goes.
    pub open spec fn move_caret(self, delta: int) -> SidebarModel {
        let target = self.before_caret().len() + delta;
        let place = if target < 0 {
            0
        } else if target > self.commit_message.len() {
            self.commit_message.len() as int
        } else {
            target
        };
        self.with_message(self.commit_message.take(place), self.commit_message.skip(place))
    }

    /// The panel with the caret at the start of the message.
    pub open spec fn caret_home(self) -> SidebarModel {
        SidebarModel { commit_cursor: 0, ..self }
    }

    /// The panel with the caret at the end of the message.
    pub open spec fn caret_end(self) -> SidebarModel {
        SidebarModel { commit_cursor: crate::text::byte_len(self.commit_message), ..self }
    }

    /// The panel without a message.
    pub open spec fn clear_message(self) -> SidebarModel {
        SidebarModel { commit_message: Seq::empty(), commit_cursor: 0, ..self }
    }

    /// The panel with the commit box focused and the caret at the end.
    pub open spec fn focus_message(self) -> SidebarModel {
        SidebarModel {
            focus: GitSidebarFocus::Message,
            commit_cursor: crate::text::byte_len(self.commit_message),
            ..self
        }
    }

    /// The panel with the list focused.
    pub open spec fn focus_list(self) -> SidebarModel {
        SidebarModel { focus: GitSidebarFocus::List, ..self }
    }

    /// The panel without anything that describes a repository.  What the user
    /// set up or is writing, and what is still running, stays.
    pub open spec fn reset_for_new_repo(self) -> SidebarModel {
        SidebarModel {
            commit_message: self.commit_message,
            commit_cursor: self.commit_cursor,
            section_collapsed_merge: self.section_collapsed_merge,
            section_collapsed_staged: self.section_collapsed_staged,
            section_collapsed_changes: self.section_collapsed_changes,
            section_collapsed_untracked: self.section_collapsed_untracked,
            section_collapsed_commits: self.section_collapsed_commits,
            focus: self.focus,
            is_refreshing: self.is_refreshing,
            needs_force_refresh: self.needs_force_refresh,
            last_refresh: self.last_refresh,
            action_in_flight: self.action_in_flight,
            ..SidebarModel::initial()
        }
    }

    /// The panel emptied for another repository, which is to be probed at
    /// once.
    pub open spec fn moved_away(self) -> SidebarModel {
        SidebarModel { needs_force_refresh: true, ..self.reset_for_new_repo() }
    }

    /// Whether the last probe was started long enough before `now`, or never.
    pub open spec fn refresh_due(self, now: u64) -> bool {
        match self.last_refresh {
            Some(last) => now - last >= GIT_SIDEBAR_REFRESH_INTERVAL,
            None => true,
        }
    }

    /// The panel with the time for a probe taken up.
    pub open spec fn claim_refresh(self, now: u64) -> SidebarModel {
        SidebarModel { needs_force_refresh: false, last_refresh: Some(now), ..self }
    }

    /// The panel with a probe of `cwd` out.
    pub open spec fn begin_refresh(self, cwd: Seq<char>) -> SidebarModel {
        SidebarModel { is_refreshing: true, cwd: Some(cwd), ..self }
    }

    /// The panel with no probe out.
    pub open spec fn end_refresh(self) -> SidebarModel {
        SidebarModel { is_refreshing: false, ..self }
    }

    /// The panel that the user wants probed, with its messages dropped.
    pub open spec fn request_refresh(self) -> SidebarModel {
        SidebarModel {
            needs_force_refresh: true,
            status_message: None,
            error_message: None,
            ..self
        }
    }

    /// The panel with a command running.
    pub open spec fn begin_action(self) -> SidebarModel {
        SidebarModel { action_in_flight: true, status_message: None, pending_discard: None, ..self }
    }

    /// The panel after a command came back.
    pub open spec fn end_action(
        self,
        error: Option<Seq<char>>,
        message: Option<Seq<char>>,
    ) -> SidebarModel {
        SidebarModel {
            action_in_flight: false,
            needs_force_refresh: true,
            error_message: error,
            status_message: if error is Some {
                None
            } else {
                message
            },
            ..self
        }
    }

    /// The panel with this error shown.
    pub open spec fn with_error(self, error: Seq<char>) -> SidebarModel {
        SidebarModel { error_message: Some(error), ..self }
    }

    /// The panel with the discard armed for a path, and this status shown.
    pub open spec fn arm_discard(self, path: Seq<char>, status: Seq<char>) -> SidebarModel {
        SidebarModel { pending_discard: Some(path), status_message: Some(status), ..self }
    }

    /// The panel with no discard armed.
    pub open spec fn disarm_discard(self) -> SidebarModel {
        SidebarModel { pending_discard: None, ..self }
    }

    /// The panel with the commit box and the error emptied.
    pub open spec fn message_taken(self) -> SidebarModel {
        SidebarModel { error_message: None, ..self.clear_message() }
    }

    /// The panel with the contents that a probe found, and the cursor kept on
    /// a row.  What was said of earlier commands stays.
    pub open spec fn apply_snapshot(self, snapshot: SnapshotModel) -> SidebarModel {
        let filled = SidebarModel {
            repo_root: snapshot.repo_root,
            repo_name: snapshot.repo_name,
            branch: snapshot.branch,
            merge_files: snapshot.merge_files,
            staged_files: snapshot.staged_files,
            unstaged_files: snapshot.unstaged_files,
            untracked_files: snapshot.untracked_files,
            recent_commits: snapshot.recent_commits,
            ..self
        };
        filled.select(self.selected_index)
    }
}

impl Default for GitSidebarState {
    fn default() -> (r: GitSidebarState)
        ensures
            r@ == SidebarModel::initial(),
            r@.well_formed(),
    {
        let r = GitSidebarState {
            cwd: None,
            repo_root: None,
            repo_name: String::new(),
            branch: String::new(),
            merge_files: Vec::new(),
            staged_files: Vec::new(),
            unstaged_files: Vec::new(),
            untracked_files: Vec::new(),
            recent_commits: Vec::new(),
            commit_message: String::new(),
            commit_cursor: 0,
            section_collapsed_merge: false,
            section_collapsed_staged: false,
            section_collapsed_changes: false,
            section_collapsed_untracked: false,
            section_collapsed_commits: false,
            scroll_changes: 0,
            scroll_graph: 0,
            selected_item: None,
            selected_index: 0,
            focus: GitSidebarFocus::List,
            is_refreshing: false,
            needs_force_refresh: false,
            last_refresh: None,
            action_in_flight: false,
            pending_discard: None,
            error_message: None,
            status_message: None,
        };
        assert(file_models(r.merge_files@) =~= Seq::empty());
        assert(commit_models(r.recent_commits@) =~= Seq::empty());
        proof {
            crate::text::lemma_caret_between(Seq::empty(), Seq::empty());
        }
        r
    }
}

impl GitSidebarState {
    /// How many files or commits a group has.
    pub fn section_len(&self, section: GitSection) -> (r: usize)
        ensures
            r == self@.section_len(section),
    {
        match section {
            GitSection::Merge => self.merge_files.len(),
            GitSection::Staged => self.staged_files.len(),
            GitSection::Changes => self.unstaged_files.len(),
            GitSection::Untracked => self.untracked_files.len(),
            GitSection::Commits => self.recent_commits.len(),
        }
    }

    /// Whether a group shows its header alone.
    pub fn is_collapsed(&self, section: GitSection) -> (r: bool)
        ensures
            r == self@.is_collapsed(section),
    {
        match section {
            GitSection::Merge => self.section_collapsed_merge,
            GitSection::Staged => self.section_collapsed_staged,
            GitSection::Changes => self.section_collapsed_changes,
            GitSection::Untracked => self.section_collapsed_untracked,
            GitSection::Commits => self.section_collapsed_commits,
        }
    }

    /// Collapses or expands a group.
    pub fn set_collapsed(&mut self, section: GitSection, collapsed: bool)
        ensures
            final(self)@ == old(self)@.set_collapsed(section, collapsed),
    {
        match section {
            GitSection::Merge => {
                self.section_collapsed_merge = collapsed;
            },
            GitSection::Staged => {
                self.section_collapsed_staged = collapsed;
            },
            GitSection::Changes => {
                self.section_collapsed_changes = collapsed;
            },
            GitSection::Untracked => {
                self.section_collapsed_untracked = collapsed;
            },
            GitSection::Commits => {
                self.section_collapsed_commits = collapsed;
            },
        }
    }

    /// Collapses an expanded group, or expands a collapsed one.
    pub fn toggle_collapsed(&mut self, section: GitSection)
        ensures
            final(self)@ == old(self)@.set_collapsed(section, !old(self)@.is_collapsed(section)),
    {
        let collapsed = self.is_collapsed(section);
        self.set_collapsed(section, !collapsed);
    }

    /// Adds the rows of a group.
    fn push_section_rows(&self, section: GitSection, rows: &mut Vec<GitSidebarRow>)
        ensures
            final(rows)@ == old(rows)@ + self@.section_rows(section),
    {
        let len: usize = self.section_len(section);
        if len == 0 {
            return;
        }
        rows.push(GitSidebarRow::SectionHeader(section));
        let ghost start = rows@;
        if !self.is_collapsed(section) {
            let mut index: usize = 0;
            while index < len
                invariant
                    index <= len,
                    rows@ == start + Seq::new(
                        index as nat,
                        |i: int| SidebarModel::item_row(section, i),
                    ),
                decreases len - index,
            {
                if section == GitSection::Commits {
                    rows.push(GitSidebarRow::Commit { index });
                } else {
                    rows.push(GitSidebarRow::File { section, index });
                }
                index = index + 1;
                assert(rows@ =~= start + Seq::new(
                    index as nat,
                    |i: int| SidebarModel::item_row(section, i),
                ));
            }
        }
    }

    /// The rows of the list, from the top.
    pub fn rows(&self) -> (r: Vec<GitSidebarRow>)
        ensures
            r@ == self@.rows(),
            r@.len() > 0,
    {
        let mut r: Vec<GitSidebarRow> = Vec::new();
        self.push_section_rows(GitSection::Merge, &mut r);
        self.push_section_rows(GitSection::Staged, &mut r);
        self.push_section_rows(GitSection::Changes, &mut r);
        self.push_section_rows(GitSection::Untracked, &mut r);
        if r.len() == 0 {
            r.push(GitSidebarRow::Placeholder);
        }
        self.push_section_rows(GitSection::Commits, &mut r);
        r
    }

    /// The row under the cursor.
    pub fn selected_row(&self) -> (r: Option<GitSidebarRow>)
        ensures
            r == self@.selected_row(),
    {
        let rows = self.rows();
        if self.selected_index < rows.len() {
            Some(rows[self.selected_index])
        } else {
            None
        }
    }

    /// The files of a group; the commits have none.
    pub fn files(&self, section: GitSection) -> (r: &[GitFileStatus])
        ensures
            file_models(r@) == self@.files(section),
    {
        match section {
            GitSection::Merge => self.merge_files.as_slice(),
            GitSection::Staged => self.staged_files.as_slice(),
            GitSection::Changes => self.unstaged_files.as_slice(),
            GitSection::Untracked => self.untracked_files.as_slice(),
            GitSection::Commits => {
                let none: &[GitFileStatus] = &[];
                none
            },
        }
    }

    /// The file at a position of a group.
    pub fn file_at(&self, section: GitSection, index: usize) -> (r: Option<&GitFileStatus>)
        ensures
            (match r {
                Some(file) => Some(file@),
                None => None,
            }) == self@.file_at(section, index as int),
    {
        let files = self.files(section);
        if index < files.len() {
            Some(&files[index])
        } else {
            None
        }
    }

    /// The file under the cursor, with its group.
    pub fn selected_file(&self) -> (r: Option<(GitSection, &GitFileStatus)>)
        ensures
            (match r {
                Some((section, file)) => Some((section, file@)),
                None => None,
            }) == self@.selected_file(),
    {
        match self.selected_row() {
            Some(GitSidebarRow::File { section, index }) => match self.file_at(section, index) {
                Some(file) => Some((section, file)),
                None => None,
            },
            _ => None,
        }
    }

    /// Puts the cursor on row `index`, or on the last row where there are
    /// fewer.
    pub fn select_index(&mut self, index: usize)
        ensures
            final(self)@ == old(self)@.select(index as int),
    {
        let last: usize = self.rows().len() - 1;
        self.selected_index = if index > last {
            last
        } else {
            index
        };
    }

    /// Moves the cursor down by `delta` rows, or up where `delta` is negative,
    /// as far as there are rows.
    pub fn move_selection(&mut self, delta: isize)
        ensures
            final(self)@ == old(self)@.select(old(self)@.selected_index + delta),
    {
        let last: usize = self.rows().len() - 1;
        let target: i128 = self.selected_index as i128 + delta as i128;
        self.selected_index = if target < 0 {
            0
        } else if target > last as i128 {
            last
        } else {
            target as usize
        };
    }

    /// Puts the cursor on the first row.
    pub fn select_first(&mut self)
        ensures
            final(self)@ == old(self)@.select(0),
    {
        self.select_index(0);
    }

    /// Puts the cursor on the last row.
    pub fn select_last(&mut self)
        ensures
            final(self)@ == old(self)@.select(old(self)@.rows().len() - 1),
    {
        let last: usize = self.rows().len() - 1;
        self.select_index(last);
    }

    /// Types `text` at the caret.
    pub fn insert_commit_text(&mut self, text: &str)
        requires
            old(self)@.caret_ok(),
        ensures
            final(self)@ == old(self)@.insert_text(text@),
    {
        let (before, after) = crate::text::split_at_caret(
            self.commit_message.as_str(),
            self.commit_cursor,
        );
        let mut message = before.to_owned();
        message.append(text);
        let cursor: usize = crate::text::byte_count(message.as_str());
        message.append(after);
        self.commit_message = message;
        self.commit_cursor = cursor;
    }

    /// Takes out the character before the caret.
    pub fn backspace_commit(&mut self)
        requires
            old(self)@.caret_ok(),
        ensures
            final(self)@ == old(self)@.backspace(),
    {
        let (before, after) = crate::text::split_at_caret(
            self.commit_message.as_str(),
            self.commit_cursor,
        );
        let len: usize = before.unicode_len();
        if len == 0 {
            return;
        }
        let kept = before.substring_char(0, len - 1);
        let cursor: usize = crate::text::byte_count(kept);
        let mut message = kept.to_owned();
        message.append(after);
        self.commit_message = message;
        self.commit_cursor = cursor;
    }

    /// Takes out the character after the caret.
    pub fn delete_commit_char(&mut self)
        requires
            old(self)@.caret_ok(),
        ensures
            final(self)@ == old(self)@.delete_char(),
    {
        let (before, after) = crate::text::split_at_caret(
            self.commit_message.as_str(),
            self.commit_cursor,
        );
        let len: usize = after.unicode_len();
        if len == 0 {
            return;
        }
        let kept = after.substring_char(1, len);
        let cursor: usize = crate::text::byte_count(before);
        let mut message = before.to_owned();
        message.append(kept);
        self.commit_message = message;
        self.commit_cursor = cursor;
    }

    /// Moves the caret right by `delta` characters, or left where `delta` is
    /// negative, as far as the message goes.
    pub fn move_commit_cursor(&mut self, delta: isize)
        requires
            old(self)@.caret_ok(),
        ensures
            final(self)@ == old(self)@.move_caret(delta as int),
    {
        let (before, after) = crate::text::split_at_caret(
            self.commit_message.as_str(),
            self.commit_cursor,
        );
        let len: usize = self.commit_message.as_str().unicode_len();
        let target: i128 = before.unicode_len() as i128 + delta as i128;
        let place: usize = if target < 0 {
            0
        } else if target > len as i128 {
            len
        } else {
            target as usize
        };
        let head = self.commit_message.as_str().substring_char(0, place);
        let cursor: usize = crate::text::byte_count(head);
        self.commit_cursor = cursor;
        assert(self.commit_message@ =~= self.commit_message@.take(place as int)
            + self.commit_message@.skip(place as int));
    }

    /// Puts the caret at the start of the message.
    pub fn caret_home(&mut self)
        ensures
            final(self)@ == old(self)@.caret_home(),
    {
        self.commit_cursor = 0;
    }

    /// Puts the caret at the end of the message.
    pub fn caret_end(&mut self)
        ensures
            final(self)@ == old(self)@.caret_end(),
    {
        self.commit_cursor = crate::text::byte_count(self.commit_message.as_str());
    }

    /// Empties the message.
    pub fn clear_commit_message(&mut self)
        ensures
            final(self)@ == old(self)@.clear_message(),
    {
        self.commit_message = String::new();
        self.commit_cursor = 0;
    }

    /// Focuses the commit box, placing the caret at the end of the message.
    pub fn focus_message(&mut self)
        ensures
            final(self)@ == old(self)@.focus_message(),
    {
        self.focus = GitSidebarFocus::Message;
        self.commit_cursor = crate::text::byte_count(self.commit_message.as_str());
    }

    /// Focuses the list.
    pub fn focus_list(&mut self)
        ensures
            final(self)@ == old(self)@.focus_list(),
    {
        self.focus = GitSidebarFocus::List;
    }

    /// Drops everything that describes a repository.  What the user set up or
    /// is writing, and what is still running, stays.
    pub fn reset_for_new_repo(&mut self)
        ensures
            final(self)@ == old(self)@.reset_for_new_repo(),
    {
        self.cwd = None;
        self.repo_root = None;
        self.repo_name = String::new();
        self.branch = String::new();
        self.merge_files = Vec::new();
        self.staged_files = Vec::new();
        self.unstaged_files = Vec::new();
        self.untracked_files = Vec::new();
        self.recent_commits = Vec::new();
        self.scroll_changes = 0;
        self.scroll_graph = 0;
        self.selected_item = None;
        self.selected_index = 0;
        self.pending_discard = None;
        self.error_message = None;
        self.status_message = None;
        assert(file_models(self.merge_files@) =~= Seq::empty());
        assert(commit_models(self.recent_commits@) =~= Seq::empty());
    }

    /// Drops the contents for those of another repository, which is to be
    /// probed at once.
    pub fn move_away(&mut self)
        ensures
            final(self)@ == old(self)@.moved_away(),
    {
        self.reset_for_new_repo();
        self.needs_force_refresh = true;
    }

    /// Whether the last probe was started long enough before `now`, or never.
    pub fn refresh_due(&self, now: u64) -> (r: bool)
        ensures
            r == self@.refresh_due(now),
    {
        match self.last_refresh {
            Some(last) => now.saturating_sub(last) >= GIT_SIDEBAR_REFRESH_INTERVAL,
            None => true,
        }
    }

    /// Takes up the time for a probe.
    pub fn claim_refresh(&mut self, now: u64)
        ensures
            final(self)@ == old(self)@.claim_refresh(now),
    {
        self.needs_force_refresh = false;
        self.last_refresh = Some(now);
    }

    /// Notes that a probe of `cwd` is out.
    pub fn begin_refresh(&mut self, cwd: String)
        ensures
            final(self)@ == old(self)@.begin_refresh(cwd@),
    {
        self.is_refreshing = true;
        self.cwd = Some(cwd);
    }

    /// Notes that the probe is back.
    pub fn end_refresh(&mut self)
        ensures
            final(self)@ == old(self)@.end_refresh(),
    {
        self.is_refreshing = false;
    }

    /// Asks for a probe at once, and drops the messages.
    pub fn request_refresh(&mut self)
        ensures
            final(self)@ == old(self)@.request_refresh(),
    {
        self.needs_force_refresh = true;
        self.status_message = None;
        self.error_message = None;
    }

    /// Notes that a command is running.
    pub fn begin_action(&mut self)
        ensures
            final(self)@ == old(self)@.begin_action(),
    {
        self.action_in_flight = true;
        self.status_message = None;
        self.pending_discard = None;
    }

    /// Records how a command ended, and asks for a probe.
    pub fn end_action(&mut self, error: Option<String>, message: Option<String>)
        ensures
            final(self)@ == old(self)@.end_action(
                crate::text::optional_text(error),
                crate::text::optional_text(message),
            ),
    {
        self.action_in_flight = false;
        self.needs_force_refresh = true;
        if error.is_some() {
            self.error_message = error;
            self.status_message = None;
        } else {
            self.error_message = None;
            self.status_message = message;
        }
    }

    /// Shows an error.
    pub fn set_error(&mut self, error: String)
        ensures
            final(self)@ == old(self)@.with_error(error@),
    {
        self.error_message = Some(error);
    }

    /// Arms the discard for a path, and shows a status.
    pub fn arm_discard(&mut self, path: String, status: String)
        ensures
            final(self)@ == old(self)@.arm_discard(path@, status@),
    {
        self.pending_discard = Some(path);
        self.status_message = Some(status);
    }

    /// Disarms the discard.
    pub fn disarm_discard(&mut self)
        ensures
            final(self)@ == old(self)@.disarm_discard(),
    {
        self.pending_discard = None;
    }

    /// Empties the commit box and the error.
    pub fn take_commit_message(&mut self)
        ensures
            final(self)@ == old(self)@.message_taken(),
    {
        self.clear_commit_message();
        self.error_message = None;
    }

    /// Takes over what a probe found, and keeps the cursor on a row.
    pub fn apply_snapshot(&mut self, snapshot: GitSidebarSnapshot)
        ensures
            final(self)@ == old(self)@.apply_snapshot(snapshot@),
    {
        self.repo_root = snapshot.repo_root;
        self.repo_name = snapshot.repo_name;
        self.branch = snapshot.branch;
        self.merge_files = snapshot.merge_files;
        self.staged_files = snapshot.staged_files;
        self.unstaged_files = snapshot.unstaged_files;
        self.untracked_files = snapshot.untracked_files;
        self.recent_commits = snapshot.recent_commits;
        let index: usize = self.selected_index;
        self.select_index(index);
    }
}

} // verus!
