//! Runtime side of the panel: deciding when to probe the repository, applying
//! what comes back, and starting the panel's commands.

use crate::geometry::Rect;
use crate::git_sidebar::{
    CommitModel, FileModel, GitCommitGraphEntry, GitFileStatus, GitSection, GitSidebarRow,
    GitSidebarSnapshot, GitSidebarState, SidebarModel, SnapshotModel, GIT_SIDEBAR_REFRESH_INTERVAL,
};
use vstd::prelude::*;

verus! {

/// Where the keys go.
#[derive(Debug, Clone, Copy, PartialEq, Eq, Structural)]
pub enum Mode {
    /// To the focused terminal.
    Terminal,
    /// To the choice of a workspace.
    Navigate,
    /// To this panel.
    GitSidebar,
    /// To some other part of the program.
    Other,
}

/// A workspace, as far as the panel is concerned.
#[derive(Debug, Clone, PartialEq, Eq)]
pub struct Workspace {
    /// The working directory of the workspace, which follows its focused pane.
    pub resolved_cwd: Option<String>,
}

/// The part of the program's state that the panel reads and changes.
#[derive(Debug, Clone, PartialEq, Eq)]
pub struct AppState {
    /// The active workspace.
    pub active: Option<usize>,
    pub workspaces: Vec<Workspace>,
    pub mode: Mode,
    pub git_sidebar_closed: bool,
    /// Whether Esc closes the panel.
    pub git_sidebar_escape_to_dismiss: bool,
    /// Whether the session has changes to be saved.
    pub session_dirty: bool,
    /// Where the panel was last drawn.
    pub git_sidebar_rect: Rect,
    pub git_sidebar_state: GitSidebarState,
}

/// The program, as far as the panel is concerned.
#[derive(Debug, Clone, PartialEq, Eq)]
pub struct App {
    pub state: AppState,
}

/// An `AppState`, with its texts as characters.
pub struct AppModel {
    pub active: Option<usize>,
    pub workspaces: Seq<Option<Seq<char>>>,
    pub mode: Mode,
    pub git_sidebar_closed: bool,
    pub git_sidebar_escape_to_dismiss: bool,
    pub session_dirty: bool,
    pub git_sidebar_rect: Rect,
    pub sidebar: SidebarModel,
}

/// The directories of workspaces.
pub open spec fn workspace_dirs(workspaces: Seq<Workspace>) -> Seq<Option<Seq<char>>> {
    workspaces.map_values(|w: Workspace| crate::text::optional_text(w.resolved_cwd))
}

impl View for AppState {
    type V = AppModel;

    open spec fn view(&self) -> AppModel {
        AppModel {
            active: self.active,
            workspaces: workspace_dirs(self.workspaces@),
            mode: self.mode,
            git_sidebar_closed: self.git_sidebar_closed,
            git_sidebar_escape_to_dismiss: self.git_sidebar_escape_to_dismiss,
            session_dirty: self.session_dirty,
            git_sidebar_rect: self.git_sidebar_rect,
            sidebar: self.git_sidebar_state@,
        }
    }
}

impl View for App {
    type V = AppModel;

    open spec fn view(&self) -> AppModel {
        self.state@
    }
}

/// A git command that changes the repository.
#[derive(Debug, Clone, PartialEq, Eq)]
pub enum GitSidebarAction {
    Stage(String),
    Unstage(String),
    StageAll,
    UnstageAll,
    Commit(String),
    Discard(String),
}

/// A `GitSidebarAction`, with its text as characters.
pub enum ActionModel {
    Stage(Seq<char>),
    Unstage(Seq<char>),
    StageAll,
    UnstageAll,
    Commit(Seq<char>),
    Discard(Seq<char>),
}

impl View for GitSidebarAction {
    type V = ActionModel;

    open spec fn view(&self) -> ActionModel {
        match self {
            GitSidebarAction::Stage(path) => ActionModel::Stage(path@),
            GitSidebarAction::Unstage(path) => ActionModel::Unstage(path@),
            GitSidebarAction::StageAll => ActionModel::StageAll,
            GitSidebarAction::UnstageAll => ActionModel::UnstageAll,
            GitSidebarAction::Commit(message) => ActionModel::Commit(message@),
            GitSidebarAction::Discard(path) => ActionModel::Discard(path@),
        }
    }
}

/// A read-only git command whose output is shown in a popup.
#[derive(Debug, Clone, PartialEq, Eq)]
pub enum GitSidebarPopup {
    /// The changes of a file of this group.
    Diff { section: GitSection, file: GitFileStatus },
    /// A commit.
    Show { commit: GitCommitGraphEntry },
}

/// A `GitSidebarPopup`, with its texts as characters.
pub enum PopupModel {
    Diff { section: GitSection, file: FileModel },
    Show { commit: CommitModel },
}

impl View for GitSidebarPopup {
    type V = PopupModel;

    open spec fn view(&self) -> PopupModel {
        match self {
            GitSidebarPopup::Diff { section, file } => PopupModel::Diff {
                section: *section,
                file: file@,
            },
            GitSidebarPopup::Show { commit } => PopupModel::Show { commit: commit@ },
        }
    }
}

/// Work for the program that embeds the panel.
#[derive(Debug, Clone, PartialEq, Eq)]
pub enum GitSidebarEffect {
    /// Probe the repository of a directory in the background, and hand what
    /// was found to `App::handle_git_sidebar_refresh_complete`.
    SpawnRefresh { cwd: String },
    /// Run a command in the background, and hand its outcome to
    /// `App::handle_git_sidebar_action_complete`.
    SpawnAction { repo_root: String, action: GitSidebarAction },
    /// Run a command in a popup with no additions to its environment and of
    /// the usual size, and hand over to `App::finish_git_sidebar_popup`
    /// whether that failed.
    OpenPopup { popup: GitSidebarPopup, repo_root: String },
}

/// A `GitSidebarEffect`, with its texts as characters.
pub enum EffectModel {
    SpawnRefresh { cwd: Seq<char> },
    SpawnAction { repo_root: Seq<char>, action: ActionModel },
    OpenPopup { popup: PopupModel, repo_root: Seq<char> },
}

impl View for GitSidebarEffect {
    type V = EffectModel;

    open spec fn view(&self) -> EffectModel {
        match self {
            GitSidebarEffect::SpawnRefresh { cwd } => EffectModel::SpawnRefresh { cwd: cwd@ },
            GitSidebarEffect::SpawnAction { repo_root, action } => EffectModel::SpawnAction {
                repo_root: repo_root@,
                action: action@,
            },
            GitSidebarEffect::OpenPopup { popup, repo_root } => EffectModel::OpenPopup {
                popup: popup@,
                repo_root: repo_root@,
            },
        }
    }
}

/// The view of an effect, where there is one.
pub open spec fn effect_model(effect: Option<GitSidebarEffect>) -> Option<EffectModel> {
    match effect {
        Some(effect) => Some(effect@),
        None => None,
    }
}

impl AppModel {
    /// The program with another panel.
    pub open spec fn with_sidebar(self, sidebar: SidebarModel) -> AppModel {
        AppModel { sidebar, ..self }
    }

    /// The directory of the active workspace.
    pub open spec fn cwd(self) -> Option<Seq<char>> {
        match self.active {
            Some(index) => if index < self.workspaces.len() {
                self.workspaces[index as int]
            } else {
                None
            },
            None => None,
        }
    }

    /// Where commands run: the root of the repository, or the directory of
    /// the workspace while no root is known.
    pub open spec fn repo_root(self) -> Option<Seq<char>> {
        match self.sidebar.repo_root {
            Some(root) => Some(root),
            None => self.cwd(),
        }
    }

    /// When the panel next wants a probe.
    pub open spec fn refresh_deadline(self, now: u64) -> Option<int> {
        if self.git_sidebar_closed || self.sidebar.is_refreshing {
            None
        } else if self.sidebar.needs_force_refresh {
            Some(now as int)
        } else {
            match self.sidebar.last_refresh {
                Some(last) => Some(last + GIT_SIDEBAR_REFRESH_INTERVAL),
                None => None,
            }
        }
    }

    /// Whether the workspace has a directory that is not the one that the
    /// panel describes.
    pub open spec fn has_moved(self) -> bool {
        &&& self.cwd() is Some
        &&& !crate::path::same_optional_path(self.sidebar.cwd, self.cwd())
    }

    /// A probe that starts now, if there is a directory to probe.
    pub open spec fn claim_refresh(self, cwd: Option<Seq<char>>, now: u64) -> (
        AppModel,
        Option<EffectModel>,
    ) {
        let claimed = self.sidebar.claim_refresh(now);
        match cwd {
            Some(dir) => (
                self.with_sidebar(claimed.begin_refresh(dir)),
                Some(EffectModel::SpawnRefresh { cwd: dir }),
            ),
            None => (self.with_sidebar(claimed), None),
        }
    }

    /// What a tick does in an open panel whose workspace is at `cwd`, given
    /// whether that is another directory than the panel describes.
    pub open spec fn refresh_for(self, cwd: Option<Seq<char>>, moved: bool, now: u64) -> (
        AppModel,
        Option<EffectModel>,
    ) {
        let at = if moved {
            self.with_sidebar(self.sidebar.moved_away())
        } else {
            self
        };
        if at.sidebar.is_refreshing {
            (at, None)
        } else if !at.sidebar.needs_force_refresh && !at.sidebar.refresh_due(now) {
            (at, None)
        } else {
            at.claim_refresh(cwd, now)
        }
    }

    /// What a tick does.
    pub open spec fn refresh_if_due(self, now: u64) -> (AppModel, Option<EffectModel>) {
        if self.git_sidebar_closed {
            (self, None)
        } else {
            self.refresh_for(self.cwd(), self.has_moved(), now)
        }
    }

    /// The program after a probe came back, given whether it was of the
    /// directory that the panel describes, and whether the view changed.
    pub open spec fn finish_refresh(self, snapshot: SnapshotModel, current: bool) -> (
        AppModel,
        bool,
    ) {
        let done = self.sidebar.end_refresh();
        if current {
            (self.with_sidebar(done.apply_snapshot(snapshot)), true)
        } else {
            (self.with_sidebar(done), false)
        }
    }

    /// Whether a probe is of the directory that the panel describes.
    pub open spec fn is_current(self, snapshot: SnapshotModel) -> bool {
        crate::path::same_optional_path(self.sidebar.cwd, Some(snapshot.cwd))
    }

    /// The program after a command came back.
    pub open spec fn action_complete(
        self,
        error: Option<Seq<char>>,
        message: Option<Seq<char>>,
    ) -> AppModel {
        self.with_sidebar(self.sidebar.end_action(error, message))
    }

    /// What becomes of a command that is asked for.
    pub open spec fn run_action(self, action: ActionModel) -> (AppModel, Option<EffectModel>) {
        if self.sidebar.action_in_flight {
            (self, None)
        } else {
            match self.repo_root() {
                Some(repo_root) => (
                    self.with_sidebar(self.sidebar.begin_action()),
                    Some(EffectModel::SpawnAction { repo_root, action }),
                ),
                None => (self, None),
            }
        }
    }

    /// Staging or unstaging the selected file.
    pub open spec fn toggle_stage(self) -> (AppModel, Option<EffectModel>) {
        match self.sidebar.selected_file() {
            Some((section, file)) => self.run_action(
                if section == GitSection::Staged {
                    ActionModel::Unstage(file.path)
                } else {
                    ActionModel::Stage(file.path)
                },
            ),
            None => (self, None),
        }
    }

    /// The program with this error shown.
    pub open spec fn with_error(self, error: Seq<char>) -> AppModel {
        self.with_sidebar(self.sidebar.with_error(error))
    }

    /// Why the message in the box cannot be committed: it is blank, or there
    /// is nothing to commit.
    pub open spec fn commit_refusal(self) -> Option<Seq<char>> {
        if crate::text::trimmed(self.sidebar.commit_message).len() == 0 {
            Some("commit message is empty"@)
        } else if self.sidebar.staged_files.len() == 0 && self.sidebar.merge_files.len() == 0 {
            Some("nothing staged to commit"@)
        } else {
            None
        }
    }

    /// Committing the message in the box.
    pub open spec fn commit(self) -> (AppModel, Option<EffectModel>) {
        match self.commit_refusal() {
            Some(error) => (self.with_error(error), None),
            None => self.with_sidebar(self.sidebar.message_taken()).run_action(
                ActionModel::Commit(crate::text::trimmed(self.sidebar.commit_message)),
            ),
        }
    }

    /// Discarding a file, given whether the discard is armed for it and the
    /// file's name, if its path has one.
    pub open spec fn discard_file(
        self,
        section: GitSection,
        path: Seq<char>,
        armed: bool,
        file_name: Option<Seq<char>>,
    ) -> (AppModel, Option<EffectModel>) {
        if section == GitSection::Untracked {
            (self.with_error("cannot discard an untracked file"@), None)
        } else if !armed {
            let name = match file_name {
                Some(name) => name,
                None => path,
            };
            (
                self.with_sidebar(
                    self.sidebar.arm_discard(path, "press D again to discard "@ + name),
                ),
                None,
            )
        } else {
            self.run_action(ActionModel::Discard(path))
        }
    }

    /// Whether the discard is armed for a path.
    pub open spec fn is_armed(self, path: Seq<char>) -> bool {
        crate::path::same_optional_path(self.sidebar.pending_discard, Some(path))
    }

    /// Discarding the selected file.
    pub open spec fn discard_selected(self) -> (AppModel, Option<EffectModel>) {
        match self.sidebar.selected_file() {
            Some((section, file)) => self.discard_file(
                section,
                file.path,
                self.is_armed(file.path),
                crate::path::path_text_file_name(file.path),
            ),
            None => (self, None),
        }
    }

    /// What there is to show of the selected row.
    pub open spec fn selected_popup(self) -> Option<PopupModel> {
        match self.sidebar.selected_row() {
            Some(GitSidebarRow::File { section, index }) => match self.sidebar.file_at(
                section,
                index as int,
            ) {
                Some(file) => Some(PopupModel::Diff { section, file }),
                None => None,
            },
            Some(GitSidebarRow::Commit { index }) => if index < self.sidebar.recent_commits.len() {
                Some(PopupModel::Show { commit: self.sidebar.recent_commits[index as int] })
            } else {
                None
            },
            _ => None,
        }
    }

    /// Opening a popup.
    pub open spec fn open_popup(self, popup: PopupModel) -> Option<EffectModel> {
        match self.repo_root() {
            Some(repo_root) => Some(EffectModel::OpenPopup { popup, repo_root }),
            None => None,
        }
    }

    /// Showing the selected row in a popup.
    pub open spec fn open_diff(self) -> Option<EffectModel> {
        match self.selected_popup() {
            Some(popup) => self.open_popup(popup),
            None => None,
        }
    }

    /// The program after a popup was opened or could not be.
    pub open spec fn finish_popup(self, error: Option<Seq<char>>) -> AppModel {
        match error {
            Some(error) => self.with_error(error),
            None => self,
        }
    }

    /// The program with the keys given back by the panel.
    pub open spec fn blur(self) -> AppModel {
        AppModel {
            mode: if self.mode == Mode::GitSidebar {
                if self.active is Some {
                    Mode::Terminal
                } else {
                    Mode::Navigate
                }
            } else {
                self.mode
            },
            sidebar: self.sidebar.disarm_discard(),
            ..self
        }
    }

    /// The program with the panel shown or hidden, whichever it was not.
    pub open spec fn toggle_visibility(self) -> AppModel {
        AppModel { git_sidebar_closed: !self.git_sidebar_closed, ..self }
    }
}

/// Another copy of a text that may be missing.
fn copied_text(text: &Option<String>) -> (r: Option<String>)
    ensures
        crate::text::optional_text(r) == crate::text::optional_text(*text),
{
    match text {
        Some(text) => Some(text.clone()),
        None => None,
    }
}

impl AppState {
    /// Shows the panel if it is closed, and closes it if it is open.
    pub fn toggle_git_sidebar_visibility(&mut self)
        ensures
            final(self)@ == old(self)@.toggle_visibility(),
    {
        self.git_sidebar_closed = !self.git_sidebar_closed;
    }

    /// Notes that the session has changes to be saved.
    pub fn mark_session_dirty(&mut self)
        ensures
            final(self)@ == (AppModel { session_dirty: true, ..old(self)@ }),
    {
        self.session_dirty = true;
    }
}

impl App {
    /// The working directory that the panel should describe: that of the
    /// active workspace.
    pub fn git_sidebar_cwd(&self) -> (r: Option<String>)
        ensures
            crate::text::optional_text(r) == self@.cwd(),
    {
        match self.state.active {
            Some(index) => if index < self.state.workspaces.len() {
                copied_text(&self.state.workspaces[index].resolved_cwd)
            } else {
                None
            },
            None => None,
        }
    }

    /// Where mutating commands run.  Falls back to the directory of the
    /// workspace before the first probe has found the root of the repository.
    pub fn git_sidebar_repo_root(&self) -> (r: Option<String>)
        ensures
            crate::text::optional_text(r) == self@.repo_root(),
    {
        match &self.state.git_sidebar_state.repo_root {
            Some(root) => Some(root.clone()),
            None => self.git_sidebar_cwd(),
        }
    }

    /// When the panel next wants a probe, so that the event loop wakes up for
    /// it.  `now` is the current time.
    pub fn git_sidebar_refresh_deadline(&self, now: u64) -> (r: Option<u64>)
        requires
            self@.refresh_deadline(now) is Some ==> self@.refresh_deadline(now)->0 <= u64::MAX,
        ensures
            (match r {
                Some(at) => Some(at as int),
                None => None,
            }) == self@.refresh_deadline(now),
    {
        let state = &self.state.git_sidebar_state;
        if self.state.git_sidebar_closed || state.is_refreshing {
            return None;
        }
        if state.needs_force_refresh {
            return Some(now);
        }
        match state.last_refresh {
            Some(last) => Some(last + GIT_SIDEBAR_REFRESH_INTERVAL),
            None => None,
        }
    }

    /// Poll hook, to be called once per tick.
    ///
    /// Starts at most one probe, and does nothing at all while the panel is
    /// closed.
    pub fn start_git_sidebar_refresh_if_due(&mut self, now: u64) -> (r: Option<GitSidebarEffect>)
        ensures
            (final(self)@, effect_model(r)) == old(self)@.refresh_if_due(now),
    {
        if self.state.git_sidebar_closed {
            return None;
        }
        let cwd = self.git_sidebar_cwd();
        let moved = cwd.is_some() && !crate::path::is_same_optional_path(
            &self.state.git_sidebar_state.cwd,
            &cwd,
        );
        self.start_git_sidebar_refresh_for(cwd, moved, now)
    }

    /// A tick in an open panel whose workspace is at `cwd`, given whether that
    /// is another directory than the panel describes.
    pub fn start_git_sidebar_refresh_for(
        &mut self,
        cwd: Option<String>,
        moved: bool,
        now: u64,
    ) -> (r: Option<GitSidebarEffect>)
        ensures
            (final(self)@, effect_model(r)) == old(self)@.refresh_for(
                crate::text::optional_text(cwd),
                moved,
                now,
            ),
    {
        // A workspace switch moves the panel to a different repository.  Drop
        // the old contents at once rather than showing another repository's
        // changes until the probe lands.
        if moved {
            self.state.git_sidebar_state.move_away();
        }
        let refreshing = self.state.git_sidebar_state.is_refreshing;
        let force = self.state.git_sidebar_state.needs_force_refresh;
        if refreshing {
            return None;
        }
        if !force && !self.state.git_sidebar_state.refresh_due(now) {
            return None;
        }
        // Claim the slot before looking at the directory: a workspace without
        // one must not leave an always-due deadline behind, or the event loop
        // would spin on it.
        self.state.git_sidebar_state.claim_refresh(now);
        match cwd {
            Some(cwd) => {
                // Recorded before the probe returns so that a late result for
                // a directory left since can be discarded.
                self.state.git_sidebar_state.begin_refresh(cwd.clone());
                Some(GitSidebarEffect::SpawnRefresh { cwd })
            },
            None => None,
        }
    }

    /// Adopts a finished probe.  Returns whether the view changed.
    pub fn handle_git_sidebar_refresh_complete(&mut self, snapshot: GitSidebarSnapshot) -> (r: bool)
        ensures
            (final(self)@, r) == old(self)@.finish_refresh(
                snapshot@,
                old(self)@.is_current(snapshot@),
            ),
    {
        let current = match &self.state.git_sidebar_state.cwd {
            Some(cwd) => crate::path::is_same_path(cwd.as_str(), snapshot.cwd.as_str()),
            None => false,
        };
        self.finish_git_sidebar_refresh(snapshot, current)
    }

    /// Ends a probe, and adopts what it found if it is of the directory that
    /// the panel describes.
    pub fn finish_git_sidebar_refresh(&mut self, snapshot: GitSidebarSnapshot, current: bool) -> (r:
        bool)
        ensures
            (final(self)@, r) == old(self)@.finish_refresh(snapshot@, current),
    {
        self.state.git_sidebar_state.end_refresh();
        if !current {
            // The panel moved to another repository while this probe ran.
            return false;
        }
        self.state.git_sidebar_state.apply_snapshot(snapshot);
        true
    }

    /// Records the outcome of a mutating command and asks for a probe.
    pub fn handle_git_sidebar_action_complete(
        &mut self,
        error: Option<String>,
        message: Option<String>,
    ) -> (r: bool)
        ensures
            r,
            final(self)@ == old(self)@.action_complete(
                crate::text::optional_text(error),
                crate::text::optional_text(message),
            ),
    {
        self.state.git_sidebar_state.end_action(error, message);
        true
    }

    /// Asks for one mutating git command.  Ignored while another is running,
    /// so that a held-down key cannot stack commands on the same index lock.
    pub fn run_git_sidebar_action(&mut self, action: GitSidebarAction) -> (r: Option<
        GitSidebarEffect,
    >)
        ensures
            (final(self)@, effect_model(r)) == old(self)@.run_action(action@),
    {
        let busy = self.state.git_sidebar_state.action_in_flight;
        if busy {
            return None;
        }
        match self.git_sidebar_repo_root() {
            Some(repo_root) => {
                self.state.git_sidebar_state.begin_action();
                Some(GitSidebarEffect::SpawnAction { repo_root, action })
            },
            None => None,
        }
    }

    /// Stages or unstages the file under the cursor, depending on its group.
    pub fn toggle_git_sidebar_stage(&mut self) -> (r: Option<GitSidebarEffect>)
        ensures
            (final(self)@, effect_model(r)) == old(self)@.toggle_stage(),
    {
        let action = match self.state.git_sidebar_state.selected_file() {
            Some((section, file)) => if section.is_staged() {
                GitSidebarAction::Unstage(file.path.clone())
            } else {
                GitSidebarAction::Stage(file.path.clone())
            },
            None => {
                return None;
            },
        };
        self.run_git_sidebar_action(action)
    }

    /// Why `message`, the trimmed text of the commit box, cannot be committed.
    fn git_sidebar_commit_refusal(&self, message: &str) -> (r: Option<String>)
        requires
            message@ == crate::text::trimmed(self@.sidebar.commit_message),
        ensures
            crate::text::optional_text(r) == self@.commit_refusal(),
    {
        if message.is_empty() {
            return Some("commit message is empty".to_owned());
        }
        let state = &self.state.git_sidebar_state;
        if state.staged_files.is_empty() && state.merge_files.is_empty() {
            return Some("nothing staged to commit".to_owned());
        }
        None
    }

    /// Commits the message in the box.  Refuses an empty message or an empty
    /// index.
    pub fn commit_from_git_sidebar(&mut self) -> (r: Option<GitSidebarEffect>)
        ensures
            (final(self)@, effect_model(r)) == old(self)@.commit(),
    {
        let message = crate::text::trim_text(self.state.git_sidebar_state.commit_message.as_str());
        match self.git_sidebar_commit_refusal(message.as_str()) {
            Some(error) => {
                self.state.git_sidebar_state.set_error(error);
                None
            },
            None => {
                self.state.git_sidebar_state.take_commit_message();
                self.run_git_sidebar_action(GitSidebarAction::Commit(message))
            },
        }
    }

    /// Discards the worktree changes of the selected file.  Takes two presses:
    /// the first arms the discard, the second runs it.
    pub fn discard_selected_git_sidebar_file(&mut self) -> (r: Option<GitSidebarEffect>)
        ensures
            (final(self)@, effect_model(r)) == old(self)@.discard_selected(),
    {
        let (section, path) = match self.state.git_sidebar_state.selected_file() {
            Some((section, file)) => (section, file.path.clone()),
            None => {
                return None;
            },
        };
        let armed = match &self.state.git_sidebar_state.pending_discard {
            Some(pending) => crate::path::is_same_path(pending.as_str(), path.as_str()),
            None => false,
        };
        let file_name = crate::path::path_file_name(path.as_str());
        self.discard_git_sidebar_file(section, path, armed, file_name)
    }

    /// Discards a file, given whether the discard is armed for it and the
    /// file's name, if its path has one.
    pub fn discard_git_sidebar_file(
        &mut self,
        section: GitSection,
        path: String,
        armed: bool,
        file_name: Option<String>,
    ) -> (r: Option<GitSidebarEffect>)
        ensures
            (final(self)@, effect_model(r)) == old(self)@.discard_file(
                section,
                path@,
                armed,
                crate::text::optional_text(file_name),
            ),
    {
        if section == GitSection::Untracked {
            // Deleting an untracked file is not a git operation; leave it
            // alone rather than removing something git cannot restore.
            self.state.git_sidebar_state.set_error("cannot discard an untracked file".to_owned());
            return None;
        }
        if !armed {
            let mut status = "press D again to discard ".to_owned();
            match file_name {
                Some(name) => {
                    status.append(name.as_str());
                },
                None => {
                    status.append(path.as_str());
                },
            }
            self.state.git_sidebar_state.arm_discard(path, status);
            return None;
        }
        self.run_git_sidebar_action(GitSidebarAction::Discard(path))
    }

    /// Shows the diff of the row under the cursor in a popup.
    pub fn open_git_sidebar_diff(&self) -> (r: Option<GitSidebarEffect>)
        ensures
            effect_model(r) == self@.open_diff(),
    {
        let state = &self.state.git_sidebar_state;
        match state.selected_row() {
            Some(GitSidebarRow::File { section, index }) => match state.file_at(section, index) {
                Some(file) => self.open_git_sidebar_popup(
                    GitSidebarPopup::Diff { section, file: file.copied() },
                ),
                None => None,
            },
            Some(GitSidebarRow::Commit { index }) => if index < state.recent_commits.len() {
                self.open_git_sidebar_popup(
                    GitSidebarPopup::Show { commit: state.recent_commits[index].copied() },
                )
            } else {
                None
            },
            _ => None,
        }
    }

    /// Runs one read-only git command in a popup at the root of the
    /// repository.
    pub fn open_git_sidebar_popup(&self, popup: GitSidebarPopup) -> (r: Option<GitSidebarEffect>)
        ensures
            effect_model(r) == self@.open_popup(popup@),
    {
        match self.git_sidebar_repo_root() {
            Some(repo_root) => Some(GitSidebarEffect::OpenPopup { popup, repo_root }),
            None => None,
        }
    }

    /// Records why a popup could not be opened.
    pub fn finish_git_sidebar_popup(&mut self, error: Option<String>)
        ensures
            final(self)@ == old(self)@.finish_popup(crate::text::optional_text(error)),
    {
        match error {
            Some(error) => {
                self.state.git_sidebar_state.set_error(error);
            },
            None => {},
        }
    }

    /// Hands the keyboard back to the terminal, leaving the panel visible.
    pub fn blur_git_sidebar(&mut self)
        ensures
            final(self)@ == old(self)@.blur(),
    {
        if self.state.mode == Mode::GitSidebar {
            self.state.mode = if self.state.active.is_some() {
                Mode::Terminal
            } else {
                Mode::Navigate
            };
        }
        self.state.git_sidebar_state.disarm_discard();
    }

    /// Toggles the visibility of the panel.
    pub fn toggle_git_sidebar(&mut self, now: u64) -> (r: Option<GitSidebarEffect>)
        ensures
            (final(self)@, effect_model(r)) == old(self)@.toggle_visibility().refresh_if_due(now),
    {
        self.state.toggle_git_sidebar_visibility();
        self.start_git_sidebar_refresh_if_due(now)
    }
}

} // verus!
