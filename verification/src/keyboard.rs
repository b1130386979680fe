//! What the keys do while the panel has focus.
//!
//! There are two sub-modes, switched with Tab: the commit box takes text, the
//! list takes commands.

use crate::git_sidebar::{GitSidebarFocus, GitSidebarRow, GitSidebarState, SidebarModel};
use crate::keys::{KeyCode, KeyEvent};
use crate::runtime::{
    ActionModel, App, AppModel, EffectModel, GitSidebarAction, GitSidebarEffect,
};
use vstd::prelude::*;

verus! {

impl SidebarModel {
    /// The panel with the group of the cursor collapsed or expanded.  The
    /// cursor moves to the header of a group that it collapses.
    pub open spec fn collapse_selected(self, collapsed: bool) -> SidebarModel {
        match self.selected_row() {
            Some(row) => match row.spec_section() {
                Some(section) => {
                    let folded = self.set_collapsed(section, collapsed);
                    if collapsed && !self.is_collapsed(section) {
                        match folded.rows().index_of_first(GitSidebarRow::SectionHeader(section)) {
                            Some(index) => folded.select(index),
                            None => folded,
                        }
                    } else {
                        folded
                    }
                },
                None => self,
            },
            None => self,
        }
    }

    /// The panel after a key that edits the commit message or moves in it.
    pub open spec fn edit(self, key: KeyEvent) -> SidebarModel {
        match key.code {
            KeyCode::Char(c) => if !key.spec_ctrl() && !key.spec_alt() {
                self.insert_text(seq![c])
            } else {
                self
            },
            KeyCode::Backspace => self.backspace(),
            KeyCode::Delete => self.delete_char(),
            KeyCode::Left => self.move_caret(-1),
            KeyCode::Right => self.move_caret(1),
            KeyCode::Home => self.caret_home(),
            KeyCode::End => self.caret_end(),
            KeyCode::Down => self.focus_list(),
            _ => self,
        }
    }

    /// The panel after a key that moves the cursor or folds a group, where a
    /// page has `page` rows.
    pub open spec fn browse(self, key: KeyEvent, page: int) -> Option<SidebarModel> {
        let at = self.selected_index;
        match key.code {
            KeyCode::Up | KeyCode::Char('k') => Some(self.select(at - 1)),
            KeyCode::Down | KeyCode::Char('j') => Some(self.select(at + 1)),
            KeyCode::PageUp => Some(self.select(at - page)),
            KeyCode::PageDown => Some(self.select(at + page)),
            KeyCode::Home | KeyCode::Char('g') => Some(self.select(0)),
            KeyCode::End | KeyCode::Char('G') => Some(self.select(self.rows().len() - 1)),
            KeyCode::Left | KeyCode::Char('h') => Some(self.collapse_selected(true)),
            KeyCode::Right | KeyCode::Char('l') => Some(self.collapse_selected(false)),
            _ => None,
        }
    }

    /// Whether a key in the commit box goes by where the caret stands.
    pub open spec fn reads_caret(key: KeyEvent) -> bool {
        match key.code {
            KeyCode::Char(_) => !key.spec_ctrl() && !key.spec_alt(),
            KeyCode::Backspace | KeyCode::Delete | KeyCode::Left | KeyCode::Right => true,
            _ => false,
        }
    }

    /// The panel with the other sub-mode.
    pub open spec fn switch_focus(self) -> SidebarModel {
        if self.focus == GitSidebarFocus::Message {
            self.focus_list()
        } else {
            self.focus_message()
        }
    }
}

impl AppModel {
    /// How many rows a page has: those of the list, but one at the least.
    pub open spec fn page(self) -> int {
        let height = crate::geometry::changes_list(self.git_sidebar_rect).height;
        if height == 0 {
            1
        } else {
            height as int
        }
    }

    /// Folding the selected group, or staging or unstaging the selected file.
    pub open spec fn toggle_selected(self) -> (AppModel, Option<EffectModel>) {
        match self.sidebar.selected_row() {
            Some(GitSidebarRow::SectionHeader(section)) => (
                self.with_sidebar(
                    self.sidebar.set_collapsed(section, !self.sidebar.is_collapsed(section)),
                ),
                None,
            ),
            _ => self.toggle_stage(),
        }
    }

    /// What a key does in the list that starts something.
    pub open spec fn act(self, key: KeyEvent, now: u64) -> (AppModel, Option<EffectModel>) {
        let ctrl = key.spec_ctrl();
        match key.code {
            KeyCode::Char(' ') | KeyCode::Char('s') => self.toggle_selected(),
            KeyCode::Enter => (self, self.open_diff()),
            KeyCode::Char('a') => if !ctrl {
                self.run_action(ActionModel::StageAll)
            } else {
                (self, None)
            },
            KeyCode::Char('u') => if !ctrl {
                self.run_action(ActionModel::UnstageAll)
            } else {
                (self, None)
            },
            KeyCode::Char('c') => if !ctrl {
                (self.with_sidebar(self.sidebar.focus_message()), None)
            } else {
                (self, None)
            },
            KeyCode::Char('D') => self.discard_selected(),
            KeyCode::Char('r') => if !ctrl {
                self.with_sidebar(self.sidebar.request_refresh()).refresh_if_due(now)
            } else {
                (self, None)
            },
            _ => (self, None),
        }
    }

    /// What a key does in the list, but for disarming the discard.
    pub open spec fn list_command(self, key: KeyEvent, now: u64) -> (AppModel, Option<EffectModel>) {
        match self.sidebar.browse(key, self.page()) {
            Some(sidebar) => (self.with_sidebar(sidebar), None),
            None => self.act(key, now),
        }
    }

    /// What a key does in the list.
    pub open spec fn list_key(self, key: KeyEvent, now: u64) -> (AppModel, Option<EffectModel>) {
        let (after, effect) = self.list_command(key, now);
        if key.code == KeyCode::Char('D') {
            (after, effect)
        } else {
            (after.with_sidebar(after.sidebar.disarm_discard()), effect)
        }
    }

    /// What a key does in the commit box.
    pub open spec fn message_key(self, key: KeyEvent) -> (AppModel, Option<EffectModel>) {
        if key.code == KeyCode::Enter {
            self.commit()
        } else {
            (self.with_sidebar(self.sidebar.edit(key)), None)
        }
    }

    /// The program after Esc.
    pub open spec fn escape(self) -> AppModel {
        if self.git_sidebar_escape_to_dismiss {
            AppModel { git_sidebar_closed: true, session_dirty: true, ..self.blur() }
        } else {
            self.blur()
        }
    }

    /// Whether what a key does depends on the sub-mode that has focus.
    pub open spec fn is_sub_mode_key(key: KeyEvent) -> bool {
        &&& key.code != KeyCode::Esc
        &&& key.code != KeyCode::Tab
        &&& key.code != KeyCode::BackTab
        &&& !(key.code == KeyCode::Enter && key.spec_ctrl())
    }

    /// What a key does.
    pub open spec fn key(self, key: KeyEvent, now: u64) -> (AppModel, Option<EffectModel>) {
        if key.code == KeyCode::Esc {
            (self.escape(), None)
        } else if key.code == KeyCode::Tab || key.code == KeyCode::BackTab {
            (self.with_sidebar(self.sidebar.switch_focus()), None)
        } else if key.code == KeyCode::Enter && key.spec_ctrl() {
            self.commit()
        } else if self.sidebar.focus == GitSidebarFocus::Message {
            self.message_key(key)
        } else {
            self.list_key(key, now)
        }
    }
}

impl GitSidebarState {
    /// The first row that is the header of a group.
    fn header_index(rows: &Vec<GitSidebarRow>, header: GitSidebarRow) -> (r: Option<usize>)
        ensures
            (match r {
                Some(index) => Some(index as int),
                None => None,
            }) == rows@.index_of_first(header),
    {
        let mut index: usize = 0;
        while index < rows.len()
            invariant
                index <= rows@.len(),
                forall|i: int| 0 <= i < index ==> rows@[i] != header,
            decreases rows@.len() - index,
        {
            if rows[index] == header {
                proof {
                    rows@.index_of_first_ensures(header);
                }
                return Some(index);
            }
            index = index + 1;
        }
        proof {
            rows@.index_of_first_ensures(header);
        }
        None
    }

    /// Collapses or expands the group that the cursor sits in, moving the
    /// cursor to that group's header when collapsing from inside it.
    pub fn set_selected_git_section_collapsed(&mut self, collapsed: bool)
        ensures
            final(self)@ == old(self)@.collapse_selected(collapsed),
    {
        let section = match self.selected_row() {
            Some(row) => match row.section() {
                Some(section) => section,
                None => {
                    return;
                },
            },
            None => {
                return;
            },
        };
        let was_collapsed = self.is_collapsed(section);
        self.set_collapsed(section, collapsed);
        if collapsed && !was_collapsed {
            let rows = self.rows();
            match Self::header_index(&rows, GitSidebarRow::SectionHeader(section)) {
                Some(index) => {
                    self.select_index(index);
                },
                None => {},
            }
        }
    }

    /// A key that moves the cursor or folds a group, where a page has `page`
    /// rows.  Returns whether it was one.
    pub fn browse(&mut self, key: KeyEvent, page: u16) -> (r: bool)
        ensures
            r == old(self)@.browse(key, page as int) is Some,
            r ==> final(self)@ == old(self)@.browse(key, page as int)->0,
            !r ==> final(self)@ == old(self)@,
    {
        match key.code {
            KeyCode::Up | KeyCode::Char('k') => {
                self.move_selection(-1);
            },
            KeyCode::Down | KeyCode::Char('j') => {
                self.move_selection(1);
            },
            KeyCode::PageUp => {
                self.move_selection(-(page as isize));
            },
            KeyCode::PageDown => {
                self.move_selection(page as isize);
            },
            KeyCode::Home | KeyCode::Char('g') => {
                self.select_first();
            },
            KeyCode::End | KeyCode::Char('G') => {
                self.select_last();
            },
            KeyCode::Left | KeyCode::Char('h') => {
                self.set_selected_git_section_collapsed(true);
            },
            KeyCode::Right | KeyCode::Char('l') => {
                self.set_selected_git_section_collapsed(false);
            },
            _ => {
                return false;
            },
        }
        true
    }

    /// A key that edits the commit message or moves in it.  Moving down leaves
    /// the one-line box for the list.
    pub fn edit_commit_message(&mut self, key: KeyEvent)
        requires
            SidebarModel::reads_caret(key) ==> old(self)@.caret_ok(),
        ensures
            final(self)@ == old(self)@.edit(key),
    {
        match key.code {
            KeyCode::Char(c) => {
                if !key.ctrl() && !key.alt() {
                    let text = crate::text::char_text(c);
                    self.insert_commit_text(text.as_str());
                }
            },
            KeyCode::Backspace => {
                self.backspace_commit();
            },
            KeyCode::Delete => {
                self.delete_commit_char();
            },
            KeyCode::Left => {
                self.move_commit_cursor(-1);
            },
            KeyCode::Right => {
                self.move_commit_cursor(1);
            },
            KeyCode::Home => {
                self.caret_home();
            },
            KeyCode::End => {
                self.caret_end();
            },
            KeyCode::Down => {
                self.focus_list();
            },
            _ => {},
        }
    }
}

impl App {
    /// Collapses or expands the group that the cursor sits in, moving the
    /// cursor to that group's header when collapsing from inside it.
    pub fn set_selected_git_section_collapsed(&mut self, collapsed: bool)
        ensures
            final(self)@ == old(self)@.with_sidebar(
                old(self)@.sidebar.collapse_selected(collapsed),
            ),
    {
        self.state.git_sidebar_state.set_selected_git_section_collapsed(collapsed);
    }

    /// Handles a key while the panel has focus.  `now` is the current time.
    pub fn handle_git_sidebar_key(&mut self, key: KeyEvent, now: u64) -> (r: Option<
        GitSidebarEffect,
    >)
        requires
            AppModel::is_sub_mode_key(key) ==> match old(self)@.sidebar.focus {
                GitSidebarFocus::Message => SidebarModel::reads_caret(key)
                    ==> old(self)@.sidebar.caret_ok(),
                GitSidebarFocus::List => crate::geometry::panel_fits(old(self)@.git_sidebar_rect),
            },
        ensures
            (final(self)@, crate::runtime::effect_model(r)) == old(self)@.key(key, now),
    {
        // Bindings that work from either sub-mode.
        match key.code {
            KeyCode::Esc => {
                self.blur_git_sidebar();
                if self.state.git_sidebar_escape_to_dismiss {
                    self.state.git_sidebar_closed = true;
                    self.state.mark_session_dirty();
                }
                return None;
            },
            KeyCode::Tab | KeyCode::BackTab => {
                self.switch_git_sidebar_focus();
                return None;
            },
            _ => {},
        }
        if key.code == KeyCode::Enter && key.ctrl() {
            return self.commit_from_git_sidebar();
        }
        let focus = self.state.git_sidebar_state.focus;
        if focus == GitSidebarFocus::Message {
            self.handle_git_sidebar_message_key(key)
        } else {
            self.handle_git_sidebar_list_key(key, now)
        }
    }

    /// Switches between the commit box and the list.
    fn switch_git_sidebar_focus(&mut self)
        ensures
            final(self)@ == old(self)@.with_sidebar(old(self)@.sidebar.switch_focus()),
    {
        let focus = self.state.git_sidebar_state.focus;
        if focus == GitSidebarFocus::Message {
            self.state.git_sidebar_state.focus_list();
        } else {
            self.state.git_sidebar_state.focus_message();
        }
    }

    /// Handles a key in the commit box.
    pub fn handle_git_sidebar_message_key(&mut self, key: KeyEvent) -> (r: Option<GitSidebarEffect>)
        requires
            SidebarModel::reads_caret(key) ==> old(self)@.sidebar.caret_ok(),
        ensures
            (final(self)@, crate::runtime::effect_model(r)) == old(self)@.message_key(key),
    {
        if key.code == KeyCode::Enter {
            return self.commit_from_git_sidebar();
        }
        self.state.git_sidebar_state.edit_commit_message(key);
        None
    }

    /// Handles a key that moves the cursor or folds a group.  Returns whether
    /// it was one.
    fn browse_git_sidebar(&mut self, key: KeyEvent) -> (r: bool)
        requires
            crate::geometry::panel_fits(old(self)@.git_sidebar_rect),
        ensures
            r == old(self)@.sidebar.browse(key, old(self)@.page()) is Some,
            r ==> final(self)@ == old(self)@.with_sidebar(
                old(self)@.sidebar.browse(key, old(self)@.page())->0,
            ),
            !r ==> final(self)@ == old(self)@,
    {
        let list = crate::geometry::git_sidebar_list_rect(self.state.git_sidebar_rect);
        let page: u16 = if list.height == 0 {
            1
        } else {
            list.height
        };
        self.state.git_sidebar_state.browse(key, page)
    }

    /// Folds the selected group, or stages or unstages the selected file.
    fn toggle_git_sidebar_selected(&mut self) -> (r: Option<GitSidebarEffect>)
        ensures
            (final(self)@, crate::runtime::effect_model(r)) == old(self)@.toggle_selected(),
    {
        match self.state.git_sidebar_state.selected_row() {
            Some(GitSidebarRow::SectionHeader(section)) => {
                self.state.git_sidebar_state.toggle_collapsed(section);
                None
            },
            _ => self.toggle_git_sidebar_stage(),
        }
    }

    /// Handles a key in the list, but for disarming the discard.
    fn run_git_sidebar_list_command(&mut self, key: KeyEvent, now: u64) -> (r: Option<
        GitSidebarEffect,
    >)
        requires
            crate::geometry::panel_fits(old(self)@.git_sidebar_rect),
        ensures
            (final(self)@, crate::runtime::effect_model(r)) == old(self)@.list_command(key, now),
    {
        if self.browse_git_sidebar(key) {
            return None;
        }
        let ctrl = key.ctrl();
        match key.code {
            KeyCode::Char(' ') | KeyCode::Char('s') => self.toggle_git_sidebar_selected(),
            KeyCode::Enter => self.open_git_sidebar_diff(),
            KeyCode::Char('a') => if !ctrl {
                self.run_git_sidebar_action(GitSidebarAction::StageAll)
            } else {
                None
            },
            KeyCode::Char('u') => if !ctrl {
                self.run_git_sidebar_action(GitSidebarAction::UnstageAll)
            } else {
                None
            },
            KeyCode::Char('c') => {
                if !ctrl {
                    self.state.git_sidebar_state.focus_message();
                }
                None
            },
            KeyCode::Char('D') => self.discard_selected_git_sidebar_file(),
            KeyCode::Char('r') => if !ctrl {
                self.state.git_sidebar_state.request_refresh();
                self.start_git_sidebar_refresh_if_due(now)
            } else {
                None
            },
            _ => None,
        }
    }

    /// Handles a key in the list.
    pub fn handle_git_sidebar_list_key(&mut self, key: KeyEvent, now: u64) -> (r: Option<
        GitSidebarEffect,
    >)
        requires
            crate::geometry::panel_fits(old(self)@.git_sidebar_rect),
        ensures
            (final(self)@, crate::runtime::effect_model(r)) == old(self)@.list_key(key, now),
    {
        let r = self.run_git_sidebar_list_command(key, now);
        // Any key other than the discard confirmation cancels the arming.
        if key.code != KeyCode::Char('D') {
            self.state.git_sidebar_state.disarm_discard();
        }
        r
    }
}

} // verus!
