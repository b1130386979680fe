//! What every key does, told by what the panel holds before and after.

use crate::git_sidebar::{GitSection, GitSidebarFocus, GitSidebarRow, SidebarModel};
use crate::keys::{KeyCode, KeyEvent};
use crate::runtime::{ActionModel, AppModel, EffectModel, PopupModel};
use vstd::prelude::*;

verus! {

/// Whether Control is held: the second lowest bit of the modifiers.
pub open spec fn control(key: KeyEvent) -> bool {
    key.modifiers & 2u8 == 2u8
}

/// Whether Alt is held: the third lowest bit of the modifiers.
pub open spec fn alt(key: KeyEvent) -> bool {
    key.modifiers & 4u8 == 4u8
}

/// The program with another panel.
pub open spec fn with_panel(m: AppModel, sidebar: SidebarModel) -> AppModel {
    AppModel { sidebar, ..m }
}

/// The program with no discard armed.
pub open spec fn disarmed(m: AppModel) -> AppModel {
    with_panel(m, SidebarModel { pending_discard: None, ..m.sidebar })
}

/// Control and Alt are told by their bits alone, whatever else is held.
pub proof fn law_modifiers(key: KeyEvent)
    ensures
        key.spec_ctrl() == control(key),
        key.spec_alt() == alt(key),
{
}

/// Esc gives the keys back, and closes the panel if it is set to, which the
/// session remembers.
pub proof fn law_escape(m: AppModel, key: KeyEvent, now: u64)
    requires
        key.code == KeyCode::Esc,
    ensures
        m.key(key, now).1 is None,
        m.key(key, now).0 == (AppModel {
            git_sidebar_closed: m.git_sidebar_closed || m.git_sidebar_escape_to_dismiss,
            session_dirty: m.session_dirty || m.git_sidebar_escape_to_dismiss,
            ..m.blur()
        }),
{
}

/// Tab and BackTab lead to the commit box with the caret at the end of the
/// message, or back to the list with the caret where it is.
pub proof fn law_tab(m: AppModel, key: KeyEvent, now: u64)
    requires
        key.code == KeyCode::Tab || key.code == KeyCode::BackTab,
    ensures
        m.key(key, now).1 is None,
        m.key(key, now).0 == with_panel(
            m,
            if m.sidebar.focus == GitSidebarFocus::List {
                SidebarModel {
                    focus: GitSidebarFocus::Message,
                    commit_cursor: vstd::utf8::encode_utf8(m.sidebar.commit_message).len() as int,
                    ..m.sidebar
                }
            } else {
                SidebarModel { focus: GitSidebarFocus::List, ..m.sidebar }
            },
        ),
{
}

/// Enter commits from the commit box, and with Control from anywhere.
pub proof fn law_enter_commits(m: AppModel, key: KeyEvent, now: u64)
    requires
        key.code == KeyCode::Enter,
        control(key) || m.sidebar.focus == GitSidebarFocus::Message,
    ensures
        m.key(key, now) == m.commit(),
{
}

/// Whether a text is that of the commit box, which has the keys, with the
/// caret between its two parts.
pub open spec fn writing(m: AppModel, before: Seq<char>, after: Seq<char>) -> bool {
    &&& m.sidebar.focus == GitSidebarFocus::Message
    &&& m.sidebar.commit_message == before + after
    &&& m.sidebar.commit_cursor == vstd::utf8::encode_utf8(before).len()
}

/// The program with this text in the commit box and the caret between its two
/// parts.
pub open spec fn written(m: AppModel, before: Seq<char>, after: Seq<char>) -> AppModel {
    with_panel(
        m,
        SidebarModel {
            commit_message: before + after,
            commit_cursor: vstd::utf8::encode_utf8(before).len() as int,
            ..m.sidebar
        },
    )
}

/// A character key puts its character at the caret and the caret behind it,
/// whatever is held but Control and Alt; with one of these it does nothing.
pub proof fn law_typing_a_character(
    m: AppModel,
    key: KeyEvent,
    now: u64,
    before: Seq<char>,
    after: Seq<char>,
    c: char,
)
    requires
        writing(m, before, after),
        key.code == KeyCode::Char(c),
    ensures
        m.key(key, now).1 is None,
        m.key(key, now).0 == (if control(key) || alt(key) {
            m
        } else {
            written(m, before + seq![c], after)
        }),
        !control(key) && !alt(key) ==> m.key(key, now).0.sidebar.commit_message == before + seq![c]
            + after,
{
    crate::text::lemma_caret_between(before, after);
}

/// Backspace takes out the character before the caret, and Delete the one
/// after it, if there is one.
pub proof fn law_deleting_a_character(
    m: AppModel,
    key: KeyEvent,
    now: u64,
    before: Seq<char>,
    after: Seq<char>,
    c: char,
)
    ensures
        writing(m, before + seq![c], after) && key.code == KeyCode::Backspace ==> m.key(key, now)
            == (written(m, before, after), None::<EffectModel>),
        writing(m, before, seq![c] + after) && key.code == KeyCode::Delete ==> m.key(key, now) == (
            written(m, before, after),
            None::<EffectModel>,
        ),
        writing(m, Seq::empty(), after) && key.code == KeyCode::Backspace ==> m.key(key, now) == (
            m,
            None::<EffectModel>,
        ),
        writing(m, before, Seq::empty()) && key.code == KeyCode::Delete ==> m.key(key, now) == (
            m,
            None::<EffectModel>,
        ),
{
    crate::text::lemma_caret_between(before + seq![c], after);
    crate::text::lemma_caret_between(before, seq![c] + after);
    crate::text::lemma_caret_between(Seq::empty(), after);
    crate::text::lemma_caret_between(before, Seq::empty());
    assert((before + seq![c]).drop_last() =~= before);
    assert((seq![c] + after).drop_first() =~= after);
}

/// Left takes the caret over one character, as far as the message goes, and
/// leaves the message as it is.
pub proof fn law_moving_left(
    m: AppModel,
    key: KeyEvent,
    now: u64,
    before: Seq<char>,
    after: Seq<char>,
    c: char,
)
    requires
        key.code == KeyCode::Left,
    ensures
        writing(m, before + seq![c], after) ==> m.key(key, now) == (
            written(m, before, seq![c] + after),
            None::<EffectModel>,
        ),
        writing(m, Seq::empty(), after) ==> m.key(key, now) == (m, None::<EffectModel>),
{
    if writing(m, before + seq![c], after) {
        assert(before + seq![c] + after =~= before + (seq![c] + after));
        law_moving_the_caret(m.sidebar, -1, before + seq![c], after, before, seq![c] + after);
    }
    if writing(m, Seq::empty(), after) {
        law_moving_the_caret(m.sidebar, -1, Seq::empty(), after, Seq::empty(), after);
    }
}

/// Right takes the caret over one character, as far as the message goes, and
/// leaves the message as it is.
pub proof fn law_moving_right(
    m: AppModel,
    key: KeyEvent,
    now: u64,
    before: Seq<char>,
    after: Seq<char>,
    c: char,
)
    requires
        key.code == KeyCode::Right,
    ensures
        writing(m, before, seq![c] + after) ==> m.key(key, now) == (
            written(m, before + seq![c], after),
            None::<EffectModel>,
        ),
        writing(m, before, Seq::empty()) ==> m.key(key, now) == (m, None::<EffectModel>),
{
    if writing(m, before, seq![c] + after) {
        assert(before + seq![c] + after =~= before + (seq![c] + after));
        law_moving_the_caret(m.sidebar, 1, before, seq![c] + after, before + seq![c], after);
    }
    if writing(m, before, Seq::empty()) {
        law_moving_the_caret(m.sidebar, 1, before, Seq::empty(), before, Seq::empty());
    }
}

/// Moving the caret by some characters takes it that far, or to the end of
/// the message on that side, and leaves the message as it is.
pub proof fn law_moving_the_caret(
    s: SidebarModel,
    delta: int,
    before: Seq<char>,
    after: Seq<char>,
    to_before: Seq<char>,
    to_after: Seq<char>,
)
    requires
        s.commit_message == before + after,
        s.commit_cursor == vstd::utf8::encode_utf8(before).len(),
        to_before + to_after == before + after,
        to_before.len() == crate::laws_list::nearest(before.len() + delta, (before.len() + after.len() + 1) as int),
    ensures
        s.move_caret(delta) == (SidebarModel {
            commit_cursor: vstd::utf8::encode_utf8(to_before).len() as int,
            ..s
        }),
{
    crate::text::lemma_caret_between(before, after);
    let whole = before + after;
    assert(whole.take(to_before.len() as int) =~= to_before) by {
        assert(to_before =~= (to_before + to_after).take(to_before.len() as int));
    }
    assert(whole.take(to_before.len() as int) + whole.skip(to_before.len() as int) =~= whole);
}

/// A text that is put in stands at the caret, which goes behind it.
pub proof fn law_inserting_a_text(
    s: SidebarModel,
    before: Seq<char>,
    after: Seq<char>,
    text: Seq<char>,
)
    requires
        s.commit_message == before + after,
        s.commit_cursor == vstd::utf8::encode_utf8(before).len(),
    ensures
        s.insert_text(text) == (SidebarModel {
            commit_message: before + text + after,
            commit_cursor: vstd::utf8::encode_utf8(before + text).len() as int,
            ..s
        }),
{
    crate::text::lemma_caret_between(before, after);
}

/// In the commit box Home and End take the caret to either end, Down leads to
/// the list, and the keys that move elsewhere or are not known do nothing.
pub proof fn law_other_keys_in_the_box(m: AppModel, key: KeyEvent, now: u64)
    requires
        m.sidebar.focus == GitSidebarFocus::Message,
    ensures
        key.code == KeyCode::Home ==> m.key(key, now) == (
            with_panel(m, SidebarModel { commit_cursor: 0, ..m.sidebar }),
            None::<EffectModel>,
        ),
        key.code == KeyCode::End ==> m.key(key, now) == (
            with_panel(
                m,
                SidebarModel {
                    commit_cursor: vstd::utf8::encode_utf8(m.sidebar.commit_message).len() as int,
                    ..m.sidebar
                },
            ),
            None::<EffectModel>,
        ),
        key.code == KeyCode::Down ==> m.key(key, now) == (
            with_panel(m, SidebarModel { focus: GitSidebarFocus::List, ..m.sidebar }),
            None::<EffectModel>,
        ),
        key.code == KeyCode::Up || key.code == KeyCode::PageUp || key.code == KeyCode::PageDown
            || key.code == KeyCode::Other ==> m.key(key, now) == (m, None::<EffectModel>),
        key.code is Char && (control(key) || alt(key)) ==> m.key(key, now) == (
            m,
            None::<EffectModel>,
        ),
{
}

/// The commit box handles a key in the same way whoever has the focus.
pub proof fn law_box_handler(m: AppModel, key: KeyEvent, c: char)
    ensures
        key.code == KeyCode::Enter ==> m.message_key(key) == m.commit(),
        key.code == KeyCode::Char(c) ==> m.message_key(key) == (
            if control(key) || alt(key) {
                m
            } else {
                with_panel(m, m.sidebar.insert_text(seq![c]))
            },
            None::<EffectModel>,
        ),
        key.code == KeyCode::Backspace ==> m.message_key(key) == (
            with_panel(m, m.sidebar.backspace()),
            None::<EffectModel>,
        ),
        key.code == KeyCode::Delete ==> m.message_key(key) == (
            with_panel(m, m.sidebar.delete_char()),
            None::<EffectModel>,
        ),
        key.code == KeyCode::Left ==> m.message_key(key) == (
            with_panel(m, m.sidebar.move_caret(-1)),
            None::<EffectModel>,
        ),
        key.code == KeyCode::Right ==> m.message_key(key) == (
            with_panel(m, m.sidebar.move_caret(1)),
            None::<EffectModel>,
        ),
        key.code == KeyCode::Home ==> m.message_key(key) == (
            with_panel(m, m.sidebar.caret_home()),
            None::<EffectModel>,
        ),
        key.code == KeyCode::End ==> m.message_key(key) == (
            with_panel(m, m.sidebar.caret_end()),
            None::<EffectModel>,
        ),
        key.code == KeyCode::Down ==> m.message_key(key) == (
            with_panel(m, m.sidebar.focus_list()),
            None::<EffectModel>,
        ),
        key.code == KeyCode::Up || key.code == KeyCode::PageUp || key.code == KeyCode::PageDown
            || key.code == KeyCode::Other || key.code == KeyCode::Esc || key.code == KeyCode::Tab
            || key.code == KeyCode::BackTab ==> m.message_key(key) == (m, None::<EffectModel>),
{
}

/// The list disarms the discard after every key but the discard key, whoever
/// has the focus.
pub proof fn law_list_handler(m: AppModel, key: KeyEvent, now: u64)
    ensures
        ({
            let (after, effect) = m.list_command(key, now);
            m.list_key(key, now) == (if key.code == KeyCode::Char('D') {
                (after, effect)
            } else {
                (disarmed(after), effect)
            })
        }),
{
}

/// The height of the list of changes as it is drawn, or one row.
pub open spec fn drawn_page(m: AppModel) -> int {
    let area = m.git_sidebar_rect;
    let drawn = if area.width > 0 && area.height > 0 {
        m.panel(area)->0.changes.area.height as int
    } else {
        0
    };
    if drawn < 1 {
        1
    } else {
        drawn
    }
}

/// Where a key takes the cursor of the list, if it is a key that moves it.
pub open spec fn aim(m: AppModel, key: KeyEvent) -> Option<int> {
    let at = m.sidebar.selected_index;
    if key.code == KeyCode::Up || key.code == KeyCode::Char('k') {
        Some(at - 1)
    } else if key.code == KeyCode::Down || key.code == KeyCode::Char('j') {
        Some(at + 1)
    } else if key.code == KeyCode::PageUp {
        Some(at - drawn_page(m))
    } else if key.code == KeyCode::PageDown {
        Some(at + drawn_page(m))
    } else if key.code == KeyCode::Home || key.code == KeyCode::Char('g') {
        Some(0)
    } else if key.code == KeyCode::End || key.code == KeyCode::Char('G') {
        Some(crate::laws_list::height_of_list(m.sidebar) - 1)
    } else {
        None
    }
}

/// Whether a key is for the list.
pub open spec fn to_list(m: AppModel, key: KeyEvent) -> bool {
    &&& m.sidebar.focus == GitSidebarFocus::List
    &&& key.code != KeyCode::Esc
    &&& key.code != KeyCode::Tab
    &&& key.code != KeyCode::BackTab
    &&& !(key.code == KeyCode::Enter && control(key))
}

/// A key of the list disarms the discard after what else it does, unless it
/// is the discard key.
pub proof fn law_list_keys_disarm(m: AppModel, key: KeyEvent, now: u64)
    requires
        to_list(m, key),
    ensures
        ({
            let (after, effect) = m.list_command(key, now);
            m.key(key, now) == (if key.code == KeyCode::Char('D') {
                (after, effect)
            } else {
                (disarmed(after), effect)
            })
        }),
{
}

#[verifier::rlimit(40)]
#[verifier::spinoff_prover]
proof fn lemma_browsed(m: AppModel, key: KeyEvent, now: u64, s: SidebarModel)
    requires
        to_list(m, key),
        m.sidebar.browse(key, m.page()) == Some(s),
    ensures
        m.key(key, now) == (
            with_panel(m, SidebarModel { pending_discard: None, ..s }),
            None::<EffectModel>,
        ),
{
    law_list_keys_disarm(m, key, now);
}

proof fn lemma_acted(
    m: AppModel,
    key: KeyEvent,
    now: u64,
    after: AppModel,
    effect: Option<EffectModel>,
)
    requires
        to_list(m, key),
        key.code != KeyCode::Char('D'),
        m.sidebar.browse(key, m.page()) is None,
        m.act(key, now) == (after, effect),
    ensures
        m.key(key, now) == (disarmed(after), effect),
{
    law_list_keys_disarm(m, key, now);
}

/// The keys that move in the list take the cursor one row or one drawn page
/// on, or to either end, and no further than the rows go.  They disarm the
/// discard and change nothing else.
pub proof fn law_cursor_keys(m: AppModel, key: KeyEvent, now: u64)
    requires
        m.sidebar.focus == GitSidebarFocus::List,
        aim(m, key) is Some,
        key.code == KeyCode::PageUp || key.code == KeyCode::PageDown ==> m.git_sidebar_rect.width
            > 0,
    ensures
        m.key(key, now) == (
            with_panel(
                m,
                SidebarModel {
                    selected_index: crate::laws_list::nearest(aim(m, key)->0, crate::laws_list::height_of_list(m.sidebar)),
                    pending_discard: None,
                    ..m.sidebar
                },
            ),
            None::<EffectModel>,
        ),
{
    lemma_cursor_keys(m, key);
    lemma_browsed(
        m,
        key,
        now,
        SidebarModel {
            selected_index: crate::laws_list::nearest(aim(m, key)->0, crate::laws_list::height_of_list(m.sidebar)),
            ..m.sidebar
        },
    );
}

proof fn lemma_cursor_keys(m: AppModel, key: KeyEvent)
    requires
        aim(m, key) is Some,
        key.code == KeyCode::PageUp || key.code == KeyCode::PageDown ==> m.git_sidebar_rect.width
            > 0,
    ensures
        m.sidebar.browse(key, m.page()) == Some(
            SidebarModel {
                selected_index: crate::laws_list::nearest(aim(m, key)->0, crate::laws_list::height_of_list(m.sidebar)),
                ..m.sidebar
            },
        ),
{
    lemma_drawn_page(m);
    crate::laws_list::law_rows_in_order(m.sidebar, GitSection::Commits, 0);
    crate::laws_list::law_select_goes_to_the_nearest_row(m.sidebar, aim(m, key)->0);
    assert(m.sidebar.browse(key, m.page()) == Some(m.sidebar.select(aim(m, key)->0)));
}

proof fn lemma_drawn_page(m: AppModel)
    ensures
        m.git_sidebar_rect.width > 0 ==> m.page() == drawn_page(m),
{
}

/// A page has the rows that the title, the commit box and the commits leave:
/// one row goes to the title, the changes get the upper half of the others,
/// rounded up, or all of them if they are fewer than seven, and three rows of
/// that go to the box.  A page has one row at the least.
pub proof fn law_page(m: AppModel)
    requires
        m.git_sidebar_rect.y + m.git_sidebar_rect.height <= u16::MAX,
    ensures
        ({
            let others = m.git_sidebar_rect.height - 1;
            let upper = if others < 7 {
                others
            } else {
                (others + 1) / 2
            };
            m.page() == (if upper < 4 {
                1
            } else {
                upper - 3
            })
        }),
{
}

/// Collapsing folds the group of the row under the cursor and takes the
/// cursor to its header; expanding unfolds it and leaves the cursor.  Both
/// disarm the discard and change nothing else.
pub proof fn law_fold_keys(m: AppModel, key: KeyEvent, now: u64, section: GitSection)
    requires
        m.sidebar.focus == GitSidebarFocus::List,
        crate::laws_list::in_group(m.sidebar, section, m.sidebar.selected_index),
    ensures
        key.code == KeyCode::Left || key.code == KeyCode::Char('h') ==> m.key(key, now) == (
            with_panel(
                m,
                SidebarModel {
                    selected_index: crate::laws_list::top_of_group(m.sidebar, section),
                    pending_discard: None,
                    ..refolded(m.sidebar, section, true)
                },
            ),
            None::<EffectModel>,
        ),
        key.code == KeyCode::Right || key.code == KeyCode::Char('l') ==> m.key(key, now) == (
            with_panel(
                m,
                SidebarModel { pending_discard: None, ..refolded(m.sidebar, section, false) },
            ),
            None::<EffectModel>,
        ),
{
    law_folding_a_group(m.sidebar, section);
    if key.code == KeyCode::Left || key.code == KeyCode::Char('h') {
        lemma_fold_key(m.sidebar, key, m.page(), true);
        lemma_browsed(m, key, now, m.sidebar.collapse_selected(true));
    }
    if key.code == KeyCode::Right || key.code == KeyCode::Char('l') {
        lemma_fold_key(m.sidebar, key, m.page(), false);
        lemma_browsed(m, key, now, m.sidebar.collapse_selected(false));
    }
}

proof fn lemma_fold_key(s: SidebarModel, key: KeyEvent, page: int, collapsed: bool)
    requires
        if collapsed {
            key.code == KeyCode::Left || key.code == KeyCode::Char('h')
        } else {
            key.code == KeyCode::Right || key.code == KeyCode::Char('l')
        },
    ensures
        s.browse(key, page) == Some(s.collapse_selected(collapsed)),
{
}

/// A panel with the mark of one group set.
pub open spec fn refolded(s: SidebarModel, section: GitSection, fold: bool) -> SidebarModel {
    SidebarModel {
        section_collapsed_merge: if section == GitSection::Merge {
            fold
        } else {
            s.section_collapsed_merge
        },
        section_collapsed_staged: if section == GitSection::Staged {
            fold
        } else {
            s.section_collapsed_staged
        },
        section_collapsed_changes: if section == GitSection::Changes {
            fold
        } else {
            s.section_collapsed_changes
        },
        section_collapsed_untracked: if section == GitSection::Untracked {
            fold
        } else {
            s.section_collapsed_untracked
        },
        section_collapsed_commits: if section == GitSection::Commits {
            fold
        } else {
            s.section_collapsed_commits
        },
        ..s
    }
}

/// Folding goes by the group of the row under the cursor.
#[verifier::rlimit(40)]
#[verifier::spinoff_prover]
pub proof fn law_folding_a_group(s: SidebarModel, section: GitSection)
    requires
        crate::laws_list::in_group(s, section, s.selected_index),
    ensures
        s.collapse_selected(true) == (SidebarModel {
            selected_index: crate::laws_list::top_of_group(s, section),
            ..refolded(s, section, true)
        }),
        s.collapse_selected(false) == refolded(s, section, false),
{
    let top = crate::laws_list::top_of_group(s, section);
    let fold = refolded(s, section, true);
    lemma_selected_in_group(s, section);
    lemma_refolded(s, section, true);
    lemma_refolded(s, section, false);
    lemma_header_index(fold, section);
    lemma_select_top(fold, section);
    lemma_collapse(s, section, top);
    lemma_expand(s, section);
}

proof fn lemma_selected_in_group(s: SidebarModel, section: GitSection)
    requires
        crate::laws_list::in_group(s, section, s.selected_index),
    ensures
        s.selected_row() is Some,
        s.selected_row()->0.spec_section() == Some(section),
{
    crate::laws_list::lemma_row_of_group(s, section, s.selected_index - crate::laws_list::top_of_group(s, section));
}

proof fn lemma_select_top(s: SidebarModel, section: GitSection)
    requires
        crate::laws_list::height_of_group(s, section) > 0,
    ensures
        s.select(crate::laws_list::top_of_group(s, section)) == (SidebarModel {
            selected_index: crate::laws_list::top_of_group(s, section),
            ..s
        }),
{
    crate::laws_list::law_select_goes_to_the_nearest_row(s, crate::laws_list::top_of_group(s, section));
    lemma_top_is_a_row(s, section);
}

proof fn lemma_collapse(s: SidebarModel, section: GitSection, top: int)
    requires
        s.selected_row() is Some,
        s.selected_row()->0.spec_section() == Some(section),
        s.set_collapsed(section, true) == refolded(s, section, true),
        s.is_collapsed(section) ==> s.selected_index == top,
        refolded(s, section, true).rows().index_of_first(GitSidebarRow::SectionHeader(section))
            == Some(top),
        refolded(s, section, true).select(top) == (SidebarModel {
            selected_index: top,
            ..refolded(s, section, true)
        }),
    ensures
        s.collapse_selected(true) == (SidebarModel {
            selected_index: top,
            ..refolded(s, section, true)
        }),
{
}

proof fn lemma_expand(s: SidebarModel, section: GitSection)
    requires
        s.selected_row() is Some,
        s.selected_row()->0.spec_section() == Some(section),
        s.set_collapsed(section, false) == refolded(s, section, false),
    ensures
        s.collapse_selected(false) == refolded(s, section, false),
{
}

proof fn lemma_refolded(s: SidebarModel, section: GitSection, fold: bool)
    ensures
        s.set_collapsed(section, fold) == refolded(s, section, fold),
        s.is_collapsed(section) == crate::laws_list::folded(s, section),
        crate::laws_list::top_of_group(refolded(s, section, fold), section) == crate::laws_list::top_of_group(s, section),
        crate::laws_list::height_of_group(s, section) > 0 ==> crate::laws_list::height_of_group(
            refolded(s, section, fold),
            section,
        ) > 0,
        crate::laws_list::folded(s, section) ==> crate::laws_list::height_of_group(s, section) <= 1,
{
}

proof fn lemma_top_is_a_row(s: SidebarModel, section: GitSection)
    requires
        crate::laws_list::height_of_group(s, section) > 0,
    ensures
        0 <= crate::laws_list::top_of_group(s, section) < crate::laws_list::height_of_list(s),
{
}

proof fn lemma_header_index(s: SidebarModel, section: GitSection)
    requires
        crate::laws_list::height_of_group(s, section) > 0,
    ensures
        s.rows().index_of_first(GitSidebarRow::SectionHeader(section)) == Some(
            crate::laws_list::top_of_group(s, section),
        ),
{
    let top = crate::laws_list::top_of_group(s, section);
    let header = GitSidebarRow::SectionHeader(section);
    crate::laws_list::lemma_row_of_group(s, section, 0);
    s.rows().index_of_first_ensures(header);
    assert(s.rows()[top] == header);
    assert(s.rows().contains(header));
    crate::laws::law_one_header_per_group(s, section, top);
}

/// On the placeholder and past the list there is nothing to fold.
pub proof fn law_nothing_to_fold(m: AppModel, key: KeyEvent, now: u64)
    requires
        m.sidebar.focus == GitSidebarFocus::List,
        m.sidebar.selected_index < 0 || m.sidebar.selected_index >= crate::laws_list::height_of_list(m.sidebar) || (
        !crate::laws_list::has_files(m.sidebar) && m.sidebar.selected_index == 0),
        key.code == KeyCode::Left || key.code == KeyCode::Char('h') || key.code == KeyCode::Right
            || key.code == KeyCode::Char('l'),
    ensures
        m.key(key, now) == (disarmed(m), None::<EffectModel>),
{
    crate::laws_list::law_selected_row_is_under_the_cursor(m.sidebar, GitSection::Commits, 0);
    let collapsed = key.code == KeyCode::Left || key.code == KeyCode::Char('h');
    lemma_fold_key(m.sidebar, key, m.page(), collapsed);
    assert(m.sidebar.collapse_selected(collapsed) == m.sidebar);
    lemma_browsed(m, key, now, m.sidebar);
}

/// On a header Space and `s` fold the group or unfold it, and leave the cursor
/// where it is.
pub proof fn law_space_on_a_header(m: AppModel, key: KeyEvent, now: u64, section: GitSection)
    requires
        m.sidebar.focus == GitSidebarFocus::List,
        key.code == KeyCode::Char(' ') || key.code == KeyCode::Char('s'),
        crate::laws_list::height_of_group(m.sidebar, section) > 0,
        m.sidebar.selected_index == crate::laws_list::top_of_group(m.sidebar, section),
    ensures
        m.key(key, now) == (
            disarmed(
                with_panel(
                    m,
                    refolded(m.sidebar, section, !crate::laws_list::folded(m.sidebar, section)),
                ),
            ),
            None::<EffectModel>,
        ),
{
    crate::laws_list::law_selected_row_is_under_the_cursor(m.sidebar, section, 0);
    lemma_space(m, key, now);
    lemma_refolded(m.sidebar, section, !crate::laws_list::folded(m.sidebar, section));
    let after = with_panel(m, refolded(m.sidebar, section, !crate::laws_list::folded(m.sidebar, section)));
    lemma_acted(m, key, now, after, None);
}

proof fn lemma_space(m: AppModel, key: KeyEvent, now: u64)
    requires
        key.code == KeyCode::Char(' ') || key.code == KeyCode::Char('s'),
    ensures
        m.sidebar.browse(key, m.page()) is None,
        m.act(key, now) == m.toggle_selected(),
{
}

/// On a file Space and `s` unstage it if it stands in the staged group, and
/// stage it otherwise.
#[verifier::rlimit(40)]
#[verifier::spinoff_prover]
pub proof fn law_space_on_a_file(
    m: AppModel,
    key: KeyEvent,
    now: u64,
    section: GitSection,
    index: usize,
)
    requires
        m.sidebar.focus == GitSidebarFocus::List,
        key.code == KeyCode::Char(' ') || key.code == KeyCode::Char('s'),
        section != GitSection::Commits,
        index + 1 < crate::laws_list::height_of_group(m.sidebar, section),
        m.sidebar.selected_index == crate::laws_list::top_of_group(m.sidebar, section) + 1 + index,
    ensures
        ({
            let path = crate::laws_list::files_in(m.sidebar, section)[index as int].path;
            starts(
                m,
                key,
                now,
                if section == GitSection::Staged {
                    ActionModel::Unstage(path)
                } else {
                    ActionModel::Stage(path)
                },
            )
        }),
{
    let path = crate::laws_list::files_in(m.sidebar, section)[index as int].path;
    let action = if section == GitSection::Staged {
        ActionModel::Unstage(path)
    } else {
        ActionModel::Stage(path)
    };
    lemma_space(m, key, now);
    lemma_staged(m, section, index, action);
    lemma_starts(m, key, now, action);
}

proof fn lemma_staged(m: AppModel, section: GitSection, index: usize, action: ActionModel)
    requires
        section != GitSection::Commits,
        index + 1 < crate::laws_list::height_of_group(m.sidebar, section),
        m.sidebar.selected_index == crate::laws_list::top_of_group(m.sidebar, section) + 1 + index,
        ({
            let path = crate::laws_list::files_in(m.sidebar, section)[index as int].path;
            action == (if section == GitSection::Staged {
                ActionModel::Unstage(path)
            } else {
                ActionModel::Stage(path)
            })
        }),
    ensures
        m.toggle_selected() == m.run_action(action),
{
    crate::laws_list::law_selected_row_is_under_the_cursor(m.sidebar, section, index);
    crate::laws_list::law_selected_file_is_under_the_cursor(m.sidebar, section, index);
}

proof fn lemma_starts(m: AppModel, key: KeyEvent, now: u64, action: ActionModel)
    requires
        to_list(m, key),
        key.code != KeyCode::Char('D'),
        m.sidebar.browse(key, m.page()) is None,
        m.act(key, now) == m.run_action(action),
    ensures
        starts(m, key, now, action),
{
    let (after, effect) = m.run_action(action);
    crate::laws_runtime::law_command_starts(m, action);
    lemma_acted(m, key, now, after, effect);
}

/// Whether a key of the list starts a command at the root, if none is running
/// and there is a root, and else does nothing but disarm the discard.
pub open spec fn starts(m: AppModel, key: KeyEvent, now: u64, action: ActionModel) -> bool {
    let (after, effect) = m.key(key, now);
    if m.sidebar.action_in_flight || crate::laws_runtime::place(m) is None {
        after == disarmed(m) && effect is None
    } else {
        &&& effect == Some(EffectModel::SpawnAction { repo_root: crate::laws_runtime::place(m)->0, action })
        &&& after == with_panel(
            m,
            SidebarModel {
                action_in_flight: true,
                status_message: None,
                pending_discard: None,
                ..m.sidebar
            },
        )
    }
}

/// On a commit, on the placeholder and past the list Space and `s` do nothing
/// but disarm the discard.
pub proof fn law_space_elsewhere(m: AppModel, key: KeyEvent, now: u64)
    requires
        m.sidebar.focus == GitSidebarFocus::List,
        key.code == KeyCode::Char(' ') || key.code == KeyCode::Char('s'),
        ({
            let s = m.sidebar;
            let at = s.selected_index;
            ||| at < 0
            ||| at >= crate::laws_list::height_of_list(s)
            ||| !crate::laws_list::has_files(s) && at == 0
            ||| crate::laws_list::in_group(s, GitSection::Commits, at) && at > crate::laws_list::top_of_group(
                s,
                GitSection::Commits,
            )
        }),
    ensures
        m.key(key, now) == (disarmed(m), None::<EffectModel>),
{
    let s = m.sidebar;
    crate::laws_runtime::law_only_files_are_staged_or_discarded(m);
    crate::laws_list::law_selected_row_is_under_the_cursor(s, GitSection::Commits, 0);
    if crate::laws_list::in_group(s, GitSection::Commits, s.selected_index) {
        crate::laws_list::lemma_row_of_group(
            s,
            GitSection::Commits,
            s.selected_index - crate::laws_list::top_of_group(s, GitSection::Commits),
        );
    }
    lemma_space(m, key, now);
    lemma_acted(m, key, now, m, None);
}

/// Enter in the list shows the file or the commit under the cursor.
pub proof fn law_enter_shows_the_entry_under_the_cursor(
    m: AppModel,
    key: KeyEvent,
    now: u64,
    section: GitSection,
    index: usize,
)
    requires
        m.sidebar.focus == GitSidebarFocus::List,
        key.code == KeyCode::Enter,
        !control(key),
        index + 1 < crate::laws_list::height_of_group(m.sidebar, section),
        m.sidebar.selected_index == crate::laws_list::top_of_group(m.sidebar, section) + 1 + index,
    ensures
        m.key(key, now).0 == disarmed(m),
        crate::laws_runtime::place(m) is None ==> m.key(key, now).1 is None,
        crate::laws_runtime::place(m) is Some ==> m.key(key, now).1 == Some(
            EffectModel::OpenPopup {
                popup: if section == GitSection::Commits {
                    PopupModel::Show { commit: m.sidebar.recent_commits[index as int] }
                } else {
                    PopupModel::Diff {
                        section,
                        file: crate::laws_list::files_in(m.sidebar, section)[index as int],
                    }
                },
                repo_root: crate::laws_runtime::place(m)->0,
            },
        ),
{
    lemma_enter(m, key, now);
    lemma_acted(m, key, now, m, m.open_diff());
    if crate::laws_runtime::place(m) is Some {
        if section == GitSection::Commits {
            crate::laws_runtime::law_show_of_the_commit_under_the_cursor(m, index);
        } else {
            crate::laws_runtime::law_diff_of_the_file_under_the_cursor(m, section, index);
        }
    } else {
        crate::laws_runtime::law_nothing_to_show(m);
    }
}

/// Enter shows nothing on a header, on the placeholder and past the list.
pub proof fn law_enter_elsewhere(m: AppModel, key: KeyEvent, now: u64)
    requires
        m.sidebar.focus == GitSidebarFocus::List,
        key.code == KeyCode::Enter,
        !control(key),
        crate::laws_runtime::on_no_entry(m.sidebar),
    ensures
        m.key(key, now) == (disarmed(m), None::<EffectModel>),
{
    crate::laws_runtime::law_nothing_to_show(m);
    lemma_enter(m, key, now);
    lemma_acted(m, key, now, m, None);
}

proof fn lemma_enter(m: AppModel, key: KeyEvent, now: u64)
    requires
        key.code == KeyCode::Enter,
    ensures
        m.sidebar.browse(key, m.page()) is None,
        m.act(key, now) == (m, m.open_diff()),
{
}

/// Without Control `a` stages everything, `u` unstages everything, and `c`
/// leads to the commit box with the caret at the end of the message.  With
/// Control they do nothing, and so does `r`, but disarm the discard.
#[verifier::rlimit(40)]
#[verifier::spinoff_prover]
pub proof fn law_letters_of_the_list(m: AppModel, key: KeyEvent, now: u64)
    requires
        m.sidebar.focus == GitSidebarFocus::List,
    ensures
        key.code == KeyCode::Char('a') && !control(key) ==> starts(
            m,
            key,
            now,
            ActionModel::StageAll,
        ),
        key.code == KeyCode::Char('u') && !control(key) ==> starts(
            m,
            key,
            now,
            ActionModel::UnstageAll,
        ),
        key.code == KeyCode::Char('c') && !control(key) ==> m.key(key, now) == (
            with_panel(
                m,
                SidebarModel {
                    focus: GitSidebarFocus::Message,
                    commit_cursor: vstd::utf8::encode_utf8(m.sidebar.commit_message).len() as int,
                    pending_discard: None,
                    ..m.sidebar
                },
            ),
            None::<EffectModel>,
        ),
        control(key) && (key.code == KeyCode::Char('a') || key.code == KeyCode::Char('u')
            || key.code == KeyCode::Char('c') || key.code == KeyCode::Char('r')) ==> m.key(key, now)
            == (disarmed(m), None::<EffectModel>),
{
    if control(key) {
        if key.code == KeyCode::Char('a') || key.code == KeyCode::Char('u') || key.code
            == KeyCode::Char('c') || key.code == KeyCode::Char('r') {
            lemma_letter_with_control(m, key, now);
            lemma_acted(m, key, now, m, None);
        }
    } else if key.code == KeyCode::Char('a') {
        lemma_letter(m, key, now);
        lemma_starts(m, key, now, ActionModel::StageAll);
    } else if key.code == KeyCode::Char('u') {
        lemma_letter(m, key, now);
        lemma_starts(m, key, now, ActionModel::UnstageAll);
    } else if key.code == KeyCode::Char('c') {
        lemma_letter(m, key, now);
        lemma_acted(m, key, now, m.with_sidebar(m.sidebar.focus_message()), None);
    }
}

proof fn lemma_letter_with_control(m: AppModel, key: KeyEvent, now: u64)
    requires
        control(key),
        key.code == KeyCode::Char('a') || key.code == KeyCode::Char('u') || key.code
            == KeyCode::Char('c') || key.code == KeyCode::Char('r'),
    ensures
        m.sidebar.browse(key, m.page()) is None,
        m.act(key, now) == (m, None::<EffectModel>),
{
}

proof fn lemma_letter(m: AppModel, key: KeyEvent, now: u64)
    requires
        !control(key),
        key.code == KeyCode::Char('a') || key.code == KeyCode::Char('u') || key.code
            == KeyCode::Char('c'),
    ensures
        m.sidebar.browse(key, m.page()) is None,
        key.code == KeyCode::Char('a') ==> m.act(key, now) == m.run_action(ActionModel::StageAll),
        key.code == KeyCode::Char('u') ==> m.act(key, now) == m.run_action(ActionModel::UnstageAll),
        key.code == KeyCode::Char('c') ==> m.act(key, now) == (
            m.with_sidebar(m.sidebar.focus_message()),
            None::<EffectModel>,
        ),
{
}

/// `r` drops the messages and asks for a probe at once: an open panel with no
/// probe out and a directory starts one, however short the time since the
/// last.
pub proof fn law_refresh_key(m: AppModel, key: KeyEvent, now: u64)
    requires
        m.sidebar.focus == GitSidebarFocus::List,
        key.code == KeyCode::Char('r'),
        !control(key),
    ensures
        ({
            let asked = with_panel(
                m,
                SidebarModel {
                    needs_force_refresh: true,
                    status_message: None,
                    error_message: None,
                    ..m.sidebar
                },
            );
            let (ticked, effect) = asked.refresh_if_due(now);
            m.key(key, now) == (disarmed(ticked), effect)
        }),
        ({
            let (after, effect) = m.key(key, now);
            &&& after.sidebar.error_message is None
            &&& after.sidebar.status_message is None
            &&& effect == (if !m.git_sidebar_closed && !m.sidebar.is_refreshing && crate::laws_runtime::directory(
                m,
            ) is Some {
                Some(EffectModel::SpawnRefresh { cwd: crate::laws_runtime::directory(m)->0 })
            } else {
                None
            })
        }),
{
    let asked = m.with_sidebar(m.sidebar.request_refresh());
    let (ticked, effect) = asked.refresh_if_due(now);
    lemma_refresh(m, key, now);
    lemma_acted(m, key, now, ticked, effect);
    lemma_asked(m, now);
}

proof fn lemma_refresh(m: AppModel, key: KeyEvent, now: u64)
    requires
        key.code == KeyCode::Char('r'),
        !control(key),
    ensures
        m.sidebar.browse(key, m.page()) is None,
        m.act(key, now) == m.with_sidebar(m.sidebar.request_refresh()).refresh_if_due(now),
{
}

proof fn lemma_asked(m: AppModel, now: u64)
    ensures
        ({
            let (after, effect) = m.with_sidebar(m.sidebar.request_refresh()).refresh_if_due(now);
            &&& after.sidebar.error_message is None
            &&& after.sidebar.status_message is None
            &&& effect == (if !m.git_sidebar_closed && !m.sidebar.is_refreshing && crate::laws_runtime::directory(
                m,
            ) is Some {
                Some(EffectModel::SpawnRefresh { cwd: crate::laws_runtime::directory(m)->0 })
            } else {
                None
            })
        }),
{
}

/// `D` takes the file under the cursor, whatever is held: an untracked one is
/// refused, another one is armed, and one that was armed is discarded.
pub proof fn law_discard_key_on_a_file(
    m: AppModel,
    key: KeyEvent,
    now: u64,
    section: GitSection,
    index: usize,
)
    requires
        m.sidebar.focus == GitSidebarFocus::List,
        key.code == KeyCode::Char('D'),
        section != GitSection::Commits,
        index + 1 < crate::laws_list::height_of_group(m.sidebar, section),
        m.sidebar.selected_index == crate::laws_list::top_of_group(m.sidebar, section) + 1 + index,
    ensures
        ({
            let path = crate::laws_list::files_in(m.sidebar, section)[index as int].path;
            let name = crate::path::path_text_file_name(path);
            crate::laws_runtime::is_discard(
                m,
                m.key(key, now).0,
                m.key(key, now).1,
                section,
                path,
                crate::laws_runtime::armed_for(m, path),
                if name is Some {
                    name->0
                } else {
                    path
                },
            )
        }),
{
    crate::laws_runtime::law_discard_takes_the_file_under_the_cursor(m, section, index);
    lemma_discard(m, key, now);
}

proof fn lemma_discard(m: AppModel, key: KeyEvent, now: u64)
    requires
        to_list(m, key),
        key.code == KeyCode::Char('D'),
    ensures
        m.key(key, now) == m.discard_selected(),
{
    law_list_keys_disarm(m, key, now);
}

/// `D` does nothing away from files.
pub proof fn law_discard_key_elsewhere(m: AppModel, key: KeyEvent, now: u64)
    requires
        m.sidebar.focus == GitSidebarFocus::List,
        key.code == KeyCode::Char('D'),
        crate::laws_runtime::on_no_entry(m.sidebar) || crate::laws_list::in_group(
            m.sidebar,
            GitSection::Commits,
            m.sidebar.selected_index,
        ),
    ensures
        m.key(key, now) == (m, None::<EffectModel>),
{
    crate::laws_runtime::law_only_files_are_staged_or_discarded(m);
    lemma_discard(m, key, now);
}

/// Whether the list has something to do for a key.
pub open spec fn is_list_key(code: KeyCode) -> bool {
    ||| code == KeyCode::Up || code == KeyCode::Down || code == KeyCode::PageUp || code
        == KeyCode::PageDown || code == KeyCode::Home || code == KeyCode::End
    ||| code == KeyCode::Left || code == KeyCode::Right || code == KeyCode::Enter
    ||| code == KeyCode::Esc || code == KeyCode::Tab || code == KeyCode::BackTab
    ||| code == KeyCode::Char('k') || code == KeyCode::Char('j') || code == KeyCode::Char('g')
        || code == KeyCode::Char('G') || code == KeyCode::Char('h') || code == KeyCode::Char('l')
    ||| code == KeyCode::Char(' ') || code == KeyCode::Char('s') || code == KeyCode::Char('a')
        || code == KeyCode::Char('u') || code == KeyCode::Char('c') || code == KeyCode::Char('D')
        || code == KeyCode::Char('r')
}

/// Every other key does nothing in the list but disarm the discard.
pub proof fn law_unbound_keys_of_the_list(m: AppModel, key: KeyEvent, now: u64)
    requires
        m.sidebar.focus == GitSidebarFocus::List,
        !is_list_key(key.code),
    ensures
        m.key(key, now) == (disarmed(m), None::<EffectModel>),
{
    lemma_unbound(m, key, now);
    lemma_acted(m, key, now, m, None);
}

proof fn lemma_unbound(m: AppModel, key: KeyEvent, now: u64)
    requires
        !is_list_key(key.code),
    ensures
        m.sidebar.browse(key, m.page()) is None,
        m.act(key, now) == (m, None::<EffectModel>),
{
}

/// Whether two panels describe the same repository.
pub open spec fn same_repository(a: SidebarModel, b: SidebarModel) -> bool {
    &&& a.repo_root == b.repo_root
    &&& a.repo_name == b.repo_name
    &&& a.branch == b.branch
    &&& a.merge_files == b.merge_files
    &&& a.staged_files == b.staged_files
    &&& a.unstaged_files == b.unstaged_files
    &&& a.untracked_files == b.untracked_files
    &&& a.recent_commits == b.recent_commits
}

/// Whether a program is at the same directory, and describes the same
/// repository as before or none.
pub open spec fn no_other_repository(m: AppModel, after: AppModel) -> bool {
    &&& crate::laws_runtime::directory(after) == crate::laws_runtime::directory(m)
    &&& crate::laws_runtime::is_bare(after.sidebar) || same_repository(m.sidebar, after.sidebar)
}

/// Keys never bring in a repository: the root, the name, the branch and the
/// entries stay, or are all dropped with the directory that was left.
pub proof fn law_keys_bring_in_no_repository(m: AppModel, key: KeyEvent, now: u64)
    ensures
        no_other_repository(m, m.key(key, now).0),
{
    if key.code == KeyCode::Esc {
        law_escape(m, key, now);
    } else if key.code == KeyCode::Tab || key.code == KeyCode::BackTab {
        law_tab(m, key, now);
    } else if key.code == KeyCode::Enter && key.spec_ctrl() {
        lemma_commit_keeps_repository(m);
    } else if m.sidebar.focus == GitSidebarFocus::Message {
        lemma_commit_keeps_repository(m);
        lemma_edit_keeps_repository(m.sidebar, key);
    } else {
        lemma_list_command_keeps_repository(m, key, now);
    }
}

proof fn lemma_list_command_keeps_repository(m: AppModel, key: KeyEvent, now: u64)
    ensures
        no_other_repository(m, m.list_command(key, now).0),
{
    lemma_browse_keeps_repository(m.sidebar, key, m.page());
    lemma_act_keeps_repository(m, key, now);
}

proof fn lemma_edit_keeps_repository(s: SidebarModel, key: KeyEvent)
    ensures
        same_repository(s, s.edit(key)),
{
}

proof fn lemma_browse_keeps_repository(s: SidebarModel, key: KeyEvent, page: int)
    ensures
        s.browse(key, page) matches Some(after) ==> same_repository(s, after),
{
    let code = key.code;
    if code == KeyCode::Left || code == KeyCode::Char('h') {
        lemma_fold_key(s, key, page, true);
        lemma_collapse_keeps_repository(s, true);
    } else if code == KeyCode::Right || code == KeyCode::Char('l') {
        lemma_fold_key(s, key, page, false);
        lemma_collapse_keeps_repository(s, false);
    } else {
        lemma_select_keeps_repository(s);
        lemma_other_browsing(s, key, page);
    }
}

proof fn lemma_other_browsing(s: SidebarModel, key: KeyEvent, page: int)
    requires
        key.code != KeyCode::Left && key.code != KeyCode::Char('h'),
        key.code != KeyCode::Right && key.code != KeyCode::Char('l'),
    ensures
        s.browse(key, page) matches Some(after) ==> exists|index: int|
            after == #[trigger] s.select(index),
{
}

proof fn lemma_select_keeps_repository(s: SidebarModel)
    ensures
        forall|index: int| same_repository(s, #[trigger] s.select(index)),
{
}

proof fn lemma_collapse_keeps_repository(s: SidebarModel, collapsed: bool)
    ensures
        same_repository(s, s.collapse_selected(collapsed)),
{
}

proof fn lemma_act_keeps_repository(m: AppModel, key: KeyEvent, now: u64)
    ensures
        no_other_repository(m, m.act(key, now).0),
{
    lemma_selected_keeps_repository(m);
    lemma_tick_keeps_repository(m, now);
}

proof fn lemma_selected_keeps_repository(m: AppModel)
    ensures
        no_other_repository(m, m.toggle_selected().0),
        no_other_repository(m, m.discard_selected().0),
{
}

proof fn lemma_tick_keeps_repository(m: AppModel, now: u64)
    ensures
        no_other_repository(
            m,
            m.with_sidebar(m.sidebar.request_refresh()).refresh_if_due(now).0,
        ),
{
}

proof fn lemma_commit_keeps_repository(m: AppModel)
    ensures
        no_other_repository(m, m.commit().0),
{
}

/// Where an effect runs, if it runs somewhere.
pub open spec fn runs_at(effect: Option<EffectModel>) -> Option<Seq<char>> {
    match effect {
        Some(EffectModel::SpawnAction { repo_root, .. }) => Some(repo_root),
        Some(EffectModel::OpenPopup { repo_root, .. }) => Some(repo_root),
        _ => None,
    }
}

/// Whatever a key starts runs at the root that the panel knows, or else in
/// the directory of the workspace.
pub proof fn law_keys_run_at_the_root(m: AppModel, key: KeyEvent, now: u64)
    ensures
        runs_at(m.key(key, now).1) is Some ==> runs_at(m.key(key, now).1) == crate::laws_runtime::place(m),
{
    if to_list(m, key) {
        law_list_keys_disarm(m, key, now);
        lemma_act_runs_at_the_root(m, key, now);
    } else {
        lemma_commit_runs_at_the_root(m);
    }
}

proof fn lemma_act_runs_at_the_root(m: AppModel, key: KeyEvent, now: u64)
    ensures
        runs_at(m.act(key, now).1) is Some ==> runs_at(m.act(key, now).1) == crate::laws_runtime::place(m),
{
}

proof fn lemma_commit_runs_at_the_root(m: AppModel)
    ensures
        runs_at(m.commit().1) is Some ==> runs_at(m.commit().1) == crate::laws_runtime::place(m),
{
}

/// After a switch to another directory, until a probe of it is adopted, every
/// command and popup runs in the new directory, and the title names no
/// repository.
pub proof fn law_after_a_switch_nothing_acts_on_the_old_repository(
    m: AppModel,
    now: u64,
    dir: Seq<char>,
    key: KeyEvent,
    later: u64,
    action: ActionModel,
)
    requires
        !m.git_sidebar_closed,
        crate::laws_runtime::directory(m) == Some(dir),
        !crate::laws_runtime::describes(m, dir),
    ensures
        ({
            let left = m.refresh_if_due(now).0;
            &&& crate::laws_runtime::place(left) == Some(dir)
            &&& left.panel_title() == " SOURCE CONTROL "@
            &&& runs_at(left.key(key, later).1) is Some ==> runs_at(left.key(key, later).1) == Some(
                dir,
            )
            &&& crate::laws_runtime::place(left.key(key, later).0) == Some(dir)
            &&& left.run_action(action).1 is Some ==> left.run_action(action).1 == Some(
                EffectModel::SpawnAction { repo_root: dir, action },
            )
        }),
{
    crate::laws_runtime::law_switch_drops_the_old_repository(m, now, dir);
    let left = m.refresh_if_due(now).0;
    law_keys_run_at_the_root(left, key, later);
    law_keys_bring_in_no_repository(left, key, later);
}

/// The panel goes without a repository, and stays in its directory, until a
/// probe is adopted: ticks, outcomes and late probes bring none in.
pub proof fn law_only_probes_bring_in_a_repository(
    m: AppModel,
    now: u64,
    error: Option<Seq<char>>,
    message: Option<Seq<char>>,
    late: crate::git_sidebar::SnapshotModel,
)
    requires
        m.sidebar.repo_root is None,
    ensures
        m.refresh_if_due(now).0.sidebar.repo_root is None,
        m.action_complete(error, message).sidebar.repo_root is None,
        m.finish_popup(error).sidebar.repo_root is None,
        !crate::laws_runtime::describes(m, late.cwd) ==> m.finish_refresh(
            late,
            m.is_current(late),
        ).0.sidebar.repo_root is None,
{
}

} // verus!
