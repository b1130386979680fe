//! What is drawn, and where, told by what the panel holds.

use crate::geometry::Rect;
use crate::git_sidebar::{CommitModel, FileModel, GitFileStatusKind};
use crate::render::{ItemModel, PaletteColor, Style};
use crate::runtime::{AppModel, Mode};
use vstd::prelude::*;

verus! {

/// The background of what has the number `n`: the commit box is 0, and the
/// files and commits that are drawn follow from the top, without the headers.
pub open spec fn shade(m: AppModel, n: int) -> PaletteColor {
    if m.mode == Mode::GitSidebar && m.sidebar.selected_index == n {
        PaletteColor::SurfaceDim
    } else {
        PaletteColor::SidebarBg
    }
}

/// Whether a line is that of a file: two spaces, the letter of its status in
/// the colour of its group, and its path.
pub open spec fn draws_file(
    line: ItemModel,
    file: FileModel,
    color: PaletteColor,
    bg: PaletteColor,
) -> bool {
    &&& line.style == (Style { fg: None, bg: Some(bg), bold: false })
    &&& line.spans.len() == 3
    &&& line.spans[0].content == "  "@
    &&& line.spans[0].style == (Style { fg: None, bg: None, bold: false })
    &&& line.spans[1].content == (match file.status {
        GitFileStatusKind::Added => "A"@,
        GitFileStatusKind::Deleted => "D"@,
        GitFileStatusKind::Modified => "M"@,
        GitFileStatusKind::Renamed => "R"@,
        GitFileStatusKind::Untracked => "U"@,
    }) + " "@
    &&& line.spans[1].style == (Style { fg: Some(color), bg: Some(bg), bold: false })
    &&& line.spans[2].content == file.path
    &&& line.spans[2].style == (Style { fg: Some(PaletteColor::Text), bg: Some(bg), bold: false })
}

/// Whether a line is that of a commit: two spaces, its graph, its hash and
/// its subject, with spaces in between.
pub open spec fn draws_commit(line: ItemModel, commit: CommitModel, bg: PaletteColor) -> bool {
    &&& line.style == (Style { fg: None, bg: Some(bg), bold: false })
    &&& line.spans.len() == 6
    &&& line.spans[0].content == "  "@
    &&& line.spans[0].style == (Style { fg: None, bg: None, bold: false })
    &&& line.spans[1].content == commit.graph_columns
    &&& line.spans[1].style == (Style {
        fg: Some(PaletteColor::Overlay0),
        bg: Some(bg),
        bold: false,
    })
    &&& line.spans[2].content == " "@
    &&& line.spans[2].style == (Style { fg: None, bg: None, bold: false })
    &&& line.spans[3].content == commit.hash
    &&& line.spans[3].style == (Style { fg: Some(PaletteColor::Yellow), bg: Some(bg), bold: false })
    &&& line.spans[4].content == " "@
    &&& line.spans[4].style == (Style { fg: None, bg: None, bold: false })
    &&& line.spans[5].content == commit.subject
    &&& line.spans[5].style == (Style { fg: Some(PaletteColor::Text), bg: Some(bg), bold: false })
}

/// Whether a line is a header: a mark and a label, both bold.
pub open spec fn draws_header(line: ItemModel, label: Seq<char>) -> bool {
    &&& line.style == (Style { fg: None, bg: None, bold: false })
    &&& line.spans.len() == 2
    &&& line.spans[0].content == "? "@
    &&& line.spans[0].style == (Style { fg: None, bg: None, bold: true })
    &&& line.spans[1].content == label
    &&& line.spans[1].style == (Style { fg: None, bg: None, bold: true })
}

/// Whether a line is one text in one foreground colour, or in none.
pub open spec fn draws_text(line: ItemModel, text: Seq<char>, fg: Option<PaletteColor>) -> bool {
    &&& line.style == (Style { fg: None, bg: None, bold: false })
    &&& line.spans.len() == 1
    &&& line.spans[0].content == text
    &&& line.spans[0].style == (Style { fg, bg: None, bold: false })
}

/// How many lines a group of files takes on the screen.
pub open spec fn lines_of(count: nat, collapsed: bool) -> int {
    if count == 0 {
        0
    } else if collapsed {
        1
    } else {
        1 + count as int
    }
}

/// How many entries of a group are drawn.
pub open spec fn drawn_of(count: nat, collapsed: bool) -> int {
    if collapsed {
        0
    } else {
        count as int
    }
}

/// A panel is drawn wherever the area is not empty, under a title that names
/// the repository and the branch, if a repository is known.
pub proof fn law_panel_and_title(m: AppModel, area: Rect)
    ensures
        m.panel(area) is Some <==> area.width > 0 && area.height > 0,
        m.panel(area) matches Some(panel) ==> {
            &&& panel.area == area
            &&& panel.style == (Style {
                fg: Some(PaletteColor::Text),
                bg: Some(PaletteColor::SidebarBg),
                bold: false,
            })
            &&& panel.title == (if m.sidebar.repo_name.len() == 0 {
                " SOURCE CONTROL "@
            } else {
                " SOURCE CONTROL: "@ + m.sidebar.repo_name + " ("@ + m.sidebar.branch + ") "@
            })
        },
{
}

/// The commit box shows the message, or in its place what the box is for.
pub proof fn law_commit_box(m: AppModel, area: Rect)
    requires
        area.width > 0 && area.height > 0,
    ensures
        ({
            let panel = m.panel(area)->0;
            let empty = m.sidebar.commit_message.len() == 0;
            &&& panel.message.content == (if empty {
                "Message (Enter to commit)"@
            } else {
                m.sidebar.commit_message
            })
            &&& panel.message.style == (Style {
                fg: Some(
                    if empty {
                        PaletteColor::Overlay0
                    } else {
                        PaletteColor::Text
                    },
                ),
                bg: Some(shade(m, 0)),
                bold: false,
            })
            &&& panel.message_border == (Style {
                fg: Some(PaletteColor::SurfaceDim),
                bg: None,
                bold: false,
            })
        }),
{
}

/// The list of changes has the staged files under their header and then the
/// unstaged ones under theirs, each in the order of the panel's own list and
/// with its count, and a folded group has its header alone.
pub proof fn law_changes_are_drawn_in_order(m: AppModel, area: Rect, i: int)
    requires
        area.width > 0 && area.height > 0,
    ensures
        ({
            let s = m.sidebar;
            let items = m.panel(area)->0.changes.items;
            let staged = lines_of(s.staged_files.len(), s.section_collapsed_staged);
            let unstaged = lines_of(s.unstaged_files.len(), s.section_collapsed_changes);
            let shown = drawn_of(s.staged_files.len(), s.section_collapsed_staged);
            &&& staged + unstaged > 0 ==> items.len() == staged + unstaged
            &&& staged > 0 ==> draws_header(
                items[0],
                "Staged Changes"@ + " ("@ + crate::text::decimal(s.staged_files.len()) + ")"@,
            )
            &&& 0 <= i < staged - 1 ==> draws_file(
                items[1 + i],
                s.staged_files[i],
                PaletteColor::Green,
                shade(m, 1 + i),
            )
            &&& unstaged > 0 ==> draws_header(
                items[staged],
                "Changes"@ + " ("@ + crate::text::decimal(s.unstaged_files.len()) + ")"@,
            )
            &&& 0 <= i < unstaged - 1 ==> draws_file(
                items[staged + 1 + i],
                s.unstaged_files[i],
                PaletteColor::Yellow,
                shade(m, 1 + shown + i),
            )
        }),
{
}

/// Where no file is staged or unstaged there is one line: that a probe is
/// out, else what went wrong, else that there are no changes.
pub proof fn law_missing_changes_are_explained(m: AppModel, area: Rect)
    requires
        area.width > 0 && area.height > 0,
        m.sidebar.staged_files.len() == 0,
        m.sidebar.unstaged_files.len() == 0,
    ensures
        ({
            let items = m.panel(area)->0.changes.items;
            &&& items.len() == 1
            &&& if m.sidebar.is_refreshing {
                draws_text(items[0], "Refreshing..."@, None)
            } else if m.sidebar.error_message is Some {
                draws_text(items[0], m.sidebar.error_message->0, Some(PaletteColor::Red))
            } else {
                draws_text(items[0], "No changes"@, Some(PaletteColor::Overlay0))
            }
        }),
{
}

/// The list of commits has the commits under their header, in the order of
/// the panel's own list, and the header alone where they are folded.
pub proof fn law_commits_are_drawn_in_order(m: AppModel, area: Rect, i: int)
    requires
        m.panel(area) is Some,
        m.panel(area)->0.commits is Some,
    ensures
        ({
            let s = m.sidebar;
            let items = m.panel(area)->0.commits->0.items;
            let lines = lines_of(s.recent_commits.len(), s.section_collapsed_commits);
            let shown = drawn_of(s.staged_files.len(), s.section_collapsed_staged) + drawn_of(
                s.unstaged_files.len(),
                s.section_collapsed_changes,
            );
            &&& items.len() == lines
            &&& lines > 0 ==> draws_header(items[0], "Commits"@)
            &&& 0 <= i < lines - 1 ==> draws_commit(
                items[1 + i],
                s.recent_commits[i],
                shade(m, 1 + shown + i),
            )
        }),
{
}

/// The number that a text of decimal digits writes.
pub open spec fn written_number(digits: Seq<char>) -> int
    decreases digits.len(),
{
    if digits.len() == 0 {
        0
    } else {
        10 * written_number(digits.drop_last()) + (digits.last() as int - '0' as int)
    }
}

/// A number is written by its decimal digits, without a needless zero.
pub proof fn law_decimal_digits(n: nat)
    ensures
        written_number(crate::text::decimal(n)) == n,
        crate::text::decimal(n).len() > 0,
        forall|i: int|
            0 <= i < crate::text::decimal(n).len() ==> '0' <= #[trigger] crate::text::decimal(n)[i]
                <= '9',
        crate::text::decimal(n)[0] == '0' ==> n == 0,
        n == 0 ==> crate::text::decimal(n).len() == 1,
    decreases n,
{
    let d = crate::text::decimal(n);
    reveal_with_fuel(written_number, 2);
    if n < 10 {
        assert(d.drop_last() =~= Seq::empty());
    } else {
        law_decimal_digits(n / 10);
        assert(d.drop_last() =~= crate::text::decimal(n / 10));
    }
}

/// An area is split only if it has seven rows or more.  The changes then get
/// the upper half, rounded up, the divider the row below, and the commits
/// what is left, as far as there are coordinates.
pub proof fn law_split_of_an_area(area: Rect)
    requires
        area.height < 7 || area.y + (area.height + 1) / 2 < u16::MAX,
    ensures
        ({
            let (changes, divider, commits) = crate::geometry::sections_of(area);
            let upper = (area.height + 1) / 2;
            let room_x = u16::MAX - area.x;
            if area.height < 7 {
                &&& changes == area
                &&& divider is None
                &&& commits == (Rect { x: 0, y: 0, width: 0, height: 0 })
            } else {
                &&& changes.x == area.x && changes.y == area.y
                &&& changes.height == upper
                &&& divider matches Some(y) && y == area.y + upper
                &&& commits.x == area.x && commits.y == area.y + upper + 1
                &&& commits.height == (if area.y + area.height <= u16::MAX {
                    area.height - upper - 1
                } else {
                    u16::MAX - (area.y + upper + 1)
                })
                &&& changes.width == commits.width
                &&& changes.width == (if area.width <= room_x {
                    area.width as int
                } else {
                    room_x
                })
            }
        }),
{
}

/// The panel takes its first column for the border and its first row for the
/// title.  Of the rows below, the changes get all if they are fewer than
/// seven, else the upper half, rounded up; the commit box takes the first
/// three of these, and the list of changes the others.  The commits get what
/// is left below the divider, if anything.
pub proof fn law_places_of_the_parts(m: AppModel, area: Rect)
    requires
        area.width > 0 && area.height > 0,
        area.x + area.width <= u16::MAX,
        area.y + area.height <= u16::MAX,
    ensures
        ({
            let panel = m.panel(area)->0;
            let rows = area.height - 1;
            let upper = if rows < 7 {
                rows
            } else {
                (rows + 1) / 2
            };
            let head = if upper < 3 {
                upper
            } else {
                3
            };
            &&& panel.message_area.x == area.x + 1
            &&& panel.message_area.y == area.y + 1
            &&& panel.message_area.width == area.width - 1
            &&& panel.message_area.height == head
            &&& panel.changes.area.x == area.x + 1
            &&& panel.changes.area.y == area.y + 1 + head
            &&& panel.changes.area.width == area.width - 1
            &&& panel.changes.area.height == upper - head
            &&& panel.commits is Some <==> rows >= 7
            &&& panel.commits matches Some(commits) ==> {
                &&& commits.area.x == area.x + 1
                &&& commits.area.y == area.y + 1 + upper + 1
                &&& commits.area.width == area.width - 1
                &&& commits.area.height == rows - upper - 1
            }
        }),
{
}

/// Wherever the panel lies, its parts are cut from what the border and the
/// title leave: the commit box is the first three rows of the part for the
/// changes, and the lists take the rest of it and the part for the commits.
pub proof fn law_parts_are_cut_from_the_panel(m: AppModel, area: Rect)
    requires
        area.width > 0 && area.height > 0,
    ensures
        ({
            let panel = m.panel(area)->0;
            let (changes, _, commits) = crate::geometry::sections_of(
                crate::geometry::inside_titled_border(area),
            );
            &&& panel.message_area == crate::geometry::head_of(changes, 3)
            &&& panel.changes.area == crate::geometry::rest_of(changes, 3)
            &&& panel.commits is Some <==> commits.height > 0
            &&& panel.commits is Some ==> panel.commits->0.area == commits
        }),
{
}

/// The list that the keys page through is the list of changes as it is drawn.
pub proof fn law_list_area_is_drawn(m: AppModel, area: Rect)
    requires
        m.panel(area) is Some,
    ensures
        crate::geometry::changes_list(area) == m.panel(area)->0.changes.area,
{
}

/// The toggle takes the first cell of the last row, and is missing where there
/// is one column only, or no row.  The last coordinate has no cell.
pub proof fn law_cell_of_the_toggle(area: Rect)
    requires
        area.y + area.height - 1 <= u16::MAX,
    ensures
        ({
            let cell = crate::geometry::toggle_cell(area);
            if area.width >= 2 && area.height >= 1 {
                &&& cell.x == area.x
                &&& cell.y == area.y + area.height - 1
                &&& cell.width == (if cell.x < u16::MAX {
                    1int
                } else {
                    0
                })
                &&& cell.height == (if cell.y < u16::MAX {
                    1int
                } else {
                    0
                })
            } else {
                cell == (Rect { x: 0, y: 0, width: 0, height: 0 })
            }
        }),
{
}

/// The toggle points right in a collapsed panel and left in an expanded one.
pub proof fn law_toggle_points(collapsed: bool)
    ensures
        crate::render::toggle_icon(collapsed).len() == 1,
        crate::render::toggle_icon(collapsed)[0] == (if collapsed {
            '>'
        } else {
            '<'
        }),
{
    reveal_strlit(">");
    reveal_strlit("<");
}

/// A collapsed panel has a bar in every row of its first column and, where
/// there is room for both, an `S` over a `C` beside it, from the second row
/// on; nothing else.
pub proof fn law_collapsed_panel(area: Rect, i: int)
    requires
        area.y + area.height <= u16::MAX,
        area.x < u16::MAX,
    ensures
        ({
            let cells = crate::render::collapsed_cells(area);
            let letters = area.height >= 3 && area.width >= 3;
            &&& cells.len() == area.height + (if letters {
                2int
            } else {
                0
            })
            &&& 0 <= i < area.height ==> {
                &&& cells[i].x == area.x && cells[i].y == area.y + i
                &&& cells[i].symbol == '\u{a6}'
                &&& cells[i].style == (Style {
                    fg: Some(PaletteColor::SurfaceDim),
                    bg: None,
                    bold: false,
                })
            }
            &&& letters && area.height <= i < area.height + 2 ==> {
                &&& cells[i].x == area.x + 1
                &&& cells[i].y == area.y + 1 + (i - area.height)
                &&& cells[i].symbol == (if i == area.height {
                    'S'
                } else {
                    'C'
                })
                &&& cells[i].style == (Style {
                    fg: Some(PaletteColor::Text),
                    bg: None,
                    bold: false,
                })
            }
        }),
{
}

/// The styles are what their names say.
pub proof fn law_styles(fg: PaletteColor, bg: PaletteColor)
    ensures
        Style::spec_plain() == (Style { fg: None, bg: None, bold: false }),
        Style::spec_bold() == (Style { fg: None, bg: None, bold: true }),
        Style::spec_fg(fg) == (Style { fg: Some(fg), bg: None, bold: false }),
        Style::spec_bg(bg) == (Style { fg: None, bg: Some(bg), bold: false }),
        Style::spec_colors(fg, bg) == (Style { fg: Some(fg), bg: Some(bg), bold: false }),
{
}

} // verus!
