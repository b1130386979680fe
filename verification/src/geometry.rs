//! Where the parts of the panel lie on the screen.

use vstd::prelude::*;

verus! {

/// A rectangle of screen cells.
#[derive(Debug, Clone, Copy, PartialEq, Eq, Structural)]
pub struct Rect {
    pub x: u16,
    pub y: u16,
    pub width: u16,
    pub height: u16,
}

impl Default for Rect {
    fn default() -> (r: Rect)
        ensures
            r == Rect::zero(),
    {
        Rect { x: 0, y: 0, width: 0, height: 0 }
    }
}

/// `a - b`, or nothing where `b` is larger.
pub open spec fn less(a: u16, b: u16) -> u16 {
    if a >= b {
        (a - b) as u16
    } else {
        0
    }
}

/// The smaller of two numbers.
pub open spec fn least(a: int, b: int) -> int {
    if a <= b {
        a
    } else {
        b
    }
}

impl Rect {
    /// The rectangle at the origin that covers nothing.
    pub open spec fn zero() -> Rect {
        Rect { x: 0, y: 0, width: 0, height: 0 }
    }

    /// A rectangle cut off where the coordinates end.
    pub open spec fn clipped(x: u16, y: u16, width: u16, height: u16) -> Rect {
        Rect {
            x,
            y,
            width: least(width as int, u16::MAX - x) as u16,
            height: least(height as int, u16::MAX - y) as u16,
        }
    }

    /// The first row below the rectangle, as far as the coordinates go.
    pub open spec fn bottom(self) -> int {
        least(self.y + self.height, u16::MAX as int)
    }

    /// The first column right of the rectangle, as far as the coordinates go.
    pub open spec fn right(self) -> int {
        least(self.x + self.width, u16::MAX as int)
    }

    /// Whether the cell at column `x` and row `y` lies in the rectangle.
    pub open spec fn covers(self, x: int, y: int) -> bool {
        &&& self.x <= x < self.x + self.width
        &&& self.y <= y < self.y + self.height
    }
}

/// Calls `Rect::new` of ratatui, which limits width and height so that both
/// far bounds stay within `u16`.
#[verifier::external_body]
pub(crate) fn clipped_rect(x: u16, y: u16, width: u16, height: u16) -> (r: Rect)
    ensures
        r == Rect::clipped(x, y, width, height),
{
    let r = ratatui::layout::Rect::new(x, y, width, height);
    Rect { x: r.x, y: r.y, width: r.width, height: r.height }
}

/// What a left border and a title row leave of an area.
pub open spec fn inside_titled_border(area: Rect) -> Rect {
    Rect {
        x: least(area.x + 1, area.right()) as u16,
        y: least(area.y + 1, area.bottom()) as u16,
        width: less(area.width, 1),
        height: less(area.height, 1),
    }
}

/// Calls `Block::inner` of ratatui for a block with a left border and a title.
/// The border takes the first column and the title, whatever it says, the
/// first row, as far as the area has them.
#[verifier::external_body]
pub(crate) fn titled_block_inner(title: &str, area: Rect) -> (r: Rect)
    ensures
        r == inside_titled_border(area),
{
    let r = ratatui::widgets::Block::default()
        .borders(ratatui::widgets::Borders::LEFT)
        .title(title)
        .inner(ratatui::layout::Rect { x: area.x, y: area.y, width: area.width, height: area.height });
    Rect { x: r.x, y: r.y, width: r.width, height: r.height }
}

/// The rows that the first part of a split gets: its length, if there are as
/// many.
pub open spec fn head_height(area: Rect, length: u16) -> int {
    least(length as int, area.bottom() - area.y)
}

/// The first `length` rows of `area`.
pub open spec fn head_of(area: Rect, length: u16) -> Rect {
    Rect { x: area.x, y: area.y, width: area.width, height: head_height(area, length) as u16 }
}

/// What the first `length` rows leave of `area`.
pub open spec fn rest_of(area: Rect, length: u16) -> Rect {
    Rect {
        x: area.x,
        y: (area.y + head_height(area, length)) as u16,
        width: area.width,
        height: (area.bottom() - area.y - head_height(area, length)) as u16,
    }
}

/// Calls `Layout::split` of ratatui for a vertical layout of a part with a
/// fixed length and a part of at least no rows.  The first part gets its
/// length, or all rows where there are fewer, and the second part the rest.
#[verifier::external_body]
pub(crate) fn split_off_head(area: Rect, length: u16) -> (r: (Rect, Rect))
    ensures
        r.0 == head_of(area, length),
        r.1 == rest_of(area, length),
{
    let parts = ratatui::layout::Layout::vertical([
        ratatui::layout::Constraint::Length(length),
        ratatui::layout::Constraint::Min(0),
    ]).split(ratatui::layout::Rect { x: area.x, y: area.y, width: area.width, height: area.height });
    (
        Rect { x: parts[0].x, y: parts[0].y, width: parts[0].width, height: parts[0].height },
        Rect { x: parts[1].x, y: parts[1].y, width: parts[1].width, height: parts[1].height },
    )
}

/// The first cell of the last row of a panel that has room beside its border.
pub open spec fn toggle_cell(area: Rect) -> Rect {
    if area.width <= 1 || area.height == 0 {
        Rect::zero()
    } else {
        Rect::clipped(area.x, (area.y + less(area.height, 1)) as u16, 1, 1)
    }
}

/// The cell of the toggle in a collapsed panel: the first cell of its last
/// row.  A panel without content has none.
pub fn collapsed_git_sidebar_toggle_rect(area: Rect) -> (r: Rect)
    requires
        area.y + less(area.height, 1) <= u16::MAX,
    ensures
        r == toggle_cell(area),
{
    let bottom_y: u16 = area.y + area.height.saturating_sub(1);
    let content_w: u16 = area.width.saturating_sub(1);
    if content_w == 0 || area.height == 0 {
        return Rect::default();
    }
    clipped_rect(area.x, bottom_y, 1, 1)
}

/// The cell of the toggle in an expanded panel: the first cell of its last
/// row.  A panel without content has none.
pub fn expanded_git_sidebar_toggle_rect(area: Rect) -> (r: Rect)
    requires
        area.width > 1 && area.height > 0 ==> area.y + area.height - 1 <= u16::MAX,
    ensures
        r == toggle_cell(area),
{
    if area.width <= 1 || area.height == 0 {
        return Rect::default();
    }
    clipped_rect(area.x, area.y + area.height.saturating_sub(1), 1, 1)
}

/// The rows that the changes get of `height`: half, rounded up.
pub open spec fn changes_height(height: u16) -> int {
    (height as int + 1) / 2
}

/// Whether the divider of a split and the row below it have coordinates.
pub open spec fn splits(area: Rect) -> bool {
    area.height < 7 || area.y + changes_height(area.height) + 1 <= u16::MAX
}

/// The part of `area` for the changes, the row of the divider, and the part
/// for the commits.
pub open spec fn sections_of(area: Rect) -> (Rect, Option<u16>, Rect) {
    if area.height < 7 {
        (area, None, Rect::zero())
    } else {
        let divider = area.y + changes_height(area.height);
        (
            Rect::clipped(area.x, area.y, area.width, changes_height(area.height) as u16),
            Some(divider as u16),
            Rect::clipped(
                area.x,
                (divider + 1) as u16,
                area.width,
                (area.height - changes_height(area.height) - 1) as u16,
            ),
        )
    }
}

/// Splits the panel between the changes and the commits, with a divider row
/// in between.  A low panel is left to the changes alone.
pub fn split_git_sidebar_sections(area: Rect) -> (r: (Rect, Option<u16>, Rect))
    requires
        splits(area),
    ensures
        r == sections_of(area),
{
    if area.height < 7 {
        return (area, None, Rect::default());
    }
    let total_h: u16 = area.height;
    let changes_h: u16 = total_h / 2 + total_h % 2;
    let commits_h: u16 = total_h - changes_h - 1;

    let divider_y: u16 = area.y + changes_h;
    let changes_area = clipped_rect(area.x, area.y, area.width, changes_h);
    let commits_area = clipped_rect(area.x, divider_y + 1, area.width, commits_h);
    (changes_area, Some(divider_y), commits_area)
}

/// The rows that the box with the commit message takes.
pub const MESSAGE_BOX_HEIGHT: u16 = 3;

/// Whether every part of a panel at `area` has coordinates.
pub open spec fn panel_fits(area: Rect) -> bool {
    splits(inside_titled_border(area))
}

/// The part of a panel for the commit box and the changes.
pub open spec fn changes_part(area: Rect) -> Rect {
    sections_of(inside_titled_border(area)).0
}

/// The part of a panel for the commits.
pub open spec fn commits_part(area: Rect) -> Rect {
    sections_of(inside_titled_border(area)).2
}

/// Where the commit box of a panel lies.
pub open spec fn message_box(area: Rect) -> Rect {
    head_of(changes_part(area), MESSAGE_BOX_HEIGHT)
}

/// Where the list of changes of a panel lies.
pub open spec fn changes_list(area: Rect) -> Rect {
    rest_of(changes_part(area), MESSAGE_BOX_HEIGHT)
}

/// Where the list of changes of a panel lies.
pub fn git_sidebar_list_rect(area: Rect) -> (r: Rect)
    requires
        panel_fits(area),
    ensures
        r == changes_list(area),
{
    let inner = titled_block_inner(" SOURCE CONTROL ", area);
    let (changes, _, _) = split_git_sidebar_sections(inner);
    let (_, list) = split_off_head(changes, MESSAGE_BOX_HEIGHT);
    list
}

} // verus!
