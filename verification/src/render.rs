//! What the panel looks like: the texts, colours and places of everything
//! that is to be drawn.

use crate::geometry::Rect;
use crate::git_sidebar::{
    CommitModel, FileModel, GitCommitGraphEntry, GitFileStatus, GitFileStatusKind, GitSidebarState,
    SidebarModel,
};
use crate::runtime::{AppModel, AppState, Mode};
use vstd::prelude::*;

verus! {

/// The colours of the palette that the panel uses.
#[derive(Debug, Clone, Copy, PartialEq, Eq, Structural)]
pub enum PaletteColor {
    Text,
    SidebarBg,
    SurfaceDim,
    Overlay0,
    Green,
    Yellow,
    Red,
}

/// How something is drawn.  What is missing is left as it is.
#[derive(Debug, Clone, Copy, PartialEq, Eq, Structural)]
pub struct Style {
    pub fg: Option<PaletteColor>,
    pub bg: Option<PaletteColor>,
    pub bold: bool,
}

impl Style {
    /// A style that changes nothing.
    pub open spec fn spec_plain() -> Style {
        Style { fg: None, bg: None, bold: false }
    }

    /// A bold style.
    pub open spec fn spec_bold() -> Style {
        Style { fg: None, bg: None, bold: true }
    }

    /// A foreground colour alone.
    pub open spec fn spec_fg(fg: PaletteColor) -> Style {
        Style { fg: Some(fg), bg: None, bold: false }
    }

    /// A background colour alone.
    pub open spec fn spec_bg(bg: PaletteColor) -> Style {
        Style { fg: None, bg: Some(bg), bold: false }
    }

    /// Both colours.
    pub open spec fn spec_colors(fg: PaletteColor, bg: PaletteColor) -> Style {
        Style { fg: Some(fg), bg: Some(bg), bold: false }
    }

    /// A style that changes nothing.
    pub fn plain() -> (r: Style)
        ensures
            r == Style::spec_plain(),
    {
        Style { fg: None, bg: None, bold: false }
    }

    /// A bold style.
    pub fn bold() -> (r: Style)
        ensures
            r == Style::spec_bold(),
    {
        Style { fg: None, bg: None, bold: true }
    }

    /// A foreground colour alone.
    pub fn fg(fg: PaletteColor) -> (r: Style)
        ensures
            r == Style::spec_fg(fg),
    {
        Style { fg: Some(fg), bg: None, bold: false }
    }

    /// A background colour alone.
    pub fn bg(bg: PaletteColor) -> (r: Style)
        ensures
            r == Style::spec_bg(bg),
    {
        Style { fg: None, bg: Some(bg), bold: false }
    }

    /// Both colours.
    pub fn colors(fg: PaletteColor, bg: PaletteColor) -> (r: Style)
        ensures
            r == Style::spec_colors(fg, bg),
    {
        Style { fg: Some(fg), bg: Some(bg), bold: false }
    }
}

/// A piece of text in one style.
#[derive(Debug, Clone, PartialEq, Eq)]
pub struct Span {
    pub content: String,
    pub style: Style,
}

/// A `Span`, with its text as characters.
pub struct SpanModel {
    pub content: Seq<char>,
    pub style: Style,
}

impl View for Span {
    type V = SpanModel;

    open spec fn view(&self) -> SpanModel {
        SpanModel { content: self.content@, style: self.style }
    }
}

/// One line of a list.
#[derive(Debug, Clone, PartialEq, Eq)]
pub struct ListItem {
    pub spans: Vec<Span>,
    /// The style under the spans.
    pub style: Style,
}

/// A `ListItem`, with its texts as characters.
pub struct ItemModel {
    pub spans: Seq<SpanModel>,
    pub style: Style,
}

/// Spans, each by its view.
pub open spec fn span_models(spans: Seq<Span>) -> Seq<SpanModel> {
    spans.map_values(|s: Span| s@)
}

impl View for ListItem {
    type V = ItemModel;

    open spec fn view(&self) -> ItemModel {
        ItemModel { spans: span_models(self.spans@), style: self.style }
    }
}

/// Lines, each by its view.
pub open spec fn item_models(items: Seq<ListItem>) -> Seq<ItemModel> {
    items.map_values(|i: ListItem| i@)
}

/// A list at its place.
#[derive(Debug, Clone, PartialEq, Eq)]
pub struct ListView {
    pub area: Rect,
    pub items: Vec<ListItem>,
}

/// A `ListView`, with its texts as characters.
pub struct ListModel {
    pub area: Rect,
    pub items: Seq<ItemModel>,
}

impl View for ListView {
    type V = ListModel;

    open spec fn view(&self) -> ListModel {
        ListModel { area: self.area, items: item_models(self.items@) }
    }
}

/// The whole panel.
#[derive(Debug, Clone, PartialEq, Eq)]
pub struct SidebarView {
    /// Where the block with a left border and the title goes.
    pub area: Rect,
    pub title: String,
    pub style: Style,
    /// Where the box with the commit message goes, with a border all round.
    pub message_area: Rect,
    pub message: Span,
    pub message_border: Style,
    pub changes: ListView,
    /// The list of commits, if there is room for it.
    pub commits: Option<ListView>,
}

/// A `SidebarView`, with its texts as characters.
pub struct PanelModel {
    pub area: Rect,
    pub title: Seq<char>,
    pub style: Style,
    pub message_area: Rect,
    pub message: SpanModel,
    pub message_border: Style,
    pub changes: ListModel,
    pub commits: Option<ListModel>,
}

impl View for SidebarView {
    type V = PanelModel;

    open spec fn view(&self) -> PanelModel {
        PanelModel {
            area: self.area,
            title: self.title@,
            style: self.style,
            message_area: self.message_area,
            message: self.message@,
            message_border: self.message_border,
            changes: self.changes@,
            commits: match self.commits {
                Some(list) => Some(list@),
                None => None,
            },
        }
    }
}

/// The letter for what happened to a file.
pub open spec fn status_letter(status: GitFileStatusKind) -> Seq<char> {
    match status {
        GitFileStatusKind::Added => "A"@,
        GitFileStatusKind::Deleted => "D"@,
        GitFileStatusKind::Modified => "M"@,
        GitFileStatusKind::Renamed => "R"@,
        GitFileStatusKind::Untracked => "U"@,
    }
}

/// The line of a file.
pub open spec fn file_item(file: FileModel, color: PaletteColor, bg: PaletteColor) -> ItemModel {
    ItemModel {
        spans: seq![
            SpanModel { content: "  "@, style: Style::spec_plain() },
            SpanModel {
                content: status_letter(file.status) + " "@,
                style: Style::spec_colors(color, bg),
            },
            SpanModel {
                content: file.path,
                style: Style::spec_colors(PaletteColor::Text, bg),
            },
        ],
        style: Style::spec_bg(bg),
    }
}

/// The line of a commit.
pub open spec fn commit_item(commit: CommitModel, bg: PaletteColor) -> ItemModel {
    ItemModel {
        spans: seq![
            SpanModel { content: "  "@, style: Style::spec_plain() },
            SpanModel {
                content: commit.graph_columns,
                style: Style::spec_colors(PaletteColor::Overlay0, bg),
            },
            SpanModel { content: " "@, style: Style::spec_plain() },
            SpanModel {
                content: commit.hash,
                style: Style::spec_colors(PaletteColor::Yellow, bg),
            },
            SpanModel { content: " "@, style: Style::spec_plain() },
            SpanModel {
                content: commit.subject,
                style: Style::spec_colors(PaletteColor::Text, bg),
            },
        ],
        style: Style::spec_bg(bg),
    }
}

/// The line above the entries of a group: a mark, the same whether or not the
/// group is collapsed, and what the entries are.
pub open spec fn header_item(label: Seq<char>) -> ItemModel {
    ItemModel {
        spans: seq![
            SpanModel { content: "? "@, style: Style::spec_bold() },
            SpanModel { content: label, style: Style::spec_bold() },
        ],
        style: Style::spec_plain(),
    }
}

/// The label of a group of files: its name and how many it has.
pub open spec fn counted_label(name: Seq<char>, count: nat) -> Seq<char> {
    name + " ("@ + crate::text::decimal(count) + ")"@
}

/// A line of one span.
pub open spec fn single_item(content: Seq<char>, style: Style) -> ItemModel {
    ItemModel { spans: seq![SpanModel { content, style }], style: Style::spec_plain() }
}

impl AppModel {
    /// Whether position `index` is to be set off: the panel has the keys, and
    /// the position is selected.  The commit box is at position 0, and the
    /// files and commits that are shown count from 1 on.
    pub open spec fn is_highlighted(self, index: int) -> bool {
        self.mode == Mode::GitSidebar && self.sidebar.selected_index == index
    }

    /// The background at a position.
    pub open spec fn background(self, index: int) -> PaletteColor {
        if self.is_highlighted(index) {
            PaletteColor::SurfaceDim
        } else {
            PaletteColor::SidebarBg
        }
    }

    /// The lines of files that start at position `first`.
    pub open spec fn file_items(self, files: Seq<FileModel>, color: PaletteColor, first: int) -> Seq<
        ItemModel,
    > {
        Seq::new(files.len(), |i: int| file_item(files[i], color, self.background(first + i)))
    }

    /// The lines of a group of files: nothing where it has none, else its
    /// header and then, unless it is collapsed, its files.
    pub open spec fn group_items(
        self,
        name: Seq<char>,
        files: Seq<FileModel>,
        collapsed: bool,
        color: PaletteColor,
        first: int,
    ) -> Seq<ItemModel> {
        if files.len() == 0 {
            Seq::empty()
        } else {
            seq![header_item(counted_label(name, files.len()))] + (if collapsed {
                Seq::empty()
            } else {
                self.file_items(files, color, first)
            })
        }
    }

    /// The position after the staged files.
    pub open spec fn first_unstaged(self) -> int {
        if self.sidebar.section_collapsed_staged {
            1
        } else {
            1 + self.sidebar.staged_files.len() as int
        }
    }

    /// The position after the unstaged files.
    pub open spec fn first_commit(self) -> int {
        if self.sidebar.section_collapsed_changes {
            self.first_unstaged()
        } else {
            self.first_unstaged() + self.sidebar.unstaged_files.len() as int
        }
    }

    /// The lines of the staged and the unstaged files.
    pub open spec fn listed_changes(self) -> Seq<ItemModel> {
        self.group_items(
            "Staged Changes"@,
            self.sidebar.staged_files,
            self.sidebar.section_collapsed_staged,
            PaletteColor::Green,
            1,
        ) + self.group_items(
            "Changes"@,
            self.sidebar.unstaged_files,
            self.sidebar.section_collapsed_changes,
            PaletteColor::Yellow,
            self.first_unstaged(),
        )
    }

    /// The line that stands for missing changes: that a probe is out, what
    /// went wrong, or that there are none.
    pub open spec fn no_changes_item(self) -> ItemModel {
        if self.sidebar.is_refreshing {
            single_item("Refreshing..."@, Style::spec_plain())
        } else {
            match self.sidebar.error_message {
                Some(error) => single_item(error, Style::spec_fg(PaletteColor::Red)),
                None => single_item("No changes"@, Style::spec_fg(PaletteColor::Overlay0)),
            }
        }
    }

    /// The lines of the list of changes.
    pub open spec fn change_items(self) -> Seq<ItemModel> {
        if self.listed_changes().len() == 0 {
            seq![self.no_changes_item()]
        } else {
            self.listed_changes()
        }
    }

    /// The lines of the list of commits.
    pub open spec fn commit_items(self) -> Seq<ItemModel> {
        let commits = self.sidebar.recent_commits;
        if commits.len() == 0 {
            Seq::empty()
        } else {
            seq![header_item("Commits"@)] + (if self.sidebar.section_collapsed_commits {
                Seq::empty()
            } else {
                Seq::new(
                    commits.len(),
                    |i: int| commit_item(commits[i], self.background(self.first_commit() + i)),
                )
            })
        }
    }

    /// The title of the panel.
    pub open spec fn panel_title(self) -> Seq<char> {
        if self.sidebar.repo_name.len() == 0 {
            " SOURCE CONTROL "@
        } else {
            " SOURCE CONTROL: "@ + self.sidebar.repo_name + " ("@ + self.sidebar.branch + ") "@
        }
    }

    /// The text in the commit box: the message, or what the box is for.
    pub open spec fn message_span(self) -> SpanModel {
        if self.sidebar.commit_message.len() == 0 {
            SpanModel {
                content: "Message (Enter to commit)"@,
                style: Style::spec_colors(PaletteColor::Overlay0, self.background(0)),
            }
        } else {
            SpanModel {
                content: self.sidebar.commit_message,
                style: Style::spec_colors(PaletteColor::Text, self.background(0)),
            }
        }
    }

    /// The list of commits, if it has room.
    pub open spec fn commit_list(self, area: Rect) -> Option<ListModel> {
        if crate::geometry::commits_part(area).height > 0 {
            Some(
                ListModel {
                    area: crate::geometry::commits_part(area),
                    items: self.commit_items(),
                },
            )
        } else {
            None
        }
    }

    /// The panel at `area`.  There is none where the area is empty.
    pub open spec fn panel(self, area: Rect) -> Option<PanelModel> {
        if area.width == 0 || area.height == 0 {
            None
        } else {
            Some(
                PanelModel {
                    area,
                    title: self.panel_title(),
                    style: Style::spec_colors(PaletteColor::Text, PaletteColor::SidebarBg),
                    message_area: crate::geometry::message_box(area),
                    message: self.message_span(),
                    message_border: Style::spec_fg(PaletteColor::SurfaceDim),
                    changes: ListModel {
                        area: crate::geometry::changes_list(area),
                        items: self.change_items(),
                    },
                    commits: self.commit_list(area),
                },
            )
        }
    }
}

/// A piece of text in one style.
fn span(content: &str, style: Style) -> (r: Span)
    ensures
        r@ == (SpanModel { content: content@, style }),
{
    Span { content: content.to_owned(), style }
}

/// The line of a file.
fn render_file(file: &GitFileStatus, color: PaletteColor, bg: PaletteColor) -> (r: ListItem)
    ensures
        r@ == file_item(file@, color, bg),
{
    let letter = match file.status {
        GitFileStatusKind::Added => "A",
        GitFileStatusKind::Deleted => "D",
        GitFileStatusKind::Modified => "M",
        GitFileStatusKind::Renamed => "R",
        GitFileStatusKind::Untracked => "U",
    };
    let mut status = letter.to_owned();
    status.append(" ");
    let mut spans: Vec<Span> = Vec::new();
    spans.push(span("  ", Style::plain()));
    spans.push(span(status.as_str(), Style::colors(color, bg)));
    spans.push(span(file.path.as_str(), Style::colors(PaletteColor::Text, bg)));
    assert(span_models(spans@) =~= file_item(file@, color, bg).spans);
    ListItem { spans, style: Style::bg(bg) }
}

/// The characters of a graph, as a text.
fn graph_text(columns: &Vec<char>) -> (r: String)
    ensures
        r@ == columns@,
{
    let mut r = String::new();
    let mut i: usize = 0;
    while i < columns.len()
        invariant
            i <= columns@.len(),
            r@ == columns@.take(i as int),
        decreases columns@.len() - i,
    {
        let column = crate::text::char_text(columns[i]);
        r.append(column.as_str());
        i = i + 1;
    }
    r
}

/// The line of a commit.
fn render_commit(commit: &GitCommitGraphEntry, bg: PaletteColor) -> (r: ListItem)
    ensures
        r@ == commit_item(commit@, bg),
{
    let graph = graph_text(&commit.graph_columns);
    let mut spans: Vec<Span> = Vec::new();
    spans.push(span("  ", Style::plain()));
    spans.push(span(graph.as_str(), Style::colors(PaletteColor::Overlay0, bg)));
    spans.push(span(" ", Style::plain()));
    spans.push(span(commit.hash.as_str(), Style::colors(PaletteColor::Yellow, bg)));
    spans.push(span(" ", Style::plain()));
    spans.push(span(commit.subject.as_str(), Style::colors(PaletteColor::Text, bg)));
    assert(span_models(spans@) =~= commit_item(commit@, bg).spans);
    ListItem { spans, style: Style::bg(bg) }
}

/// The line above the entries of a group.
fn render_header(label: &str) -> (r: ListItem)
    ensures
        r@ == header_item(label@),
{
    let mut spans: Vec<Span> = Vec::new();
    spans.push(span("? ", Style::bold()));
    spans.push(span(label, Style::bold()));
    assert(span_models(spans@) =~= header_item(label@).spans);
    ListItem { spans, style: Style::plain() }
}

/// A line of one span.
fn render_single(content: &str, style: Style) -> (r: ListItem)
    ensures
        r@ == single_item(content@, style),
{
    let mut spans: Vec<Span> = Vec::new();
    spans.push(span(content, style));
    assert(span_models(spans@) =~= single_item(content@, style).spans);
    ListItem { spans, style: Style::plain() }
}

/// The label of a group of files.
fn render_label(name: &str, count: usize) -> (r: String)
    ensures
        r@ == counted_label(name@, count as nat),
{
    let mut r = name.to_owned();
    r.append(" (");
    let number = crate::text::decimal_text(count);
    r.append(number.as_str());
    r.append(")");
    r
}

/// Adding a line adds its view.
proof fn lemma_item_models_push(items: Seq<ListItem>, item: ListItem)
    ensures
        item_models(items.push(item)) == item_models(items).push(item@),
{
}

impl AppState {
    /// The background at a position.
    fn background(&self, index: u128) -> (r: PaletteColor)
        ensures
            r == self@.background(index as int),
    {
        if index == self.git_sidebar_state.selected_index as u128 && self.mode == Mode::GitSidebar {
            PaletteColor::SurfaceDim
        } else {
            PaletteColor::SidebarBg
        }
    }

    /// Adds the lines of a group of files, whose files start at position
    /// `first`.
    fn push_group(
        &self,
        items: &mut Vec<ListItem>,
        name: &str,
        files: &Vec<GitFileStatus>,
        collapsed: bool,
        color: PaletteColor,
        first: u128,
    )
        requires
            first <= 1 + usize::MAX,
        ensures
            item_models(final(items)@) == item_models(old(items)@) + self@.group_items(
                name@,
                crate::git_sidebar::file_models(files@),
                collapsed,
                color,
                first as int,
            ),
    {
        let ghost start = item_models(items@);
        let ghost models = crate::git_sidebar::file_models(files@);
        if files.len() == 0 {
            assert(item_models(items@) =~= start + self@.group_items(
                name@,
                models,
                collapsed,
                color,
                first as int,
            ));
            return;
        }
        let label = render_label(name, files.len());
        let header = render_header(label.as_str());
        proof {
            lemma_item_models_push(items@, header);
        }
        items.push(header);
        let ghost headed = item_models(items@);
        if !collapsed {
            let mut i: usize = 0;
            while i < files.len()
                invariant
                    i <= files@.len(),
                    first <= 1 + usize::MAX,
                    models == crate::git_sidebar::file_models(files@),
                    models.len() == files@.len(),
                    forall|j: int| 0 <= j < files@.len() ==> models[j] == #[trigger] files@[j]@,
                    item_models(items@) == headed + self@.file_items(
                        models,
                        color,
                        first as int,
                    ).take(i as int),
                decreases files@.len() - i,
            {
                let bg = self.background(first + i as u128);
                let item = render_file(&files[i], color, bg);
                proof {
                    lemma_item_models_push(items@, item);
                }
                items.push(item);
                i = i + 1;
            }
            assert(self@.file_items(models, color, first as int).take(files@.len() as int)
                =~= self@.file_items(models, color, first as int));
        }
        assert(item_models(items@) =~= start + self@.group_items(
            name@,
            models,
            collapsed,
            color,
            first as int,
        ));
    }

    /// The lines of the list of changes.
    fn render_changes(&self) -> (r: Vec<ListItem>)
        ensures
            item_models(r@) == self@.change_items(),
    {
        let state = &self.git_sidebar_state;
        let mut items: Vec<ListItem> = Vec::new();
        self.push_group(
            &mut items,
            "Staged Changes",
            &state.staged_files,
            state.section_collapsed_staged,
            PaletteColor::Green,
            1,
        );
        let first: u128 = self.first_unstaged();
        self.push_group(
            &mut items,
            "Changes",
            &state.unstaged_files,
            state.section_collapsed_changes,
            PaletteColor::Yellow,
            first,
        );
        if items.len() == 0 {
            let item = if state.is_refreshing {
                render_single("Refreshing...", Style::plain())
            } else {
                match &state.error_message {
                    Some(error) => render_single(error.as_str(), Style::fg(PaletteColor::Red)),
                    None => render_single("No changes", Style::fg(PaletteColor::Overlay0)),
                }
            };
            proof {
                lemma_item_models_push(items@, item);
            }
            items.push(item);
        }
        items
    }

    /// The position after the staged files.
    fn first_unstaged(&self) -> (r: u128)
        ensures
            r == self@.first_unstaged(),
            r <= 1 + usize::MAX,
    {
        if self.git_sidebar_state.section_collapsed_staged {
            1
        } else {
            1 + self.git_sidebar_state.staged_files.len() as u128
        }
    }

    /// The position after the unstaged files.
    fn first_commit(&self) -> (r: u128)
        ensures
            r == self@.first_commit(),
            r <= 1 + 2 * usize::MAX,
    {
        let first: u128 = self.first_unstaged();
        if self.git_sidebar_state.section_collapsed_changes {
            first
        } else {
            first + self.git_sidebar_state.unstaged_files.len() as u128
        }
    }

    /// The lines of the list of commits.
    fn render_commits(&self) -> (r: Vec<ListItem>)
        ensures
            item_models(r@) == self@.commit_items(),
    {
        let commits = &self.git_sidebar_state.recent_commits;
        let ghost models = crate::git_sidebar::commit_models(commits@);
        let mut items: Vec<ListItem> = Vec::new();
        if commits.len() == 0 {
            return items;
        }
        let header = render_header("Commits");
        proof {
            lemma_item_models_push(items@, header);
        }
        items.push(header);
        if !self.git_sidebar_state.section_collapsed_commits {
            let first: u128 = self.first_commit();
            let ghost all = Seq::new(
                models.len(),
                |i: int| commit_item(models[i], self@.background(self@.first_commit() + i)),
            );
            let mut i: usize = 0;
            while i < commits.len()
                invariant
                    i <= commits@.len(),
                    first <= 1 + 2 * usize::MAX,
                    first == self@.first_commit(),
                    models.len() == commits@.len(),
                    forall|j: int| 0 <= j < commits@.len() ==> models[j] == #[trigger] commits@[j]@,
                    all == Seq::new(
                        models.len(),
                        |i: int| commit_item(models[i], self@.background(self@.first_commit() + i)),
                    ),
                    item_models(items@) == seq![header_item("Commits"@)] + all.take(i as int),
                decreases commits@.len() - i,
            {
                let bg = self.background(first + i as u128);
                let item = render_commit(&commits[i], bg);
                proof {
                    lemma_item_models_push(items@, item);
                    assert((seq![header_item("Commits"@)] + all.take(i as int)).push(item@)
                        =~= seq![header_item("Commits"@)] + all.take(i + 1));
                }
                items.push(item);
                i = i + 1;
            }
        }
        items
    }

    /// The title of the panel.
    fn render_title(&self) -> (r: String)
        ensures
            r@ == self@.panel_title(),
    {
        let state = &self.git_sidebar_state;
        if state.repo_name.as_str().is_empty() {
            return " SOURCE CONTROL ".to_owned();
        }
        let mut r = " SOURCE CONTROL: ".to_owned();
        r.append(state.repo_name.as_str());
        r.append(" (");
        r.append(state.branch.as_str());
        r.append(") ");
        r
    }

    /// The text in the commit box.
    fn render_message(&self) -> (r: Span)
        ensures
            r@ == self@.message_span(),
    {
        let bg = self.background(0);
        let message = self.git_sidebar_state.commit_message.as_str();
        if message.is_empty() {
            span("Message (Enter to commit)", Style::colors(PaletteColor::Overlay0, bg))
        } else {
            span(message, Style::colors(PaletteColor::Text, bg))
        }
    }
}

/// The view of a panel, where there is one.
pub open spec fn panel_model(view: Option<SidebarView>) -> Option<PanelModel> {
    match view {
        Some(view) => Some(view@),
        None => None,
    }
}

/// The expanded panel: the title, the commit box, the changes, and below them
/// the commits.
pub fn render_git_sidebar(app: &AppState, area: Rect) -> (r: Option<SidebarView>)
    requires
        area.width > 0 && area.height > 0 ==> crate::geometry::panel_fits(area),
    ensures
        panel_model(r) == app@.panel(area),
{
    if area.width == 0 || area.height == 0 {
        return None;
    }
    let title = app.render_title();
    let inner = crate::geometry::titled_block_inner(title.as_str(), area);
    let (changes_area, _, commits_area) = crate::geometry::split_git_sidebar_sections(inner);
    let (message_area, list_area) = crate::geometry::split_off_head(
        changes_area,
        crate::geometry::MESSAGE_BOX_HEIGHT,
    );
    let changes = ListView { area: list_area, items: app.render_changes() };
    let commits = if commits_area.height > 0 {
        Some(ListView { area: commits_area, items: app.render_commits() })
    } else {
        None
    };
    Some(
        SidebarView {
            area,
            title,
            style: Style::colors(PaletteColor::Text, PaletteColor::SidebarBg),
            message_area,
            message: app.render_message(),
            message_border: Style::fg(PaletteColor::SurfaceDim),
            changes,
            commits,
        },
    )
}

/// A character to put in a cell.
#[derive(Debug, Clone, Copy, PartialEq, Eq, Structural)]
pub struct Cell {
    pub x: u16,
    pub y: u16,
    pub symbol: char,
    pub style: Style,
}

/// The collapsed panel.
#[derive(Debug, Clone, PartialEq, Eq)]
pub struct CollapsedView {
    /// Where the style goes, before the cells.
    pub area: Rect,
    pub style: Style,
    /// The cells, in the order in which they are drawn.
    pub cells: Vec<Cell>,
}

/// The cells of a collapsed panel: a bar down its left side, and the letters
/// `SC` below each other where there is room.
pub open spec fn collapsed_cells(area: Rect) -> Seq<Cell> {
    Seq::new(
        area.height as nat,
        |i: int|
            Cell {
                x: area.x,
                y: (area.y + i) as u16,
                symbol: '¦',
                style: Style::spec_fg(PaletteColor::SurfaceDim),
            },
    ) + (if area.height >= 3 && area.width >= 3 {
        seq![
            Cell {
                x: (area.x + 1) as u16,
                y: (area.y + 1) as u16,
                symbol: 'S',
                style: Style::spec_fg(PaletteColor::Text),
            },
            Cell {
                x: (area.x + 1) as u16,
                y: (area.y + 2) as u16,
                symbol: 'C',
                style: Style::spec_fg(PaletteColor::Text),
            },
        ]
    } else {
        Seq::empty()
    })
}

/// The collapsed panel.  There is none where the area is empty.
pub fn render_git_sidebar_collapsed(area: Rect) -> (r: Option<CollapsedView>)
    requires
        area.width > 0 && area.height > 0 ==> area.y + area.height <= u16::MAX,
        area.width >= 3 && area.height >= 3 ==> area.x + 1 <= u16::MAX,
    ensures
        r is None <==> area.width == 0 || area.height == 0,
        r matches Some(view) ==> {
            &&& view.area == area
            &&& view.style == Style::spec_bg(PaletteColor::SidebarBg)
            &&& view.cells@ == collapsed_cells(area)
        },
{
    if area.width == 0 || area.height == 0 {
        return None;
    }
    let mut cells: Vec<Cell> = Vec::new();
    let mut row: u16 = 0;
    while row < area.height
        invariant
            row <= area.height,
            area.y + area.height <= u16::MAX,
            cells@ == Seq::new(
                row as nat,
                |i: int|
                    Cell {
                        x: area.x,
                        y: (area.y + i) as u16,
                        symbol: '¦',
                        style: Style::spec_fg(PaletteColor::SurfaceDim),
                    },
            ),
        decreases area.height - row,
    {
        cells.push(
            Cell {
                x: area.x,
                y: area.y + row,
                symbol: '¦',
                style: Style::fg(PaletteColor::SurfaceDim),
            },
        );
        row = row + 1;
        assert(cells@ =~= Seq::new(
            row as nat,
            |i: int|
                Cell {
                    x: area.x,
                    y: (area.y + i) as u16,
                    symbol: '¦',
                    style: Style::spec_fg(PaletteColor::SurfaceDim),
                },
        ));
    }
    if area.height >= 3 && area.width >= 3 {
        let text_x: u16 = area.x + 1;
        let text_y: u16 = area.y + 1;
        cells.push(
            Cell { x: text_x, y: text_y, symbol: 'S', style: Style::fg(PaletteColor::Text) },
        );
        cells.push(
            Cell { x: text_x, y: text_y + 1, symbol: 'C', style: Style::fg(PaletteColor::Text) },
        );
    }
    Some(CollapsedView { area, style: Style::bg(PaletteColor::SidebarBg), cells })
}

/// The toggle of the panel.
#[derive(Debug, Clone, PartialEq, Eq)]
pub struct ToggleView {
    pub area: Rect,
    pub icon: Span,
}

/// The icon of the toggle: an arrow that points left in an expanded panel and
/// right in a collapsed one.
pub open spec fn toggle_icon(collapsed: bool) -> Seq<char> {
    if collapsed {
        ">"@
    } else {
        "<"@
    }
}

/// The toggle of the panel.  There is none where its area is empty.
pub fn render_git_sidebar_toggle(area: Rect, collapsed: bool) -> (r: Option<ToggleView>)
    requires
        collapsed ==> area.y + crate::geometry::less(area.height, 1) <= u16::MAX,
        area.width > 1 && area.height > 0 ==> area.y + area.height - 1 <= u16::MAX,
    ensures
        r is None <==> crate::geometry::toggle_cell(area) == Rect::zero(),
        r matches Some(view) ==> {
            &&& view.area == crate::geometry::toggle_cell(area)
            &&& view.icon@ == (SpanModel {
                content: toggle_icon(collapsed),
                style: Style::spec_fg(PaletteColor::Overlay0),
            })
        },
{
    let toggle_area = if collapsed {
        crate::geometry::collapsed_git_sidebar_toggle_rect(area)
    } else {
        crate::geometry::expanded_git_sidebar_toggle_rect(area)
    };
    if toggle_area == Rect::default() {
        return None;
    }
    let icon = if collapsed {
        ">"
    } else {
        "<"
    };
    Some(ToggleView { area: toggle_area, icon: span(icon, Style::fg(PaletteColor::Overlay0)) })
}

} // verus!
