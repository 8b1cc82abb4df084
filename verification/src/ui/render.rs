//! The renderer: from the active panel and the size of the terminal to what
//! is shown where.

use vstd::prelude::*;

use crate::ui::MenuItem;
use vstd::string::{StrSliceExecFns, StringExecFns};

verus! {

/// A rectangle of terminal cells.
#[derive(Debug, Clone, Copy, PartialEq, Eq, Structural)]
pub struct Region {
    pub x: u16,
    pub y: u16,
    pub width: u16,
    pub height: u16,
}

/// The colours that the interface uses.
#[derive(Debug, Clone, Copy, PartialEq, Eq, Structural)]
pub enum Color {
    White,
    Yellow,
    LightBlue,
}

/// One line of a panel.
#[derive(Debug, Clone, PartialEq, Eq)]
pub struct Line {
    pub text: String,
    /// The colour of the line, where it is not that of its panel.
    pub color: Option<Color>,
}

/// A bordered block of text under a title.
#[derive(Debug, Clone, PartialEq, Eq)]
pub struct Panel {
    pub title: String,
    pub lines: Vec<Line>,
    /// Whether the lines are centred rather than left-aligned.
    pub centered: bool,
    /// The colour of the border and of the text.
    pub color: Color,
}

/// One entry of the menu bar: its hotkey, which is shown underlined and in
/// the highlight colour, and the rest of its title.
#[derive(Debug, Clone, PartialEq, Eq)]
pub struct MenuEntry {
    pub hotkey: String,
    pub rest: String,
}

/// The menu bar.
#[derive(Debug, Clone, PartialEq, Eq)]
pub struct Menu {
    pub title: String,
    pub entries: Vec<MenuEntry>,
    /// The index of the entry that is highlighted.
    pub selected: usize,
    /// What is shown between two entries.
    pub divider: String,
    /// The colour of the border and of the text.
    pub color: Color,
    /// The colour of the hotkeys and of the highlighted entry.
    pub highlight: Color,
}

/// What is shown where: the menu bar, the active panel and the status line,
/// each with its region.
#[derive(Debug, Clone, PartialEq, Eq)]
pub struct Layout {
    pub menu: Menu,
    pub menu_area: Region,
    pub panel: Panel,
    pub panel_area: Region,
    pub status: Panel,
    pub status_area: Region,
}

/// Mathematical model of a [`Line`].
pub ghost struct LineView {
    pub text: Seq<char>,
    pub color: Option<Color>,
}

/// Mathematical model of a [`Panel`].
pub ghost struct PanelView {
    pub title: Seq<char>,
    pub lines: Seq<LineView>,
    pub centered: bool,
    pub color: Color,
}

/// Mathematical model of a [`MenuEntry`].
pub ghost struct MenuEntryView {
    pub hotkey: Seq<char>,
    pub rest: Seq<char>,
}

/// Mathematical model of a [`Menu`].
pub ghost struct MenuView {
    pub title: Seq<char>,
    pub entries: Seq<MenuEntryView>,
    pub selected: int,
    pub divider: Seq<char>,
    pub color: Color,
    pub highlight: Color,
}

impl View for Line {
    type V = LineView;

    open spec fn view(&self) -> LineView {
        LineView { text: self.text@, color: self.color }
    }
}

impl View for Panel {
    type V = PanelView;

    open spec fn view(&self) -> PanelView {
        PanelView {
            title: self.title@,
            lines: Seq::new(self.lines@.len(), |i: int| self.lines@[i]@),
            centered: self.centered,
            color: self.color,
        }
    }
}

impl View for MenuEntry {
    type V = MenuEntryView;

    open spec fn view(&self) -> MenuEntryView {
        MenuEntryView { hotkey: self.hotkey@, rest: self.rest@ }
    }
}

impl View for Menu {
    type V = MenuView;

    open spec fn view(&self) -> MenuView {
        MenuView {
            title: self.title@,
            entries: Seq::new(self.entries@.len(), |i: int| self.entries@[i]@),
            selected: self.selected as int,
            divider: self.divider@,
            color: self.color,
            highlight: self.highlight,
        }
    }
}

/// The margin around the three rows, in cells.
pub const MARGIN: u16 = 2;

/// The height of the menu bar, in cells.
pub const MENU_HEIGHT: u16 = 3;

/// The least height of the active panel, in cells.
pub const PANEL_MIN_HEIGHT: u16 = 2;

/// The height of the status line, in cells.
pub const STATUS_HEIGHT: u16 = 3;

/// The position of a panel in the menu bar.
pub open spec fn index_of(item: MenuItem) -> usize {
    match item {
        MenuItem::Home => 0,
        MenuItem::Query => 1,
        MenuItem::Chart => 2,
        MenuItem::Settings => 3,
    }
}

impl From<MenuItem> for usize {
    fn from(input: MenuItem) -> (index: usize) {
        match input {
            MenuItem::Home => 0,
            MenuItem::Query => 1,
            MenuItem::Chart => 2,
            MenuItem::Settings => 3,
        }
    }
}

impl vstd::std_specs::convert::FromSpecImpl<MenuItem> for usize {
    open spec fn obeys_from_spec() -> bool {
        true
    }

    open spec fn from_spec(input: MenuItem) -> usize {
        index_of(input)
    }
}

/// A line in the colour of its panel.
pub open spec fn plain(text: Seq<char>) -> LineView {
    LineView { text, color: None }
}

/// A left-aligned white panel of one plain line.
pub open spec fn note(text: Seq<char>) -> PanelView {
    PanelView { title: "Home"@, lines: seq![plain(text)], centered: false, color: Color::White }
}

/// What the Home panel shows.
pub open spec fn home_panel() -> PanelView {
    PanelView {
        title: "Home"@,
        lines: seq![
            plain(""@),
            plain(""@),
            plain("Welcome"@),
            plain("to"@),
            plain(""@),
            LineView { text: "pet-CLI"@, color: Some(Color::LightBlue) },
            plain(""@),
            plain(
                "Press 'p' to access pets, 'a' to add random new pets and 'd' to delete the currently selected pet."@,
            ),
        ],
        centered: true,
        color: Color::White,
    }
}

/// What the panel of `active` shows.
pub open spec fn panel_of(active: MenuItem) -> PanelView {
    match active {
        MenuItem::Home => home_panel(),
        MenuItem::Query => note("type query here"@),
        MenuItem::Chart => note("data chart goes here"@),
        MenuItem::Settings => note("settings go here"@),
    }
}

/// What the status line shows.
pub open spec fn status_panel() -> PanelView {
    note("current status goes here"@)
}

/// The titles of the menu bar, in order.
pub open spec fn menu_titles() -> Seq<Seq<char>> {
    seq!["Home"@, "query"@, "chart"@, "settings"@, "Quit"@]
}

/// The menu entry of a title: its first character is the hotkey.
pub open spec fn entry_of(title: Seq<char>) -> MenuEntryView {
    MenuEntryView { hotkey: title.take(1), rest: title.skip(1) }
}

/// What the menu bar shows while `active` is the active panel.
pub open spec fn menu_of(active: MenuItem) -> MenuView {
    MenuView {
        title: "Menu"@,
        entries: Seq::new(5, |i: int| entry_of(menu_titles()[i])),
        selected: index_of(active) as int,
        divider: "|"@,
        color: Color::White,
        highlight: Color::Yellow,
    }
}

fn plain_line(text: &str) -> (line: Line)
    ensures
        line@ == plain(text@),
{
    Line { text: String::from_str(text), color: None }
}

fn note_panel(text: &str) -> (panel: Panel)
    ensures
        panel@ == note(text@),
{
    let mut lines: Vec<Line> = Vec::new();
    lines.push(plain_line(text));
    let panel =
        Panel { title: String::from_str("Home"), lines, centered: false, color: Color::White };
    assert(panel@.lines =~= seq![plain(text@)]);
    panel
}

/// The Home panel.
pub fn home() -> (panel: Panel)
    ensures
        panel@ == home_panel(),
{
    let mut lines: Vec<Line> = Vec::new();
    lines.push(plain_line(""));
    lines.push(plain_line(""));
    lines.push(plain_line("Welcome"));
    lines.push(plain_line("to"));
    lines.push(plain_line(""));
    lines.push(Line { text: String::from_str("pet-CLI"), color: Some(Color::LightBlue) });
    lines.push(plain_line(""));
    lines.push(
        plain_line(
            "Press 'p' to access pets, 'a' to add random new pets and 'd' to delete the currently selected pet.",
        ),
    );
    let panel =
        Panel { title: String::from_str("Home"), lines, centered: true, color: Color::White };
    assert(panel@.lines =~= home_panel().lines);
    panel
}

/// The status line.
pub fn status() -> (panel: Panel)
    ensures
        panel@ == status_panel(),
{
    note_panel("current status goes here")
}

/// The Query panel.
pub fn query() -> (panel: Panel)
    ensures
        panel@ == panel_of(MenuItem::Query),
{
    note_panel("type query here")
}

/// The Chart panel.
pub fn chart() -> (panel: Panel)
    ensures
        panel@ == panel_of(MenuItem::Chart),
{
    note_panel("data chart goes here")
}

/// The Settings panel.
pub fn settings() -> (panel: Panel)
    ensures
        panel@ == panel_of(MenuItem::Settings),
{
    note_panel("settings go here")
}

/// The panel of `active`.
pub fn panel(active: MenuItem) -> (panel: Panel)
    ensures
        panel@ == panel_of(active),
{
    match active {
        MenuItem::Home => home(),
        MenuItem::Query => query(),
        MenuItem::Chart => chart(),
        MenuItem::Settings => settings(),
    }
}

fn entry(title: &str) -> (entry: MenuEntry)
    requires
        title@.len() >= 1,
    ensures
        entry@ == entry_of(title@),
{
    let length = title.unicode_len();
    let hotkey = title.substring_char(0, 1);
    let rest = title.substring_char(1, length);
    assert(hotkey@ =~= title@.take(1));
    assert(rest@ =~= title@.skip(1));
    MenuEntry { hotkey: String::from_str(hotkey), rest: String::from_str(rest) }
}

/// The menu bar, with the entry of `active_menu_item` highlighted.
pub fn menu(active_menu_item: MenuItem) -> (menu: Menu)
    ensures
        menu@ == menu_of(active_menu_item),
{
    proof {
        reveal_strlit("Home");
        reveal_strlit("query");
        reveal_strlit("chart");
        reveal_strlit("settings");
        reveal_strlit("Quit");
    }
    let mut entries: Vec<MenuEntry> = Vec::new();
    entries.push(entry("Home"));
    entries.push(entry("query"));
    entries.push(entry("chart"));
    entries.push(entry("settings"));
    entries.push(entry("Quit"));
    let menu = Menu {
        title: String::from_str("Menu"),
        entries,
        selected: usize::from(active_menu_item),
        divider: String::from_str("|"),
        color: Color::White,
        highlight: Color::Yellow,
    };
    assert(menu@.entries =~= menu_of(active_menu_item).entries);
    menu
}

impl Region {
    /// Whether the region lies within the coordinate space: neither its
    /// right edge nor its bottom edge is beyond the largest coordinate.
    pub open spec fn in_bounds(self) -> bool {
        self.x + self.width <= u16::MAX && self.y + self.height <= u16::MAX
    }

    /// Whether the region lies within the coordinate space.
    pub fn is_in_bounds(&self) -> (yes: bool)
        ensures
            yes == self.in_bounds(),
    {
        self.width <= u16::MAX - self.x && self.height <= u16::MAX - self.y
    }
}

/// The inside of `area` once a margin is taken off on every side: nothing,
/// at the origin, where the area is too small to have one.
pub open spec fn inner_area(area: Region, margin: u16) -> Region {
    if area.width < 2 * margin || area.height < 2 * margin {
        Region { x: 0, y: 0, width: 0, height: 0 }
    } else {
        Region {
            x: (area.x + margin) as u16,
            y: (area.y + margin) as u16,
            width: (area.width - 2 * margin) as u16,
            height: (area.height - 2 * margin) as u16,
        }
    }
}

/// The three rows of an inside that has room for all of them: a row of
/// height `head` at the top, a row of height `foot` at the bottom, and
/// between them a row that takes what is left. All three are as wide as the
/// inside.
pub open spec fn roomy_rows(inner: Region, head: u16, foot: u16) -> Seq<Region> {
    seq![
        Region { x: inner.x, y: inner.y, width: inner.width, height: head },
        Region {
            x: inner.x,
            y: (inner.y + head) as u16,
            width: inner.width,
            height: (inner.height - head - foot) as u16,
        },
        Region {
            x: inner.x,
            y: (inner.y + inner.height - foot) as u16,
            width: inner.width,
            height: foot,
        },
    ]
}

/// Calls `tui::layout::Layout::split` on a vertical layout with the given
/// margin and three constraints: a length of `head`, a minimum of `body`
/// and a length of `foot`.
///
/// The contract claims three things of the call. One region comes back for
/// each of the three constraints. The last row ends where the inside of
/// the area ends, because the call sets its height to just that distance
/// once its solver is done. And where the inside is high enough for all
/// three constraints to be met at once, the rows are the only ones that
/// meet them, those of [`roomy_rows`]. Of a smaller inside the contract
/// claims no more, because the solver may then settle on any of several
/// splits.
///
/// It leaves out the inputs on which the call panics: a margin whose double
/// overflows, and an area that reaches beyond the coordinate space, for
/// which the constraints that the call hands to its solver cannot all be
/// met.
#[verifier::external_body]
fn split_rows(area: Region, margin: u16, head: u16, body: u16, foot: u16) -> (rows: Vec<Region>)
    requires
        area.in_bounds(),
        2 * margin <= u16::MAX,
    ensures
        rows@.len() == 3,
        rows@[2].y + rows@[2].height == inner_area(area, margin).y + inner_area(
            area,
            margin,
        ).height,
        inner_area(area, margin).height >= head + body + foot ==> rows@ == roomy_rows(
            inner_area(area, margin),
            head,
            foot,
        ),
{
    let rect = tui::layout::Rect { x: area.x, y: area.y, width: area.width, height: area.height };
    let rows = tui::layout::Layout::default()
        .direction(tui::layout::Direction::Vertical)
        .margin(margin)
        .constraints(
            vec![
                tui::layout::Constraint::Length(head),
                tui::layout::Constraint::Min(body),
                tui::layout::Constraint::Length(foot),
            ],
        )
        .split(rect);
    rows.iter().map(|r| Region { x: r.x, y: r.y, width: r.width, height: r.height }).collect()
}

/// Splits the terminal into the rows of the menu bar, the active panel and
/// the status line, from top to bottom, inside a margin of [`MARGIN`].
///
/// The status line ends where the inside of the terminal ends. Where the
/// inside is at least [`MENU_HEIGHT`], [`PANEL_MIN_HEIGHT`] and
/// [`STATUS_HEIGHT`] high together, the menu bar and the status line have
/// their heights and the panel has the rest.
pub fn layout(size: Region) -> (rows: Vec<Region>)
    requires
        size.in_bounds(),
    ensures
        rows@.len() == 3,
        rows@[2].y + rows@[2].height == inner_area(size, MARGIN).y + inner_area(
            size,
            MARGIN,
        ).height,
        inner_area(size, MARGIN).height >= MENU_HEIGHT + PANEL_MIN_HEIGHT + STATUS_HEIGHT
            ==> rows@ == roomy_rows(inner_area(size, MARGIN), MENU_HEIGHT, STATUS_HEIGHT),
{
    split_rows(size, MARGIN, MENU_HEIGHT, PANEL_MIN_HEIGHT, STATUS_HEIGHT)
}

/// Puts the menu bar, the panel of `active` and the status line into the
/// three rows, in that order.
pub fn arrange(active: MenuItem, rows: &Vec<Region>) -> (layout: Layout)
    requires
        rows@.len() == 3,
    ensures
        layout.menu@ == menu_of(active),
        layout.panel@ == panel_of(active),
        layout.status@ == status_panel(),
        layout.menu_area == rows@[0],
        layout.panel_area == rows@[1],
        layout.status_area == rows@[2],
{
    Layout {
        menu: menu(active),
        menu_area: rows[0],
        panel: panel(active),
        panel_area: rows[1],
        status: status(),
        status_area: rows[2],
    }
}

/// Renders the interface for a terminal of the given size: the menu bar
/// with the active panel highlighted, the active panel, and the status
/// line, each in its row of one split of the terminal by [`layout`].
pub fn render(active: MenuItem, size: Region) -> (layout: Layout)
    requires
        size.in_bounds(),
    ensures
        layout.menu@ == menu_of(active),
        layout.panel@ == panel_of(active),
        layout.status@ == status_panel(),
        layout.status_area.y + layout.status_area.height == inner_area(size, MARGIN).y
            + inner_area(size, MARGIN).height,
        inner_area(size, MARGIN).height >= MENU_HEIGHT + PANEL_MIN_HEIGHT + STATUS_HEIGHT
            ==> seq![layout.menu_area, layout.panel_area, layout.status_area] == roomy_rows(
            inner_area(size, MARGIN),
            MENU_HEIGHT,
            STATUS_HEIGHT,
        ),
{
    let rows = layout(size);
    let layout = arrange(active, &rows);
    assert(seq![layout.menu_area, layout.panel_area, layout.status_area] =~= rows@);
    layout
}

} // verus!
