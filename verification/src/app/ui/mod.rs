//! What the dashboard shows, as plain values for a terminal to draw.
pub mod overlay;
pub mod state;

use crate::app::state::view_rendered;
use crate::app::{unmoved, App};
use crate::k8s::{now, Time};
use crate::Args;
use vstd::prelude::*;
use vstd::string::StringExecFns;

verus! {

/// A colour of the terminal.
#[derive(Clone, Copy, Debug, PartialEq, Eq, Structural)]
pub enum Color {
    Red,
    Yellow,
    Rgb(u8, u8, u8),
}

/// How a row is drawn.
#[derive(Clone, Copy, Debug, PartialEq, Eq, Structural)]
pub struct Style {
    pub fg: Option<Color>,
    pub bg: Option<Color>,
    pub bold: bool,
}

impl Default for Style {
    fn default() -> (style: Style)
        ensures
            style == plain(),
    {
        Style { fg: None, bg: None, bold: false }
    }
}

/// The style that changes nothing.
pub open spec fn plain() -> Style {
    Style { fg: None, bg: None, bold: false }
}

/// How wide a column, or how high a part of the screen, is to be.
#[derive(Clone, Copy, Debug, PartialEq, Eq, Structural)]
pub enum Constraint {
    Length(u16),
    Percentage(u16),
    Min(u16),
}

/// A row of a table: its cells and its style.
#[derive(Clone, Debug, PartialEq, Eq)]
pub struct Row {
    pub cells: Vec<String>,
    pub style: Style,
}

/// A row as a mathematical value.
pub struct RowView {
    pub cells: Seq<Seq<char>>,
    pub style: Style,
}

impl DeepView for Row {
    type V = RowView;

    open spec fn deep_view(&self) -> RowView {
        RowView { cells: self.cells.deep_view(), style: self.style }
    }
}

/// A table: its title, the names and widths of its columns, and its rows.
#[derive(Clone, Debug, PartialEq, Eq)]
pub struct Table {
    pub title: String,
    pub header: Vec<String>,
    pub widths: Vec<Constraint>,
    pub rows: Vec<Row>,
}

/// A table as a mathematical value.
pub struct TableView {
    pub title: Seq<char>,
    pub header: Seq<Seq<char>>,
    pub widths: Seq<Constraint>,
    pub rows: Seq<RowView>,
}

impl DeepView for Table {
    type V = TableView;

    open spec fn deep_view(&self) -> TableView {
        TableView {
            title: self.title@,
            header: self.header.deep_view(),
            widths: self.widths@,
            rows: self.rows.deep_view(),
        }
    }
}

/// What the main part of the screen shows.
#[derive(Clone, Debug, PartialEq, Eq)]
pub enum Panel {
    /// A table, and the index of its selected row.
    Table(Table, Option<usize>),
    /// The cause of a failure.
    Error(String),
}

/// A panel as a mathematical value.
pub enum PanelView {
    Table(TableView, Option<usize>),
    Error(Seq<char>),
}

impl DeepView for Panel {
    type V = PanelView;

    open spec fn deep_view(&self) -> PanelView {
        match self {
            Panel::Table(table, selected) => PanelView::Table(table.deep_view(), *selected),
            Panel::Error(cause) => PanelView::Error(cause@),
        }
    }
}

/// The whole screen.
#[derive(Clone, Debug, PartialEq, Eq)]
pub enum Screen {
    /// The help, in place of everything else.
    Help,
    /// The title above the view, and the log below it where `logs` is set.
    /// `layout` gives the heights of the parts from the top; `main` is
    /// absent before a view is chosen.
    Default { title: String, layout: Vec<Constraint>, main: Option<Panel>, logs: bool },
}

/// The title of the screen: the name of the dashboard and the namespace
/// that it watches.
pub open spec fn title_text(args: Args) -> Seq<char> {
    "Podium ("@ + match args.namespace {
        Some(namespace) => namespace@,
        None => "<current>"@,
    } + ")"@
}

/// The heights of the parts of the screen: three lines for the title, and
/// the rest for the view, which leaves two fifths to the log where that is
/// shown.
pub open spec fn layout_of(logs: bool) -> Seq<Constraint> {
    if logs {
        seq![Constraint::Length(3), Constraint::Percentage(60), Constraint::Percentage(40)]
    } else {
        seq![Constraint::Length(3), Constraint::Percentage(60)]
    }
}

/// How drawing the screen without the help relates the dashboard before it
/// to the dashboard after it and to the screen.
pub open spec fn drawn_default(before: App, now: Time, after: App, screen: Screen) -> bool {
    &&& unmoved(before, after)
    &&& screen matches Screen::Default { title, layout, main, logs }
    &&& title@ == title_text(before.options())
    &&& layout@ == layout_of(before.switches().logs)
    &&& logs == before.switches().logs
    &&& view_rendered(before.view(), now, after.view(), main)
}

/// How drawing the screen relates the dashboard before it to the dashboard
/// after it and to the screen: with the help switched on the help is all
/// there is, and nothing changes.
pub open spec fn drawn(before: App, now: Time, after: App, screen: Screen) -> bool {
    if before.switches().help {
        after == before && screen is Help
    } else {
        drawn_default(before, now, after, screen)
    }
}

/// The title of the screen.
pub fn draw_title(args: &Args) -> (title: String)
    ensures
        title@ == title_text(*args),
{
    let mut title = String::from_str("Podium (");
    match &args.namespace {
        Some(namespace) => title.append(namespace.as_str()),
        None => title.append("<current>"),
    }
    title.append(")");
    title
}

/// The heights of the parts of the screen.
pub fn draw_layout(logs: bool) -> (layout: Vec<Constraint>)
    ensures
        layout@ == layout_of(logs),
{
    let mut layout: Vec<Constraint> = Vec::new();
    layout.push(Constraint::Length(3));
    layout.push(Constraint::Percentage(60));
    if logs {
        layout.push(Constraint::Percentage(40));
    }
    assert(layout@ =~= layout_of(logs));
    layout
}

/// The screen without the help, as seen at `now`.
pub fn draw_default_at(app: &mut App, now: &Time) -> (screen: Screen)
    ensures
        drawn_default(*old(app), *now, *final(app), screen),
{
    let logs = app.global().logs;
    let layout = draw_layout(logs);
    let title = draw_title(app.args());
    let main = app.render_at(now);
    Screen::Default { title, layout, main, logs }
}

/// The screen without the help, as seen now by the system clock.
pub fn draw_default(app: &mut App) -> (screen: Screen)
    ensures
        exists|at: Time| drawn_default(*old(app), at, *final(app), screen),
{
    let at = now();
    draw_default_at(app, &at)
}

/// The screen as seen at `now`.
pub fn draw_at(app: &mut App, now: &Time) -> (screen: Screen)
    ensures
        drawn(*old(app), *now, *final(app), screen),
{
    if app.global().help {
        Screen::Help
    } else {
        draw_default_at(app, now)
    }
}

/// The screen as seen now, by the system clock.
pub fn draw(app: &mut App) -> (screen: Screen)
    ensures
        exists|at: Time| drawn(*old(app), at, *final(app), screen),
{
    let at = now();
    draw_at(app, &at)
}

} // verus!
