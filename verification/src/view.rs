//! What the screen shows, as plain values for the caller to draw.

use crate::model::{App, AppState, AppView, ServiceView};
use crate::output::{line_breaks, LINE_BREAK};
use vstd::prelude::*;
use vstd::string::*;

verus! {

/// The least height of the terminal, in rows, at which the help footer is shown.
pub const FOOTER_MIN_HEIGHT: u16 = 22;

/// What fills the main area of the screen.
#[derive(Debug, Clone, Copy, PartialEq, Eq, Structural)]
pub enum Pane {
    /// The table of services.
    Table,
    /// The output of this service.
    FullView(usize),
}

/// How the screen is laid out.
#[derive(Debug, Clone, Copy, PartialEq, Eq, Structural)]
pub struct Screen {
    pub pane: Pane,
    /// The share of the height that the main area gets, in percent.
    pub pane_percent: u16,
    /// The most rows that the help footer gets; `None` where it is left out.
    pub footer_rows: Option<u16>,
}

/// One row of the service table.
#[derive(Debug)]
pub struct Row {
    pub name: String,
    pub status: String,
    /// The rows of the terminal that the entry takes: one for each line of the name.
    pub height: u16,
}

/// A row as the contracts see it.
pub struct RowView {
    pub name: Seq<char>,
    pub status: Seq<char>,
    pub height: u16,
}

impl View for Row {
    type V = RowView;

    open spec fn view(&self) -> RowView {
        RowView { name: self.name@, status: self.status@, height: self.height }
    }
}

/// The screen for a terminal of `height` rows.
pub open spec fn screen(v: AppView, height: u16) -> Screen {
    Screen {
        pane: match v.selected {
            None => Pane::Table,
            Some(index) => Pane::FullView(index),
        },
        pane_percent: if height < FOOTER_MIN_HEIGHT {
            100
        } else {
            90
        },
        footer_rows: if height < FOOTER_MIN_HEIGHT {
            None
        } else {
            Some(3u16)
        },
    }
}

/// The height of the row of a service with this name: the number of lines of
/// the name, cut to sixteen bits.
pub open spec fn row_height(name: Seq<char>) -> u16 {
    ((line_breaks(vstd::utf8::encode_utf8(name)).len() + 1) % 0x1_0000) as u16
}

/// The row that shows `service`.
pub open spec fn row_of(service: ServiceView) -> RowView {
    RowView {
        name: service.name,
        status: service.status.label(),
        height: row_height(service.name),
    }
}

/// The help text.
pub open spec fn help_text(v: AppView) -> Seq<char> {
    if v.selected.is_none() {
        "q-quit    down-down    up-up    enter-select    r-run service"@
    } else {
        "q-back    esc-back    r-run service"@
    }
}

/// Lays out the screen: the table, or the service shown in full, and below
/// it the help footer where the terminal is high enough.
pub fn render_ui(app: &App, height: u16) -> (layout: Screen)
    ensures
        layout == screen(app@, height),
{
    let pane = match app.selected {
        None => Pane::Table,
        Some(index) => Pane::FullView(index),
    };
    if height < FOOTER_MIN_HEIGHT {
        Screen { pane, pane_percent: 100, footer_rows: None }
    } else {
        Screen { pane, pane_percent: 90, footer_rows: Some(3) }
    }
}

/// The output of service `index` for the full view; `None` where there is no
/// such service.
pub fn render_full_view(state: &AppState, index: usize) -> (output: Option<&Vec<u8>>)
    ensures
        output.is_some() == (index < state.services@.len()),
        output matches Some(bytes) ==> bytes@ == state.services@[index as int]@.output,
{
    if index < state.services.len() {
        Some(state.services[index].output.bytes())
    } else {
        None
    }
}

fn name_height(name: &String) -> (height: u16)
    ensures
        height == row_height(name@),
{
    let bytes = name.as_str().as_bytes();
    let mut height: u16 = 1;
    let mut i: usize = 0;
    while i < bytes.len()
        invariant
            i <= bytes.len(),
            bytes@ == vstd::utf8::encode_utf8(name@),
            height == ((line_breaks(bytes@.take(i as int)).len() + 1) % 0x1_0000) as u16,
        decreases bytes.len() - i,
    {
        if bytes[i] == LINE_BREAK {
            height = if height == u16::MAX {
                0
            } else {
                height + 1
            };
        }
        i = i + 1;
        proof {
            assert(bytes@.take(i as int).drop_last() =~= bytes@.take(i - 1));
        }
    }
    proof {
        assert(bytes@.take(i as int) =~= bytes@);
    }
    height
}

/// The rows of the service table, one for each service, in order.
pub fn render_table(state: &AppState) -> (rows: Vec<Row>)
    ensures
        rows@.len() == state.services@.len(),
        forall|i: int| 0 <= i < rows@.len() ==> (#[trigger] rows@[i])@ == row_of(state.services@[i]@),
{
    let mut rows: Vec<Row> = Vec::new();
    let mut i: usize = 0;
    while i < state.services.len()
        invariant
            i <= state.services.len(),
            rows@.len() == i,
            forall|j: int| 0 <= j < i ==> (#[trigger] rows@[j])@ == row_of(state.services@[j]@),
        decreases state.services.len() - i,
    {
        let service = &state.services[i];
        let row = Row {
            name: service.name.clone(),
            status: service.observed.to_string(),
            height: name_height(&service.name),
        };
        rows.push(row);
        i = i + 1;
    }
    rows
}

/// The text of the help footer.
pub fn render_help_footer(app: &App) -> (text: &'static str)
    ensures
        text@ == help_text(app@),
{
    if app.is_table() {
        "q-quit    down-down    up-up    enter-select    r-run service"
    } else {
        "q-back    esc-back    r-run service"
    }
}

} // verus!
