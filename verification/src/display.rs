//! What the screen shows, decided from the interactive state. Drawing it is
//! left to the terminal front end.

use vstd::prelude::*;
use vstd::string::*;
use crate::app::App;
use crate::system::{SystemInfo, scan_flag};
use crate::text::{begins_with, decimal, decimal_string, starts_with_str};
use crate::tweak::{Tweak, TWEAK_COUNT, tweak_label, tweak_description};

verus! {

/// The name of the detected desktop, KDE first.
pub open spec fn desktop_title(is_gnome: bool, is_kde: bool) -> Seq<char> {
    if is_kde {
        "KDE Plasma"@
    } else if is_gnome {
        "GNOME"@
    } else {
        "Desktop not detected"@
    }
}

/// The badge with how many of all tweaks are applied.
pub open spec fn health_text(applied: nat) -> Seq<char> {
    " health "@ + decimal(applied) + "/"@ + decimal(TWEAK_COUNT as nat) + " "@
}

/// A badge: the text with a space on each side.
pub open spec fn badge_text(text: Seq<char>) -> Seq<char> {
    " "@ + text + " "@
}

/// The name of the detected desktop, as the header shows it.
pub fn desktop_label(info: &SystemInfo) -> (s: &'static str)
    ensures
        s@ == desktop_title(info.is_gnome, info.is_kde),
{
    if info.is_kde {
        "KDE Plasma"
    } else if info.is_gnome {
        "GNOME"
    } else {
        "Desktop not detected"
    }
}

/// The badge with how many of all tweaks are applied.
pub fn health_badge(applied: usize) -> (s: String)
    ensures
        s@ == health_text(applied as nat),
{
    let mut s = String::from_str(" health ");
    let a = decimal_string(applied as u64);
    s.append(a.as_str());
    s.append("/");
    let t = decimal_string(TWEAK_COUNT as u64);
    s.append(t.as_str());
    s.append(" ");
    s
}

/// A badge: the text with a space on each side.
pub fn badge(text: &str) -> (s: String)
    ensures
        s@ == badge_text(text@),
{
    let mut s = String::from_str(" ");
    s.append(text);
    s.append(" ");
    s
}

/// How a row of the table stands.
#[derive(Clone, Copy, Debug, PartialEq, Eq, Structural)]
pub enum RowState {
    /// The scan found the tweak in place.
    Applied,
    /// The tweak is selected for the next apply.
    Selected,
    /// Neither.
    Pending,
}

/// How a row stands: being applied wins over being selected.
pub open spec fn row_state(applied: bool, selected: bool) -> RowState {
    if applied {
        RowState::Applied
    } else if selected {
        RowState::Selected
    } else {
        RowState::Pending
    }
}

/// The check box of a row in each state.
pub open spec fn marker_text(s: RowState) -> Seq<char> {
    match s {
        RowState::Applied => "[✓]"@,
        RowState::Selected => "[▣]"@,
        RowState::Pending => "[ ]"@,
    }
}

/// The status column of a row in each state.
pub open spec fn status_text(s: RowState) -> Seq<char> {
    match s {
        RowState::Applied => " ✓ Applied "@,
        RowState::Selected => " ▣ Selected "@,
        RowState::Pending => " ○ Pending "@,
    }
}

impl RowState {
    /// The check box of a row in this state.
    pub fn marker(self) -> (s: &'static str)
        ensures
            s@ == marker_text(self),
    {
        match self {
            RowState::Applied => "[✓]",
            RowState::Selected => "[▣]",
            RowState::Pending => "[ ]",
        }
    }

    /// The status column of a row in this state.
    pub fn status(self) -> (s: &'static str)
        ensures
            s@ == status_text(self),
    {
        match self {
            RowState::Applied => " ✓ Applied ",
            RowState::Selected => " ▣ Selected ",
            RowState::Pending => " ○ Pending ",
        }
    }
}

/// One row of the table of the current page.
#[derive(Clone, Copy, Debug)]
pub struct RowView {
    pub tweak: Tweak,
    pub label: &'static str,
    pub description: &'static str,
    pub state: RowState,
    /// The cursor is on this row.
    pub highlighted: bool,
}

/// How a log line is coloured.
#[derive(Clone, Copy, Debug, PartialEq, Eq, Structural)]
pub enum LogKind {
    /// A failure.
    Error,
    /// Output of a script, indented.
    Detail,
    /// Anything else.
    Info,
}

/// How a log line is coloured: errors first, then indented detail lines.
pub open spec fn log_kind_of(line: Seq<char>) -> LogKind {
    if begins_with(line, "ERROR"@) {
        LogKind::Error
    } else if begins_with(line, "  "@) {
        LogKind::Detail
    } else {
        LogKind::Info
    }
}

/// How a log line is coloured.
pub fn log_kind(line: &str) -> (k: LogKind)
    ensures
        k == log_kind_of(line@),
{
    if starts_with_str(line, "ERROR") {
        LogKind::Error
    } else if starts_with_str(line, "  ") {
        LogKind::Detail
    } else {
        LogKind::Info
    }
}

impl App {
    /// The rows of the table of the current page, in order.
    pub fn row_views(&self) -> (rows: Vec<RowView>)
        ensures
            rows@.len() == self.rows_shown().len(),
            forall|i: int|
                0 <= i < rows@.len() ==> {
                    let t = #[trigger] self.rows_shown()[i];
                    &&& rows@[i].tweak == t
                    &&& rows@[i].label@ == tweak_label(t)
                    &&& rows@[i].description@ == tweak_description(t)
                    &&& rows@[i].state == row_state(scan_flag(self.scan, t), self.marked(t))
                    &&& rows@[i].highlighted == (i == self.list_index)
                },
    {
        let shown = self.visible_rows();
        let mut rows: Vec<RowView> = Vec::new();
        let mut i: usize = 0;
        while i < shown.len()
            invariant
                i <= shown@.len(),
                shown@ == self.rows_shown(),
                rows@.len() == i,
                forall|j: int|
                    0 <= j < i ==> {
                        let t = #[trigger] self.rows_shown()[j];
                        &&& rows@[j].tweak == t
                        &&& rows@[j].label@ == tweak_label(t)
                        &&& rows@[j].description@ == tweak_description(t)
                        &&& rows@[j].state == row_state(scan_flag(self.scan, t), self.marked(t))
                        &&& rows@[j].highlighted == (j == self.list_index)
                    },
            decreases shown@.len() - i,
        {
            let t = shown[i];
            let applied = self.is_applied(t);
            let selected = self.is_selected(t);
            let state = if applied {
                RowState::Applied
            } else if selected {
                RowState::Selected
            } else {
                RowState::Pending
            };
            rows.push(RowView {
                tweak: t,
                label: t.label(),
                description: t.description(),
                state,
                highlighted: i == self.list_index,
            });
            i += 1;
        }
        rows
    }
}

} // verus!
