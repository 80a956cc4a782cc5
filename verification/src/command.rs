//! The abstract multiplexer operations that compilation produces. Each
//! `Command` stands for exactly one multiplexer call; the execution driver
//! turns it into that call's argument list.

use crate::views::opt_chars;
use vstd::prelude::*;

verus! {

/// Creation of one window: the window's name and its resolved working
/// directory.
#[derive(Debug, Clone)]
pub struct Window {
    pub value: String,
    pub root: Option<String>,
}

/// The explicit window shape of a parsed document entry: a window name
/// mapped to a layout, a list of pane commands and a root override. The
/// parser resolves this shape into the canonical window entity; it never
/// outlives parsing.
#[derive(Debug, Clone)]
pub struct Panes {
    pub layout: String,
    pub window: String,
    pub exec_texts: Vec<String>,
    pub root: Option<String>,
}

/// The mathematical value of one command.
pub enum CommandModel {
    Session { name: Seq<char>, tmp_window: Seq<char> },
    Pre { exec_text: Seq<char> },
    Window { name: Seq<char>, root: Option<Seq<char>> },
    PreWindow { window: Seq<char>, exec_text: Seq<char> },
    Split { window: Seq<char>, prev_pane: nat, root: Option<Seq<char>> },
    Layout { window: Seq<char>, layout: Seq<char> },
    SendKeys { window: Seq<char>, pane: nat, exec_text: Seq<char> },
    SelectWindow { window: Seq<char> },
    SelectPane { window: Seq<char>, pane: nat },
    KillWindow { window: Seq<char> },
}

/// One multiplexer operation. The sequence compiled from a configuration is
/// executed strictly in order; window and pane targets name state created by
/// earlier commands.
pub enum Command {
    /// Open the session, with a throwaway first window that is killed at the
    /// end of the sequence.
    Session { name: String, tmp_window: String },
    /// A session-scoped hook command, run once before any window exists.
    Pre { exec_text: String },
    /// Open one window in its resolved working directory.
    Window(Window),
    /// A window-scoped hook command, run after the window is created and
    /// before its panes are populated.
    PreWindow { window: String, exec_text: String },
    /// Split the pane `prev_pane` of a window, opening the new pane in the
    /// resolved working directory.
    Split { window: String, prev_pane: usize, root: Option<String> },
    /// Apply a named layout to a window that holds several panes.
    Layout { window: String, layout: String },
    /// Send a pane its shell command.
    SendKeys { window: String, pane: usize, exec_text: String },
    /// Put the focus on a window.
    SelectWindow { window: String },
    /// Put the focus on one pane of a window.
    SelectPane { window: String, pane: usize },
    /// Kill the throwaway window opened with the session.
    KillWindow { window: String },
}

impl View for Command {
    type V = CommandModel;

    open spec fn view(&self) -> CommandModel {
        match self {
            Command::Session { name, tmp_window } => CommandModel::Session {
                name: name@,
                tmp_window: tmp_window@,
            },
            Command::Pre { exec_text } => CommandModel::Pre { exec_text: exec_text@ },
            Command::Window(w) => CommandModel::Window { name: w.value@, root: opt_chars(w.root) },
            Command::PreWindow { window, exec_text } => CommandModel::PreWindow {
                window: window@,
                exec_text: exec_text@,
            },
            Command::Split { window, prev_pane, root } => CommandModel::Split {
                window: window@,
                prev_pane: *prev_pane as nat,
                root: opt_chars(*root),
            },
            Command::Layout { window, layout } => CommandModel::Layout {
                window: window@,
                layout: layout@,
            },
            Command::SendKeys { window, pane, exec_text } => CommandModel::SendKeys {
                window: window@,
                pane: *pane as nat,
                exec_text: exec_text@,
            },
            Command::SelectWindow { window } => CommandModel::SelectWindow { window: window@ },
            Command::SelectPane { window, pane } => CommandModel::SelectPane {
                window: window@,
                pane: *pane as nat,
            },
            Command::KillWindow { window } => CommandModel::KillWindow { window: window@ },
        }
    }
}

/// The views of a command sequence.
pub open spec fn cmd_views(s: Seq<Command>) -> Seq<CommandModel> {
    s.map_values(|c: Command| c@)
}

} // verus!
