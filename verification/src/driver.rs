//! The execution driver: the mapping from one compiled command to the one
//! multiplexer call that performs it. The surrounding program walks the
//! sequence strictly in order, hands each argument list to the binary, and
//! continues past individual failures; only the session-creation call is
//! fatal.

use crate::command::{Command, CommandModel};
use crate::text::{dec_chars, u64_string};
use crate::tmux;
use crate::views::str_views;
use vstd::prelude::*;

verus! {

/// The addressing string of a window: `{session}:{window}`.
pub open spec fn window_target(session: Seq<char>, window: Seq<char>) -> Seq<char> {
    session + seq![':'] + window
}

/// The addressing string of a pane: `{session}:{window}.{pane}`.
pub open spec fn pane_target(session: Seq<char>, window: Seq<char>, pane: nat) -> Seq<char> {
    window_target(session, window) + seq!['.'] + dec_chars(pane)
}

/// The addressing string of a window.
pub fn window_target_string(session: &String, window: &String) -> (t: String)
    ensures
        t@ == window_target(session@, window@),
{
    let mut t = session.clone();
    t.append(":");
    t.append(window.as_str());
    proof {
        reveal_strlit(":");
        assert(t@ =~= window_target(session@, window@));
    }
    t
}

/// The addressing string of a pane.
pub fn pane_target_string(session: &String, window: &String, pane: usize) -> (t: String)
    ensures
        t@ == pane_target(session@, window@, pane as nat),
{
    let mut t = window_target_string(session, window);
    t.append(".");
    let digits = u64_string(pane as u64);
    t.append(digits.as_str());
    proof {
        reveal_strlit(".");
        assert(t@ =~= pane_target(session@, window@, pane as nat));
    }
    t
}

/// The one multiplexer call a command maps to, as its argument list.
pub open spec fn call_args_model(session: Seq<char>, c: CommandModel) -> Seq<Seq<char>> {
    match c {
        CommandModel::Session { name, tmp_window } => tmux::new_session_args(name, tmp_window),
        CommandModel::Pre { exec_text } => tmux::send_keys_args(session, exec_text),
        CommandModel::Window { name, root } => tmux::new_window_args(session, name, root),
        CommandModel::PreWindow { window, exec_text } => tmux::send_keys_args(
            window_target(session, window),
            exec_text,
        ),
        CommandModel::Split { window, prev_pane, root } => tmux::split_window_args(
            pane_target(session, window, prev_pane),
            root,
        ),
        CommandModel::Layout { window, layout } => tmux::layout_args(
            window_target(session, window),
            layout,
        ),
        CommandModel::SendKeys { window, pane, exec_text } => tmux::send_keys_args(
            pane_target(session, window, pane),
            exec_text,
        ),
        CommandModel::SelectWindow { window } => tmux::select_window_args(
            window_target(session, window),
        ),
        CommandModel::SelectPane { window, pane } => tmux::select_pane_args(
            pane_target(session, window, pane),
        ),
        CommandModel::KillWindow { window } => tmux::kill_window_args(
            window_target(session, window),
        ),
    }
}

/// The argument list of the one call that performs a command within the
/// given session.
pub fn call_args(session: &String, cmd: &Command) -> (args: Vec<String>)
    ensures
        str_views(args@) == call_args_model(session@, cmd@),
{
    match cmd {
        Command::Session { name, tmp_window } => tmux::new_session(name, tmp_window),
        Command::Pre { exec_text } => tmux::send_keys(session, exec_text),
        Command::Window(w) => tmux::new_window(session, &w.value, &w.root),
        Command::PreWindow { window, exec_text } => {
            let t = window_target_string(session, window);
            tmux::send_keys(&t, exec_text)
        },
        Command::Split { window, prev_pane, root } => {
            let t = pane_target_string(session, window, *prev_pane);
            tmux::split_window(&t, root)
        },
        Command::Layout { window, layout } => {
            let t = window_target_string(session, window);
            tmux::layout(&t, layout)
        },
        Command::SendKeys { window, pane, exec_text } => {
            let t = pane_target_string(session, window, *pane);
            tmux::send_keys(&t, exec_text)
        },
        Command::SelectWindow { window } => {
            let t = window_target_string(session, window);
            tmux::select_window(&t)
        },
        Command::SelectPane { window, pane } => {
            let t = pane_target_string(session, window, *pane);
            tmux::select_pane(&t)
        },
        Command::KillWindow { window } => {
            let t = window_target_string(session, window);
            tmux::kill_window(&t)
        },
    }
}

/// The argument lists of a whole compiled sequence, one per command, in
/// execution order: later commands address windows and panes that earlier
/// ones create, so the order is kept exactly.
pub fn call_sequence(session: &String, cmds: &Vec<Command>) -> (out: Vec<Vec<String>>)
    ensures
        out@.len() == cmds@.len(),
        forall|i: int|
            0 <= i < cmds@.len() ==> str_views(#[trigger] out@[i]@) == call_args_model(
                session@,
                cmds@[i]@,
            ),
{
    let mut out: Vec<Vec<String>> = Vec::new();
    let n = cmds.len();
    for i in 0..n
        invariant
            n == cmds@.len(),
            out@.len() == i,
            forall|j: int|
                0 <= j < i ==> str_views(#[trigger] out@[j]@) == call_args_model(
                    session@,
                    cmds@[j]@,
                ),
    {
        out.push(call_args(session, &cmds[i]));
    }
    out
}

/// Whether a command's failure aborts the rest of the sequence: only the
/// session-creation call is fatal, nothing downstream being meaningful
/// without a session. Every other failure is reported and skipped.
pub fn is_fatal(cmd: &Command) -> (r: bool)
    ensures
        r == (cmd@ matches CommandModel::Session { .. }),
{
    match cmd {
        Command::Session { .. } => true,
        _ => false,
    }
}

} // verus!
