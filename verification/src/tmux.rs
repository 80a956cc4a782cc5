//! The multiplexer call vocabulary. Each function builds the exact argument
//! list of one `tmux` invocation; the surrounding program hands such a list
//! to the binary. Targets follow the `{session}:{window}.{pane}` convention.

use crate::views::str_views;
use vstd::prelude::*;

verus! {

/// The arguments of a session-creation call: detached, named, with the
/// throwaway first window.
pub open spec fn new_session_args(session: Seq<char>, window: Seq<char>) -> Seq<Seq<char>> {
    seq!["new"@, "-d"@, "-s"@, session, "-n"@, window]
}

/// The arguments of a window-split call; the optional directory is handed to
/// `-c` as one intact value.
pub open spec fn split_window_args(target: Seq<char>, root: Option<Seq<char>>) -> Seq<Seq<char>> {
    match root {
        Option::Some(r) => seq!["split-window"@, "-t"@, target, "-c"@, r],
        Option::None => seq!["split-window"@, "-t"@, target],
    }
}

/// The arguments of a window-creation call; the optional directory is handed
/// to `-c` as one intact value.
pub open spec fn new_window_args(session: Seq<char>, window: Seq<char>, root: Option<Seq<char>>) -> Seq<
    Seq<char>,
> {
    match root {
        Option::Some(r) => seq!["new-window"@, "-t"@, session, "-n"@, window, "-c"@, r],
        Option::None => seq!["new-window"@, "-t"@, session, "-n"@, window],
    }
}

/// The arguments of a layout call.
pub open spec fn layout_args(target: Seq<char>, layout: Seq<char>) -> Seq<Seq<char>> {
    seq!["select-layout"@, "-t"@, target, layout]
}

/// The arguments of a send-keys call: the literal command text followed by
/// the enter keypress.
pub open spec fn send_keys_args(target: Seq<char>, exec_text: Seq<char>) -> Seq<Seq<char>> {
    seq!["send-keys"@, "-t"@, target, exec_text, "KPEnter"@]
}

/// The arguments of a window-selection call.
pub open spec fn select_window_args(target: Seq<char>) -> Seq<Seq<char>> {
    seq!["select-window"@, "-t"@, target]
}

/// The arguments of a pane-selection call.
pub open spec fn select_pane_args(target: Seq<char>) -> Seq<Seq<char>> {
    seq!["select-pane"@, "-t"@, target]
}

/// The arguments of a window-kill call.
pub open spec fn kill_window_args(target: Seq<char>) -> Seq<Seq<char>> {
    seq!["kill-window"@, "-t"@, target]
}

/// The arguments that list the server's global options.
pub open spec fn get_config_args() -> Seq<Seq<char>> {
    seq!["start-server"@, ";"@, "show-options"@, "-g"@]
}

/// Open a detached session under the given name, with a throwaway first
/// window to be killed once the real windows exist: the session-creation
/// primitive takes no working directory, so no user window is opened here.
pub fn new_session(session_name: &String, window_name: &String) -> (args: Vec<String>)
    ensures
        str_views(args@) == new_session_args(session_name@, window_name@),
{
    let mut args: Vec<String> = Vec::new();
    args.push("new".to_owned());
    args.push("-d".to_owned());
    args.push("-s".to_owned());
    args.push(session_name.clone());
    args.push("-n".to_owned());
    args.push(window_name.clone());
    proof {
        assert(str_views(args@) =~= new_session_args(session_name@, window_name@));
    }
    args
}

/// Split the targeted pane in two, the new pane opening in the given
/// directory.
pub fn split_window(target: &String, root: &Option<String>) -> (args: Vec<String>)
    ensures
        str_views(args@) == split_window_args(target@, crate::views::opt_chars(*root)),
{
    let mut args: Vec<String> = Vec::new();
    args.push("split-window".to_owned());
    args.push("-t".to_owned());
    args.push(target.clone());
    match root {
        Option::Some(r) => {
            args.push("-c".to_owned());
            args.push(r.clone());
        },
        Option::None => {},
    }
    proof {
        assert(str_views(args@) =~= split_window_args(target@, crate::views::opt_chars(*root)));
    }
    args
}

/// Open a new window under the given name, in the given directory.
pub fn new_window(session_name: &String, window_name: &String, root: &Option<String>) -> (args: Vec<
    String,
>)
    ensures
        str_views(args@) == new_window_args(
            session_name@,
            window_name@,
            crate::views::opt_chars(*root),
        ),
{
    let mut args: Vec<String> = Vec::new();
    args.push("new-window".to_owned());
    args.push("-t".to_owned());
    args.push(session_name.clone());
    args.push("-n".to_owned());
    args.push(window_name.clone());
    match root {
        Option::Some(r) => {
            args.push("-c".to_owned());
            args.push(r.clone());
        },
        Option::None => {},
    }
    proof {
        assert(str_views(args@) =~= new_window_args(
            session_name@,
            window_name@,
            crate::views::opt_chars(*root),
        ));
    }
    args
}

/// Apply a named layout to the targeted window.
pub fn layout(target: &String, layout_name: &String) -> (args: Vec<String>)
    ensures
        str_views(args@) == layout_args(target@, layout_name@),
{
    let mut args: Vec<String> = Vec::new();
    args.push("select-layout".to_owned());
    args.push("-t".to_owned());
    args.push(target.clone());
    args.push(layout_name.clone());
    proof {
        assert(str_views(args@) =~= layout_args(target@, layout_name@));
    }
    args
}

/// Type the given command into the targeted pane and press enter.
pub fn send_keys(target: &String, exec_text: &String) -> (args: Vec<String>)
    ensures
        str_views(args@) == send_keys_args(target@, exec_text@),
{
    let mut args: Vec<String> = Vec::new();
    args.push("send-keys".to_owned());
    args.push("-t".to_owned());
    args.push(target.clone());
    args.push(exec_text.clone());
    args.push("KPEnter".to_owned());
    proof {
        assert(str_views(args@) =~= send_keys_args(target@, exec_text@));
    }
    args
}

/// Put the focus on the targeted window.
pub fn select_window(target: &String) -> (args: Vec<String>)
    ensures
        str_views(args@) == select_window_args(target@),
{
    let mut args: Vec<String> = Vec::new();
    args.push("select-window".to_owned());
    args.push("-t".to_owned());
    args.push(target.clone());
    proof {
        assert(str_views(args@) =~= select_window_args(target@));
    }
    args
}

/// Put the focus on the targeted pane.
pub fn select_pane(target: &String) -> (args: Vec<String>)
    ensures
        str_views(args@) == select_pane_args(target@),
{
    let mut args: Vec<String> = Vec::new();
    args.push("select-pane".to_owned());
    args.push("-t".to_owned());
    args.push(target.clone());
    proof {
        assert(str_views(args@) =~= select_pane_args(target@));
    }
    args
}

/// Kill the targeted window.
pub fn kill_window(target: &String) -> (args: Vec<String>)
    ensures
        str_views(args@) == kill_window_args(target@),
{
    let mut args: Vec<String> = Vec::new();
    args.push("kill-window".to_owned());
    args.push("-t".to_owned());
    args.push(target.clone());
    proof {
        assert(str_views(args@) =~= kill_window_args(target@));
    }
    args
}

/// The call that prints the server's global options.
pub fn get_config() -> (args: Vec<String>)
    ensures
        str_views(args@) == get_config_args(),
{
    let mut args: Vec<String> = Vec::new();
    args.push("start-server".to_owned());
    args.push(";".to_owned());
    args.push("show-options".to_owned());
    args.push("-g".to_owned());
    proof {
        assert(str_views(args@) =~= get_config_args());
    }
    args
}

} // verus!
