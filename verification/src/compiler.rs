//! The command compiler: a pure walk of the configuration that emits the
//! ordered multiplexer operations. The sequence is fully determined by the
//! configuration, the throwaway window name, and the working and home
//! directories handed in by the caller.

use crate::command::{cmd_views, Command, CommandModel};
use crate::config::{config_wf, ConfigModel, Configuration, WindowModel};
use crate::path::{resolve, resolve_spec};
use crate::views::{lemma_map_values_push, opt_chars, str_views};
use vstd::prelude::*;

verus! {

/// The layout applied to a window of several panes that names none.
pub open spec fn default_layout() -> Seq<char> {
    "even-horizontal"@
}

/// The layout applied to a window of several panes that names none.
pub fn default_layout_string() -> (r: String)
    ensures
        r@ == default_layout(),
{
    "even-horizontal".to_owned()
}

/// The more specific of two optional path specifications.
pub open spec fn first_some(a: Option<Seq<char>>, b: Option<Seq<char>>) -> Option<Seq<char>> {
    match a {
        Option::Some(_) => a,
        Option::None => b,
    }
}

/// The layout a window is given: its own, or the default.
pub open spec fn layout_name(o: Option<Seq<char>>) -> Seq<char> {
    match o {
        Option::Some(l) => l,
        Option::None => default_layout(),
    }
}

/// The resolved root of a window: its own override, else the configuration's,
/// resolved against the working and home directories.
pub open spec fn window_root(w: WindowModel, croot: Option<Seq<char>>, cwd: Seq<char>, home: Seq<
    char,
>) -> Seq<char> {
    resolve_spec(first_some(w.root, croot), cwd, home)
}

/// The resolved root of pane `i` of a window: the pane's override, else the
/// window's, else the configuration's.
pub open spec fn pane_root(w: WindowModel, i: int, croot: Option<Seq<char>>, cwd: Seq<char>, home: Seq<
    char,
>) -> Seq<char> {
    resolve_spec(first_some(w.panes[i].root, first_some(w.root, croot)), cwd, home)
}

/// The commands of one window: its creation, the window-scoped hooks, one
/// split for each pane beyond the first, the layout when two or more panes
/// exist, and each pane's command, in that order.
pub open spec fn window_section(
    w: WindowModel,
    pre_window: Seq<Seq<char>>,
    croot: Option<Seq<char>>,
    cwd: Seq<char>,
    home: Seq<char>,
) -> Seq<CommandModel> {
    seq![
        CommandModel::Window {
            name: w.name,
            root: Option::Some(window_root(w, croot, cwd, home)),
        },
    ] + pre_window.map_values(|e: Seq<char>| CommandModel::PreWindow { window: w.name, exec_text: e })
        + Seq::new(
        (w.panes.len() - 1) as nat,
        |i: int|
            CommandModel::Split {
                window: w.name,
                prev_pane: i as nat,
                root: Option::Some(pane_root(w, i + 1, croot, cwd, home)),
            },
    ) + (if w.panes.len() >= 2 {
        seq![CommandModel::Layout { window: w.name, layout: layout_name(w.layout) }]
    } else {
        Seq::<CommandModel>::empty()
    }) + Seq::new(
        w.panes.len(),
        |i: int|
            CommandModel::SendKeys {
                window: w.name,
                pane: i as nat,
                exec_text: w.panes[i].exec_text,
            },
    )
}

/// The concatenated sections of all windows, in declaration order.
pub open spec fn windows_section(
    ws: Seq<WindowModel>,
    pre_window: Seq<Seq<char>>,
    croot: Option<Seq<char>>,
    cwd: Seq<char>,
    home: Seq<char>,
) -> Seq<CommandModel>
    decreases ws.len(),
{
    if ws.len() == 0 {
        Seq::empty()
    } else {
        windows_section(ws.drop_last(), pre_window, croot, cwd, home) + window_section(
            ws.last(),
            pre_window,
            croot,
            cwd,
            home,
        )
    }
}

/// The whole compiled sequence: session creation, the session-scoped hooks,
/// every window's section, focus restoration on the first declared window,
/// and the kill of the throwaway window.
pub open spec fn compile_spec(c: ConfigModel, tmp: Seq<char>, cwd: Seq<char>, home: Seq<
    char,
>) -> Seq<CommandModel> {
    seq![CommandModel::Session { name: c.name, tmp_window: tmp }] + c.pre.map_values(
        |e: Seq<char>| CommandModel::Pre { exec_text: e },
    ) + windows_section(c.windows, c.pre_window, c.root, cwd, home) + seq![
        CommandModel::SelectWindow { window: c.windows[0].name },
        CommandModel::SelectPane { window: c.windows[0].name, pane: 0 },
        CommandModel::KillWindow { window: tmp },
    ]
}

/// A session-creation command.
pub open spec fn is_session_cmd(c: CommandModel) -> bool {
    c matches CommandModel::Session { .. }
}

/// A session-scoped hook command.
pub open spec fn is_pre_cmd(c: CommandModel) -> bool {
    c matches CommandModel::Pre { .. }
}

/// A window-creation command.
pub open spec fn is_window_cmd(c: CommandModel) -> bool {
    c matches CommandModel::Window { .. }
}

/// A window-scoped hook command.
pub open spec fn is_pre_window_cmd(c: CommandModel) -> bool {
    c matches CommandModel::PreWindow { .. }
}

/// A pane-split command.
pub open spec fn is_split_cmd(c: CommandModel) -> bool {
    c matches CommandModel::Split { .. }
}

/// A layout command.
pub open spec fn is_layout_cmd(c: CommandModel) -> bool {
    c matches CommandModel::Layout { .. }
}

/// A send-command command.
pub open spec fn is_send_cmd(c: CommandModel) -> bool {
    c matches CommandModel::SendKeys { .. }
}

/// A select-window command.
pub open spec fn is_select_window_cmd(c: CommandModel) -> bool {
    c matches CommandModel::SelectWindow { .. }
}

/// A select-pane command.
pub open spec fn is_select_pane_cmd(c: CommandModel) -> bool {
    c matches CommandModel::SelectPane { .. }
}

/// A kill-window command.
pub open spec fn is_kill_cmd(c: CommandModel) -> bool {
    c matches CommandModel::KillWindow { .. }
}

/// A command that belongs to some window's section.
pub open spec fn is_window_scoped(c: CommandModel) -> bool {
    is_window_cmd(c) || is_pre_window_cmd(c) || is_split_cmd(c) || is_layout_cmd(c) || is_send_cmd(
        c,
    )
}

/// How many commands of a sequence satisfy a predicate.
pub open spec fn count_matching(s: Seq<CommandModel>, p: spec_fn(CommandModel) -> bool) -> nat
    decreases s.len(),
{
    if s.len() == 0 {
        0
    } else {
        count_matching(s.drop_last(), p) + (if p(s.last()) {
            1nat
        } else {
            0nat
        })
    }
}

/// Counting distributes over concatenation.
pub proof fn lemma_count_add(a: Seq<CommandModel>, b: Seq<CommandModel>, p: spec_fn(
    CommandModel,
) -> bool)
    ensures
        count_matching(a + b, p) == count_matching(a, p) + count_matching(b, p),
    decreases b.len(),
{
    if b.len() == 0 {
        assert(a + b =~= a);
    } else {
        assert((a + b).drop_last() =~= a + b.drop_last());
        assert((a + b).last() == b.last());
        lemma_count_add(a, b.drop_last(), p);
    }
}

/// A sequence with no matching command counts zero.
pub proof fn lemma_count_none(s: Seq<CommandModel>, p: spec_fn(CommandModel) -> bool)
    requires
        forall|i: int| 0 <= i < s.len() ==> !p(s[i]),
    ensures
        count_matching(s, p) == 0,
    decreases s.len(),
{
    if s.len() > 0 {
        assert(!p(s[s.len() - 1]));
        lemma_count_none(s.drop_last(), p);
    }
}

/// A sequence of only matching commands counts its length.
pub proof fn lemma_count_all(s: Seq<CommandModel>, p: spec_fn(CommandModel) -> bool)
    requires
        forall|i: int| 0 <= i < s.len() ==> p(s[i]),
    ensures
        count_matching(s, p) == s.len(),
    decreases s.len(),
{
    if s.len() > 0 {
        assert(p(s[s.len() - 1]));
        lemma_count_all(s.drop_last(), p);
    }
}

/// Every command of a window's section is window-scoped, and carries that
/// window's name.
pub proof fn lemma_window_section_scoped(
    w: WindowModel,
    pw: Seq<Seq<char>>,
    croot: Option<Seq<char>>,
    cwd: Seq<char>,
    home: Seq<char>,
)
    ensures
        forall|k: int|
            0 <= k < window_section(w, pw, croot, cwd, home).len() ==> is_window_scoped(
                #[trigger] window_section(w, pw, croot, cwd, home)[k],
            ),
{
    let s = window_section(w, pw, croot, cwd, home);
    assert forall|k: int| 0 <= k < s.len() implies is_window_scoped(s[k]) by {
        assert(s[k] == window_section(w, pw, croot, cwd, home)[k]);
    }
}

/// Every command of the concatenated window sections is window-scoped.
pub proof fn lemma_windows_section_scoped(
    ws: Seq<WindowModel>,
    pw: Seq<Seq<char>>,
    croot: Option<Seq<char>>,
    cwd: Seq<char>,
    home: Seq<char>,
)
    ensures
        forall|k: int|
            0 <= k < windows_section(ws, pw, croot, cwd, home).len() ==> is_window_scoped(
                #[trigger] windows_section(ws, pw, croot, cwd, home)[k],
            ),
    decreases ws.len(),
{
    if ws.len() > 0 {
        let left = windows_section(ws.drop_last(), pw, croot, cwd, home);
        let right = window_section(ws.last(), pw, croot, cwd, home);
        lemma_windows_section_scoped(ws.drop_last(), pw, croot, cwd, home);
        lemma_window_section_scoped(ws.last(), pw, croot, cwd, home);
        let s = windows_section(ws, pw, croot, cwd, home);
        assert(s == left + right);
        assert forall|k: int| 0 <= k < s.len() implies is_window_scoped(s[k]) by {
            if k < left.len() {
                assert(s[k] == left[k]);
            } else {
                assert(s[k] == right[k - left.len()]);
            }
        }
    }
}

/// The compiled sequence holds exactly one session-creation command (its
/// first), exactly one select-window and one select-pane command, both
/// targeting the first declared window, and exactly one kill-window command,
/// targeting the throwaway window — whatever the configuration holds.
pub proof fn lemma_compile_bookends(c: ConfigModel, tmp: Seq<char>, cwd: Seq<char>, home: Seq<
    char,
>)
    requires
        c.windows.len() > 0,
    ensures
        count_matching(compile_spec(c, tmp, cwd, home), |cm: CommandModel| is_session_cmd(cm))
            == 1,
        count_matching(compile_spec(c, tmp, cwd, home), |cm: CommandModel| is_select_window_cmd(cm))
            == 1,
        count_matching(compile_spec(c, tmp, cwd, home), |cm: CommandModel| is_select_pane_cmd(cm))
            == 1,
        count_matching(compile_spec(c, tmp, cwd, home), |cm: CommandModel| is_kill_cmd(cm)) == 1,
        compile_spec(c, tmp, cwd, home)[0] == (CommandModel::Session {
            name: c.name,
            tmp_window: tmp,
        }),
        compile_spec(c, tmp, cwd, home)[compile_spec(c, tmp, cwd, home).len() - 3]
            == (CommandModel::SelectWindow { window: c.windows[0].name }),
        compile_spec(c, tmp, cwd, home)[compile_spec(c, tmp, cwd, home).len() - 2]
            == (CommandModel::SelectPane { window: c.windows[0].name, pane: 0 }),
        compile_spec(c, tmp, cwd, home)[compile_spec(c, tmp, cwd, home).len() - 1]
            == (CommandModel::KillWindow { window: tmp }),
{
    let head = seq![CommandModel::Session { name: c.name, tmp_window: tmp }];
    let pre = c.pre.map_values(|e: Seq<char>| CommandModel::Pre { exec_text: e });
    let mid = windows_section(c.windows, c.pre_window, c.root, cwd, home);
    let tail = seq![
        CommandModel::SelectWindow { window: c.windows[0].name },
        CommandModel::SelectPane { window: c.windows[0].name, pane: 0 },
        CommandModel::KillWindow { window: tmp },
    ];
    let s = compile_spec(c, tmp, cwd, home);
    assert(s == head + pre + mid + tail);
    lemma_windows_section_scoped(c.windows, c.pre_window, c.root, cwd, home);
    assert(tail =~= seq![tail[0], tail[1], tail[2]]);
    let psess = |cm: CommandModel| is_session_cmd(cm);
    let pselw = |cm: CommandModel| is_select_window_cmd(cm);
    let pselp = |cm: CommandModel| is_select_pane_cmd(cm);
    let pkill = |cm: CommandModel| is_kill_cmd(cm);
    lemma_count_add(head + pre + mid, tail, psess);
    lemma_count_add(head + pre, mid, psess);
    lemma_count_add(head, pre, psess);
    lemma_count_one(head[0], psess);
    assert(head =~= seq![head[0]]);
    lemma_count_none(pre, psess);
    lemma_count_none(mid, psess);
    lemma_count_three(tail[0], tail[1], tail[2], psess);
    lemma_count_add(head + pre + mid, tail, pselw);
    lemma_count_add(head + pre, mid, pselw);
    lemma_count_add(head, pre, pselw);
    lemma_count_one(head[0], pselw);
    lemma_count_none(pre, pselw);
    lemma_count_none(mid, pselw);
    lemma_count_three(tail[0], tail[1], tail[2], pselw);
    lemma_count_add(head + pre + mid, tail, pselp);
    lemma_count_add(head + pre, mid, pselp);
    lemma_count_add(head, pre, pselp);
    lemma_count_one(head[0], pselp);
    lemma_count_none(pre, pselp);
    lemma_count_none(mid, pselp);
    lemma_count_three(tail[0], tail[1], tail[2], pselp);
    lemma_count_add(head + pre + mid, tail, pkill);
    lemma_count_add(head + pre, mid, pkill);
    lemma_count_add(head, pre, pkill);
    lemma_count_one(head[0], pkill);
    lemma_count_none(pre, pkill);
    lemma_count_none(mid, pkill);
    lemma_count_three(tail[0], tail[1], tail[2], pkill);
}

/// The count of a one-command sequence, unfolded.
proof fn lemma_count_one(a: CommandModel, p: spec_fn(CommandModel) -> bool)
    ensures
        count_matching(seq![a], p) == (if p(a) {
            1nat
        } else {
            0nat
        }),
{
    assert(seq![a].drop_last() =~= Seq::<CommandModel>::empty());
    assert(seq![a].last() == a);
    assert(count_matching(Seq::<CommandModel>::empty(), p) == 0);
}

/// The count of a three-command sequence, unfolded.
proof fn lemma_count_three(
    a: CommandModel,
    b: CommandModel,
    cc: CommandModel,
    p: spec_fn(CommandModel) -> bool,
)
    ensures
        count_matching(seq![a, b, cc], p) == (if p(a) {
            1nat
        } else {
            0nat
        }) + (if p(b) {
            1nat
        } else {
            0nat
        }) + (if p(cc) {
            1nat
        } else {
            0nat
        }),
{
    let s3 = seq![a, b, cc];
    assert(s3.drop_last() =~= seq![a, b]);
    assert(seq![a, b].drop_last() =~= seq![a]);
    assert(seq![a].drop_last() =~= Seq::<CommandModel>::empty());
    assert(s3.last() == cc);
    assert(seq![a, b].last() == b);
    assert(seq![a].last() == a);
    assert(count_matching(Seq::<CommandModel>::empty(), p) == 0);
    assert(count_matching(seq![a], p) == (if p(a) {
        1nat
    } else {
        0nat
    }));
    assert(count_matching(seq![a, b], p) == count_matching(seq![a], p) + (if p(b) {
        1nat
    } else {
        0nat
    }));
    assert(count_matching(s3, p) == count_matching(seq![a, b], p) + (if p(cc) {
        1nat
    } else {
        0nat
    }));
}

/// For a window of K panes: its section holds exactly K-1 pane-split
/// commands and exactly K send-command commands, every one of them
/// targeting that window, and a layout command exactly when the window has
/// two or more panes — never for a single-pane window.
pub proof fn lemma_window_section_counts(
    w: WindowModel,
    pw: Seq<Seq<char>>,
    croot: Option<Seq<char>>,
    cwd: Seq<char>,
    home: Seq<char>,
)
    requires
        w.panes.len() > 0,
    ensures
        count_matching(window_section(w, pw, croot, cwd, home), |cm: CommandModel| is_split_cmd(cm))
            == w.panes.len() - 1,
        count_matching(window_section(w, pw, croot, cwd, home), |cm: CommandModel| is_send_cmd(cm))
            == w.panes.len(),
        count_matching(
            window_section(w, pw, croot, cwd, home),
            |cm: CommandModel| is_layout_cmd(cm),
        ) == (if w.panes.len() >= 2 {
            1nat
        } else {
            0nat
        }),
        forall|k: int|
            0 <= k < window_section(w, pw, croot, cwd, home).len() ==> ((#[trigger] window_section(
                w,
                pw,
                croot,
                cwd,
                home,
            )[k] matches CommandModel::Split { window, .. } ==> window == w.name)
                && (window_section(w, pw, croot, cwd, home)[k] matches CommandModel::SendKeys {
                window,
                ..
            } ==> window == w.name) && (window_section(w, pw, croot, cwd, home)[k]
                matches CommandModel::Layout { window, .. } ==> window == w.name)),
{
    let a1 = seq![
        CommandModel::Window { name: w.name, root: Option::Some(window_root(w, croot, cwd, home)) },
    ];
    let a2 = pw.map_values(|e: Seq<char>| CommandModel::PreWindow { window: w.name, exec_text: e });
    let a3 = Seq::new(
        (w.panes.len() - 1) as nat,
        |i: int|
            CommandModel::Split {
                window: w.name,
                prev_pane: i as nat,
                root: Option::Some(pane_root(w, i + 1, croot, cwd, home)),
            },
    );
    let a4 = if w.panes.len() >= 2 {
        seq![CommandModel::Layout { window: w.name, layout: layout_name(w.layout) }]
    } else {
        Seq::<CommandModel>::empty()
    };
    let a5 = Seq::new(
        w.panes.len(),
        |i: int|
            CommandModel::SendKeys {
                window: w.name,
                pane: i as nat,
                exec_text: w.panes[i].exec_text,
            },
    );
    let s = window_section(w, pw, croot, cwd, home);
    assert(s == a1 + a2 + a3 + a4 + a5);
    let psplit = |cm: CommandModel| is_split_cmd(cm);
    let psend = |cm: CommandModel| is_send_cmd(cm);
    let playout = |cm: CommandModel| is_layout_cmd(cm);
    lemma_count_add(a1 + a2 + a3 + a4, a5, psplit);
    lemma_count_add(a1 + a2 + a3, a4, psplit);
    lemma_count_add(a1 + a2, a3, psplit);
    lemma_count_add(a1, a2, psplit);
    lemma_count_add(a1 + a2 + a3 + a4, a5, psend);
    lemma_count_add(a1 + a2 + a3, a4, psend);
    lemma_count_add(a1 + a2, a3, psend);
    lemma_count_add(a1, a2, psend);
    lemma_count_add(a1 + a2 + a3 + a4, a5, playout);
    lemma_count_add(a1 + a2 + a3, a4, playout);
    lemma_count_add(a1 + a2, a3, playout);
    lemma_count_add(a1, a2, playout);
    lemma_count_none(a1, psplit);
    lemma_count_none(a2, psplit);
    lemma_count_all(a3, psplit);
    lemma_count_none(a4, psplit);
    lemma_count_none(a5, psplit);
    lemma_count_none(a1, psend);
    lemma_count_none(a2, psend);
    lemma_count_none(a3, psend);
    lemma_count_none(a4, psend);
    lemma_count_all(a5, psend);
    lemma_count_none(a1, playout);
    lemma_count_none(a2, playout);
    lemma_count_none(a3, playout);
    if w.panes.len() >= 2 {
        lemma_count_all(a4, playout);
    } else {
        lemma_count_none(a4, playout);
    }
    lemma_count_none(a5, playout);
}

/// Session hooks run before any window exists: in the compiled sequence
/// every session-scoped hook command stands strictly before every
/// window-creation command.
pub proof fn lemma_pre_before_windows(c: ConfigModel, tmp: Seq<char>, cwd: Seq<char>, home: Seq<
    char,
>)
    requires
        c.windows.len() > 0,
    ensures
        forall|i: int, j: int|
            0 <= i < compile_spec(c, tmp, cwd, home).len() && 0 <= j < compile_spec(
                c,
                tmp,
                cwd,
                home,
            ).len() && is_pre_cmd(#[trigger] compile_spec(c, tmp, cwd, home)[i]) && is_window_cmd(
                #[trigger] compile_spec(c, tmp, cwd, home)[j],
            ) ==> i < j,
{
    let head = seq![CommandModel::Session { name: c.name, tmp_window: tmp }];
    let pre = c.pre.map_values(|e: Seq<char>| CommandModel::Pre { exec_text: e });
    let mid = windows_section(c.windows, c.pre_window, c.root, cwd, home);
    let tail = seq![
        CommandModel::SelectWindow { window: c.windows[0].name },
        CommandModel::SelectPane { window: c.windows[0].name, pane: 0 },
        CommandModel::KillWindow { window: tmp },
    ];
    let s = compile_spec(c, tmp, cwd, home);
    assert(s == head + pre + mid + tail);
    lemma_windows_section_scoped(c.windows, c.pre_window, c.root, cwd, home);
    assert forall|i: int, j: int|
        0 <= i < s.len() && 0 <= j < s.len() && is_pre_cmd(s[i]) && is_window_cmd(s[j]) implies i
        < j by {
        let bound = 1 + pre.len();
        if i >= bound {
            if i < bound + mid.len() {
                assert(s[i] == mid[i - bound]);
                assert(is_window_scoped(mid[i - bound]));
            } else {
                assert(s[i] == tail[i - bound - mid.len()]);
            }
            assert(false);
        }
        if j < bound {
            if j == 0 {
                assert(s[0] == head[0]);
            } else {
                assert(s[j] == pre[j - 1]);
            }
            assert(false);
        }
    }
}

/// A window's hooks run between its creation and its panes: in the window's
/// section the creation command stands first, and every window-scoped hook
/// stands strictly before every split and every send command.
pub proof fn lemma_pre_window_placement(
    w: WindowModel,
    pw: Seq<Seq<char>>,
    croot: Option<Seq<char>>,
    cwd: Seq<char>,
    home: Seq<char>,
)
    requires
        w.panes.len() > 0,
    ensures
        window_section(w, pw, croot, cwd, home)[0] == (CommandModel::Window {
            name: w.name,
            root: Option::Some(window_root(w, croot, cwd, home)),
        }),
        forall|j: int|
            0 <= j < window_section(w, pw, croot, cwd, home).len() && is_pre_window_cmd(
                #[trigger] window_section(w, pw, croot, cwd, home)[j],
            ) ==> 0 < j,
        forall|j: int, k: int|
            0 <= j < window_section(w, pw, croot, cwd, home).len() && 0 <= k < window_section(
                w,
                pw,
                croot,
                cwd,
                home,
            ).len() && is_pre_window_cmd(#[trigger] window_section(w, pw, croot, cwd, home)[j]) && (
            is_split_cmd(#[trigger] window_section(w, pw, croot, cwd, home)[k]) || is_send_cmd(
                window_section(w, pw, croot, cwd, home)[k],
            )) ==> j < k,
{
    let a1 = seq![
        CommandModel::Window { name: w.name, root: Option::Some(window_root(w, croot, cwd, home)) },
    ];
    let a2 = pw.map_values(|e: Seq<char>| CommandModel::PreWindow { window: w.name, exec_text: e });
    let a3 = Seq::new(
        (w.panes.len() - 1) as nat,
        |i: int|
            CommandModel::Split {
                window: w.name,
                prev_pane: i as nat,
                root: Option::Some(pane_root(w, i + 1, croot, cwd, home)),
            },
    );
    let a4 = if w.panes.len() >= 2 {
        seq![CommandModel::Layout { window: w.name, layout: layout_name(w.layout) }]
    } else {
        Seq::<CommandModel>::empty()
    };
    let a5 = Seq::new(
        w.panes.len(),
        |i: int|
            CommandModel::SendKeys {
                window: w.name,
                pane: i as nat,
                exec_text: w.panes[i].exec_text,
            },
    );
    let s = window_section(w, pw, croot, cwd, home);
    assert(s == a1 + a2 + a3 + a4 + a5);
    assert forall|j: int, k: int|
        0 <= j < s.len() && 0 <= k < s.len() && is_pre_window_cmd(s[j]) && (is_split_cmd(s[k])
            || is_send_cmd(s[k])) implies j < k by {
        let hooks_end = 1 + a2.len();
        if j == 0 {
            assert(s[0] == a1[0]);
            assert(false);
        }
        if j >= hooks_end {
            if j < hooks_end + a3.len() {
                assert(s[j] == a3[j - hooks_end]);
            } else if j < hooks_end + a3.len() + a4.len() {
                assert(s[j] == a4[j - hooks_end - a3.len()]);
            } else {
                assert(s[j] == a5[j - hooks_end - a3.len() - a4.len()]);
            }
            assert(false);
        }
        if k < hooks_end {
            if k == 0 {
                assert(s[0] == a1[0]);
            } else {
                assert(s[k] == a2[k - 1]);
            }
            assert(false);
        }
    }
    assert forall|j: int|
        0 <= j < s.len() && is_pre_window_cmd(s[j]) implies 0 < j by {
        if j == 0 {
            assert(s[0] == a1[0]);
        }
    }
}

/// The more specific of two optional path specifications.
fn first_some_string(a: &Option<String>, b: &Option<String>) -> (r: Option<String>)
    ensures
        opt_chars(r) == first_some(opt_chars(*a), opt_chars(*b)),
{
    match a {
        Option::Some(x) => Option::Some(x.clone()),
        Option::None => match b {
            Option::Some(y) => Option::Some(y.clone()),
            Option::None => Option::None,
        },
    }
}

/// The commands of one window.
fn window_commands(
    w: &crate::config::Window,
    pre_window: &Vec<String>,
    croot: &Option<String>,
    cwd: &String,
    home: &String,
) -> (out: Vec<Command>)
    requires
        w@.panes.len() > 0,
    ensures
        cmd_views(out@) == window_section(w@, str_views(pre_window@), opt_chars(*croot), cwd@, home@),
{
    let ghost wm = w@;
    let ghost pw = str_views(pre_window@);
    let ghost cr = opt_chars(*croot);
    let mut out: Vec<Command> = Vec::new();

    let wroot = first_some_string(&w.root, croot);
    out.push(
        Command::Window(
            crate::command::Window { value: w.name.clone(), root: Option::Some(resolve(&wroot, cwd, home)) },
        ),
    );
    let ghost sec_win = seq![
        CommandModel::Window { name: wm.name, root: Option::Some(window_root(wm, cr, cwd@, home@)) },
    ];
    proof {
        assert(cmd_views(out@) =~= sec_win);
    }

    let n_hooks = pre_window.len();
    for i in 0..n_hooks
        invariant
            n_hooks == pre_window@.len(),
            wm == w@,
            cmd_views(out@) =~= sec_win + pw.take(i as int).map_values(
                |e: Seq<char>| CommandModel::PreWindow { window: wm.name, exec_text: e },
            ),
            pw == str_views(pre_window@),
    {
        let c = Command::PreWindow { window: w.name.clone(), exec_text: pre_window[i].clone() };
        let ghost prev = out@;
        out.push(c);
        proof {
            assert(pw.take(i as int + 1) =~= pw.take(i as int).push(pw[i as int]));
            lemma_map_values_push(
                pw.take(i as int),
                pw[i as int],
                |e: Seq<char>| CommandModel::PreWindow { window: wm.name, exec_text: e },
            );
            lemma_map_values_push(prev, c, |c2: Command| c2@);
            assert(cmd_views(out@) =~= sec_win + pw.take(i as int + 1).map_values(
                |e: Seq<char>| CommandModel::PreWindow { window: wm.name, exec_text: e },
            ));
        }
    }
    let ghost sec_hooks = pw.map_values(
        |e: Seq<char>| CommandModel::PreWindow { window: wm.name, exec_text: e },
    );
    proof {
        assert(pw.take(n_hooks as int) =~= pw);
        assert(cmd_views(out@) =~= sec_win + sec_hooks);
    }

    let n_panes = w.panes.len();
    let ghost splitf = |i: int|
        CommandModel::Split {
            window: wm.name,
            prev_pane: i as nat,
            root: Option::Some(pane_root(wm, i + 1, cr, cwd@, home@)),
        };
    for i in 1..n_panes
        invariant
            n_panes == w.panes@.len(),
            n_panes == wm.panes.len(),
            wm == w@,
            cr == opt_chars(*croot),
            opt_chars(wroot) == first_some(wm.root, cr),
            cmd_views(out@) =~= sec_win + sec_hooks + Seq::new((i - 1) as nat, splitf),
            splitf == (|i2: int|
                CommandModel::Split {
                    window: wm.name,
                    prev_pane: i2 as nat,
                    root: Option::Some(pane_root(wm, i2 + 1, cr, cwd@, home@)),
                }),
    {
        let proot = first_some_string(&w.panes[i].root, &wroot);
        let c = Command::Split {
            window: w.name.clone(),
            prev_pane: i - 1,
            root: Option::Some(resolve(&proot, cwd, home)),
        };
        let ghost prev = out@;
        out.push(c);
        proof {
            assert(w@.panes[i as int] == w.panes@.map_values(|p: crate::config::Pane| p@)[i as int]);
            assert(c@ == splitf(i - 1));
            lemma_map_values_push(prev, c, |c2: Command| c2@);
            assert(Seq::new(i as nat, splitf) =~= Seq::new((i - 1) as nat, splitf).push(
                splitf(i - 1),
            ));
            assert(cmd_views(out@) =~= sec_win + sec_hooks + Seq::new(i as nat, splitf));
        }
    }
    let ghost sec_splits = Seq::new((wm.panes.len() - 1) as nat, splitf);
    proof {
        assert(cmd_views(out@) =~= sec_win + sec_hooks + sec_splits);
    }

    if n_panes >= 2 {
        let lname = match &w.layout {
            Option::Some(l) => l.clone(),
            Option::None => default_layout_string(),
        };
        let c = Command::Layout { window: w.name.clone(), layout: lname };
        let ghost prev = out@;
        out.push(c);
        proof {
            lemma_map_values_push(prev, c, |c2: Command| c2@);
        }
    }
    let ghost sec_layout = if wm.panes.len() >= 2 {
        seq![CommandModel::Layout { window: wm.name, layout: layout_name(wm.layout) }]
    } else {
        Seq::<CommandModel>::empty()
    };
    proof {
        assert(cmd_views(out@) =~= sec_win + sec_hooks + sec_splits + sec_layout);
    }

    let ghost sendf = |i: int|
        CommandModel::SendKeys { window: wm.name, pane: i as nat, exec_text: wm.panes[i].exec_text };
    for i in 0..n_panes
        invariant
            n_panes == w.panes@.len(),
            n_panes == wm.panes.len(),
            wm == w@,
            cmd_views(out@) =~= sec_win + sec_hooks + sec_splits + sec_layout + Seq::new(
                i as nat,
                sendf,
            ),
            sendf == (|i2: int|
                CommandModel::SendKeys {
                    window: wm.name,
                    pane: i2 as nat,
                    exec_text: wm.panes[i2].exec_text,
                }),
    {
        let c = Command::SendKeys {
            window: w.name.clone(),
            pane: i,
            exec_text: w.panes[i].exec_text.clone(),
        };
        let ghost prev = out@;
        out.push(c);
        proof {
            assert(w@.panes[i as int] == w.panes@.map_values(|p: crate::config::Pane| p@)[i as int]);
            assert(c@ == sendf(i as int));
            lemma_map_values_push(prev, c, |c2: Command| c2@);
            assert(Seq::new(i as nat + 1, sendf) =~= Seq::new(i as nat, sendf).push(
                sendf(i as int),
            ));
            assert(cmd_views(out@) =~= sec_win + sec_hooks + sec_splits + sec_layout + Seq::new(
                i as nat + 1,
                sendf,
            ));
        }
    }
    proof {
        assert(Seq::new(wm.panes.len(), sendf) =~= Seq::new(
            wm.panes.len(),
            |i: int|
                CommandModel::SendKeys {
                    window: wm.name,
                    pane: i as nat,
                    exec_text: wm.panes[i].exec_text,
                },
        ));
        assert(sec_splits =~= Seq::new(
            (wm.panes.len() - 1) as nat,
            |i: int|
                CommandModel::Split {
                    window: wm.name,
                    prev_pane: i as nat,
                    root: Option::Some(pane_root(wm, i + 1, cr, cwd@, home@)),
                },
        ));
        assert(cmd_views(out@) =~= window_section(wm, pw, cr, cwd@, home@));
    }
    out
}

/// Compile a configuration into the full ordered command sequence.
///
/// The throwaway window name comes from the caller (it is a collaborator
/// concern, typically randomized); the working and home directories anchor
/// root resolution.
pub fn compile(config: &Configuration, tmp_window: &String, cwd: &String, home: &String) -> (cmds:
    Vec<Command>)
    requires
        config_wf(config@),
    ensures
        cmd_views(cmds@) == compile_spec(config@, tmp_window@, cwd@, home@),
{
    let ghost cm = config@;
    let mut out: Vec<Command> = Vec::new();
    out.push(Command::Session { name: config.name.clone(), tmp_window: tmp_window.clone() });
    let ghost head = seq![CommandModel::Session { name: cm.name, tmp_window: tmp_window@ }];
    proof {
        assert(cmd_views(out@) =~= head);
    }

    let n_pre = config.pre.len();
    for i in 0..n_pre
        invariant
            n_pre == config.pre@.len(),
            cm == config@,
            cmd_views(out@) =~= head + cm.pre.take(i as int).map_values(
                |e: Seq<char>| CommandModel::Pre { exec_text: e },
            ),
    {
        let c = Command::Pre { exec_text: config.pre[i].clone() };
        let ghost prev = out@;
        out.push(c);
        proof {
            assert(cm.pre[i as int] == config.pre@[i as int]@);
            assert(cm.pre.take(i as int + 1) =~= cm.pre.take(i as int).push(cm.pre[i as int]));
            lemma_map_values_push(
                cm.pre.take(i as int),
                cm.pre[i as int],
                |e: Seq<char>| CommandModel::Pre { exec_text: e },
            );
            lemma_map_values_push(prev, c, |c2: Command| c2@);
            assert(cmd_views(out@) =~= head + cm.pre.take(i as int + 1).map_values(
                |e: Seq<char>| CommandModel::Pre { exec_text: e },
            ));
        }
    }
    let ghost sec_pre = cm.pre.map_values(|e: Seq<char>| CommandModel::Pre { exec_text: e });
    proof {
        assert(cm.pre.take(n_pre as int) =~= cm.pre);
        assert(cmd_views(out@) =~= head + sec_pre);
    }

    let n_win = config.windows.len();
    for i in 0..n_win
        invariant
            n_win == config.windows@.len(),
            cm == config@,
            config_wf(cm),
            cmd_views(out@) =~= head + sec_pre + windows_section(
                cm.windows.take(i as int),
                cm.pre_window,
                cm.root,
                cwd@,
                home@,
            ),
    {
        proof {
            assert(cm.windows[i as int] == config.windows@.map_values(
                |w: crate::config::Window| w@,
            )[i as int]);
            assert(cm.windows[i as int].panes.len() > 0);
        }
        let mut wc = window_commands(&config.windows[i], &config.pre_window, &config.root, cwd, home);
        let ghost wcv = wc@;
        let ghost prev = out@;
        out.append(&mut wc);
        proof {
            assert(cm.windows[i as int] == config.windows@.map_values(
                |w: crate::config::Window| w@,
            )[i as int]);
            assert(cm.windows.take(i as int + 1).drop_last() =~= cm.windows.take(i as int));
            assert(cm.windows.take(i as int + 1).last() == cm.windows[i as int]);
            assert(windows_section(
                cm.windows.take(i as int + 1),
                cm.pre_window,
                cm.root,
                cwd@,
                home@,
            ) == windows_section(cm.windows.take(i as int), cm.pre_window, cm.root, cwd@, home@)
                + window_section(cm.windows[i as int], cm.pre_window, cm.root, cwd@, home@));
            assert(cmd_views(out@) =~= cmd_views(prev) + cmd_views(wcv));
            assert(cmd_views(out@) =~= head + sec_pre + windows_section(
                cm.windows.take(i as int + 1),
                cm.pre_window,
                cm.root,
                cwd@,
                home@,
            ));
        }
    }
    let ghost sec_windows = windows_section(cm.windows, cm.pre_window, cm.root, cwd@, home@);
    proof {
        assert(cm.windows.take(n_win as int) =~= cm.windows);
        assert(cmd_views(out@) =~= head + sec_pre + sec_windows);
    }

    let first_name = config.windows[0].name.clone();
    let c1 = Command::SelectWindow { window: first_name.clone() };
    let c2 = Command::SelectPane { window: first_name, pane: 0 };
    let c3 = Command::KillWindow { window: tmp_window.clone() };
    let ghost prev1 = out@;
    out.push(c1);
    proof {
        lemma_map_values_push(prev1, c1, |c: Command| c@);
    }
    let ghost prev2 = out@;
    out.push(c2);
    proof {
        lemma_map_values_push(prev2, c2, |c: Command| c@);
    }
    let ghost prev3 = out@;
    out.push(c3);
    proof {
        lemma_map_values_push(prev3, c3, |c: Command| c@);
        assert(cm.windows[0] == config.windows@.map_values(|w: crate::config::Window| w@)[0]);
        assert(cmd_views(out@) =~= compile_spec(cm, tmp_window@, cwd@, home@));
    }
    out
}

} // verus!
