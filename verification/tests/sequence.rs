//! Scenario tests on the compiled sequence, the path resolver, the call
//! mapping, the orchestrator and the text helpers.

use muxed::command::Command;
use muxed::compiler::{compile, default_layout_string};
use muxed::config::{parse, ConfigError, Configuration, Doc, Pane, Window};
use muxed::driver::{call_args, is_fatal};
use muxed::orchestrator::{next_action, step, Action, Outcome, Phase};
use muxed::path::resolve;
use muxed::project::modified_template;
use muxed::text::{i64_string, str_eq, u64_string};
use muxed::tmux;

fn dict(entries: Vec<(&str, Doc)>) -> Doc {
    Doc::Dict(entries.into_iter().map(|(k, v)| (k.to_string(), v)).collect())
}

fn strs(items: Vec<&str>) -> Doc {
    Doc::List(items.into_iter().map(|s| Doc::Str(s.to_string())).collect())
}

fn simple_config(windows: Vec<&str>) -> Configuration {
    let doc = dict(vec![("windows", strs(windows))]);
    parse(&doc, &"muxed".to_string()).unwrap()
}

fn compile_default(config: &Configuration) -> Vec<Command> {
    compile(
        config,
        &"tmp42".to_string(),
        &"/current".to_string(),
        &"/home/user".to_string(),
    )
}

#[test]
fn round_trip_three_bare_windows() {
    let config = simple_config(vec!["a", "b", "c"]);
    let cmds = compile_default(&config);
    assert_eq!(config.windows.len(), 3);
    for w in &config.windows {
        assert_eq!(w.panes.len(), 1);
    }
    let splits = cmds.iter().filter(|c| matches!(c, Command::Split { .. })).count();
    assert_eq!(splits, 0);
    match &cmds[cmds.len() - 3] {
        Command::SelectWindow { window } => assert_eq!(window, "a"),
        _ => panic!("expected a select-window command third from the end"),
    }
}

#[test]
fn one_window_two_panes_splits_once() {
    let doc = dict(vec![(
        "windows",
        Doc::List(vec![dict(vec![("w", dict(vec![("panes", strs(vec!["x", "y"]))]))])]),
    )]);
    let config = parse(&doc, &"muxed".to_string()).unwrap();
    let cmds = compile_default(&config);
    let splits = cmds.iter().filter(|c| matches!(c, Command::Split { .. })).count();
    let sends = cmds.iter().filter(|c| matches!(c, Command::SendKeys { .. })).count();
    assert_eq!(splits, 1);
    assert_eq!(sends, 2);
}

#[test]
fn layout_emitted_only_for_two_or_more_panes() {
    let doc = dict(vec![(
        "windows",
        Doc::List(vec![
            dict(vec![("multi", dict(vec![("panes", strs(vec!["x", "y"]))]))]),
            Doc::Str("single".to_string()),
        ]),
    )]);
    let config = parse(&doc, &"muxed".to_string()).unwrap();
    let cmds = compile_default(&config);
    let layouts: Vec<(&String, &String)> = cmds
        .iter()
        .filter_map(|c| match c {
            Command::Layout { window, layout } => Some((window, layout)),
            _ => None,
        })
        .collect();
    assert_eq!(layouts.len(), 1);
    assert_eq!(layouts[0].0, "multi");
    assert_eq!(layouts[0].1, &default_layout_string());
}

#[test]
fn named_layout_is_kept() {
    let doc = dict(vec![(
        "windows",
        Doc::List(vec![dict(vec![(
            "w",
            dict(vec![
                ("layout", Doc::Str("main-vertical".to_string())),
                ("panes", strs(vec!["x", "y"])),
            ]),
        )])]),
    )]);
    let config = parse(&doc, &"muxed".to_string()).unwrap();
    let cmds = compile_default(&config);
    let layouts: Vec<&String> = cmds
        .iter()
        .filter_map(|c| match c {
            Command::Layout { layout, .. } => Some(layout),
            _ => None,
        })
        .collect();
    assert_eq!(layouts, vec!["main-vertical"]);
}

#[test]
fn pre_commands_stand_before_window_creation() {
    let doc = dict(vec![
        ("pre", strs(vec!["touch f1", "touch f2"])),
        ("windows", strs(vec!["ssh", "git"])),
    ]);
    let config = parse(&doc, &"muxed".to_string()).unwrap();
    let cmds = compile_default(&config);
    let pre_positions: Vec<usize> = cmds
        .iter()
        .enumerate()
        .filter_map(|(i, c)| matches!(c, Command::Pre { .. }).then_some(i))
        .collect();
    let window_positions: Vec<usize> = cmds
        .iter()
        .enumerate()
        .filter_map(|(i, c)| matches!(c, Command::Window(_)).then_some(i))
        .collect();
    assert_eq!(pre_positions.len(), 2);
    assert!(pre_positions.iter().max() < window_positions.iter().min());
}

#[test]
fn missing_windows_key_is_rejected() {
    let doc = dict(vec![("name", Doc::Str("x".to_string()))]);
    assert!(matches!(parse(&doc, &"muxed".to_string()), Err(ConfigError::MissingWindows)));
}

#[test]
fn empty_windows_list_is_rejected() {
    let doc = dict(vec![("windows", Doc::List(vec![]))]);
    assert!(matches!(parse(&doc, &"muxed".to_string()), Err(ConfigError::MissingWindows)));
}

#[test]
fn malformed_window_entry_is_rejected() {
    let doc = dict(vec![("windows", Doc::List(vec![Doc::List(vec![])]))]);
    assert!(matches!(parse(&doc, &"muxed".to_string()), Err(ConfigError::MalformedWindow)));
}

#[test]
fn two_key_window_mapping_is_rejected() {
    let entry = dict(vec![("a", Doc::Null), ("b", Doc::Null)]);
    let doc = dict(vec![("windows", Doc::List(vec![entry]))]);
    assert!(matches!(parse(&doc, &"muxed".to_string()), Err(ConfigError::MalformedWindow)));
}

#[test]
fn default_name_fills_in() {
    let config = simple_config(vec!["w"]);
    assert_eq!(config.name, "muxed");
}

#[test]
fn resolver_cases() {
    let cwd = "/current".to_string();
    let home = "/home/user".to_string();
    assert_eq!(resolve(&None, &cwd, &home), "/current");
    assert_eq!(resolve(&Some("".to_string()), &cwd, &home), "/current");
    assert_eq!(resolve(&Some("~".to_string()), &cwd, &home), "/home/user");
    assert_eq!(resolve(&Some("~/".to_string()), &cwd, &home), "/home/user");
    assert_eq!(resolve(&Some("~/work".to_string()), &cwd, &home), "/home/user/work");
    assert_eq!(resolve(&Some("$HOME".to_string()), &cwd, &home), "/home/user");
    assert_eq!(resolve(&Some("/abs/path".to_string()), &cwd, &home), "/abs/path");
    assert_eq!(resolve(&Some("plain".to_string()), &cwd, &home), "plain");
    assert_eq!(
        resolve(&Some("/tmp/Directory With Spaces/".to_string()), &cwd, &home),
        "/tmp/Directory With Spaces/"
    );
}

#[test]
fn root_precedence_window_over_configuration() {
    let window_body = dict(vec![("root", Doc::Str("/window/root".to_string()))]);
    let doc = dict(vec![
        ("root", Doc::Str("/config/root".to_string())),
        (
            "windows",
            Doc::List(vec![
                dict(vec![("special", window_body)]),
                Doc::Str("plain".to_string()),
            ]),
        ),
    ]);
    let config = parse(&doc, &"muxed".to_string()).unwrap();
    let cmds = compile_default(&config);
    let roots: Vec<&String> = cmds
        .iter()
        .filter_map(|c| match c {
            Command::Window(w) => w.root.as_ref(),
            _ => None,
        })
        .collect();
    assert_eq!(roots, vec!["/window/root", "/config/root"]);
}

#[test]
fn unrooted_window_opens_in_cwd() {
    let config = simple_config(vec!["w"]);
    let cmds = compile_default(&config);
    match &cmds[1] {
        Command::Window(w) => assert_eq!(w.root.as_deref(), Some("/current")),
        _ => panic!("expected the window-creation command right after session creation"),
    }
}

#[test]
fn sequence_opens_session_first_and_kills_temp_window_last() {
    let config = simple_config(vec!["one", "two"]);
    let cmds = compile_default(&config);
    match &cmds[0] {
        Command::Session { name, tmp_window } => {
            assert_eq!(name, "muxed");
            assert_eq!(tmp_window, "tmp42");
        },
        _ => panic!("expected session creation first"),
    }
    match &cmds[cmds.len() - 1] {
        Command::KillWindow { window } => assert_eq!(window, "tmp42"),
        _ => panic!("expected the temp window killed last"),
    }
    match &cmds[cmds.len() - 2] {
        Command::SelectPane { window, pane } => {
            assert_eq!(window, "one");
            assert_eq!(*pane, 0);
        },
        _ => panic!("expected a select-pane command before the kill"),
    }
}

#[test]
fn call_args_target_convention() {
    let session = "muxed".to_string();
    let split = Command::Split {
        window: "editor".to_string(),
        prev_pane: 0,
        root: Some("/w".to_string()),
    };
    assert_eq!(
        call_args(&session, &split),
        vec!["split-window", "-t", "muxed:editor.0", "-c", "/w"]
    );
    let send = Command::SendKeys {
        window: "editor".to_string(),
        pane: 1,
        exec_text: "vi .".to_string(),
    };
    assert_eq!(
        call_args(&session, &send),
        vec!["send-keys", "-t", "muxed:editor.1", "vi .", "KPEnter"]
    );
    let pre = Command::Pre { exec_text: "touch f".to_string() };
    assert_eq!(call_args(&session, &pre), vec!["send-keys", "-t", "muxed", "touch f", "KPEnter"]);
    let win = Command::Window(muxed::command::Window {
        value: "editor".to_string(),
        root: Some("/dir with space".to_string()),
    });
    assert_eq!(
        call_args(&session, &win),
        vec!["new-window", "-t", "muxed", "-n", "editor", "-c", "/dir with space"]
    );
}

#[test]
fn only_session_creation_is_fatal() {
    let session = Command::Session { name: "s".to_string(), tmp_window: "t".to_string() };
    let kill = Command::KillWindow { window: "t".to_string() };
    assert!(is_fatal(&session));
    assert!(!is_fatal(&kill));
}

#[test]
fn tmux_argument_lists() {
    let s = "muxed".to_string();
    let w = "1234".to_string();
    assert_eq!(tmux::new_session(&s, &w), vec!["new", "-d", "-s", "muxed", "-n", "1234"]);
    assert_eq!(
        tmux::new_window(&s, &"vim".to_string(), &None),
        vec!["new-window", "-t", "muxed", "-n", "vim"]
    );
    assert_eq!(
        tmux::split_window(&"muxed:cargo.0".to_string(), &None),
        vec!["split-window", "-t", "muxed:cargo.0"]
    );
    assert_eq!(
        tmux::layout(&"muxed:cargo".to_string(), &"main-vertical".to_string()),
        vec!["select-layout", "-t", "muxed:cargo", "main-vertical"]
    );
    assert_eq!(
        tmux::send_keys(&"muxed:cargo.0".to_string(), &"vim .".to_string()),
        vec!["send-keys", "-t", "muxed:cargo.0", "vim .", "KPEnter"]
    );
    assert_eq!(
        tmux::select_window(&"muxed:cargo".to_string()),
        vec!["select-window", "-t", "muxed:cargo"]
    );
    assert_eq!(
        tmux::select_pane(&"muxed:cargo.0".to_string()),
        vec!["select-pane", "-t", "muxed:cargo.0"]
    );
    assert_eq!(
        tmux::kill_window(&"muxed:tmp42".to_string()),
        vec!["kill-window", "-t", "muxed:tmp42"]
    );
    assert_eq!(tmux::get_config(), vec!["start-server", ";", "show-options", "-g"]);
}

#[test]
fn orchestrator_walks_the_absent_path() {
    let p0 = Phase::Unchecked;
    assert_eq!(next_action(&p0), Action::CheckSession);
    let p1 = step(&p0, &Outcome::SessionMissing);
    assert_eq!(p1, Phase::Absent);
    assert_eq!(next_action(&p1), Action::Compile);
    let p2 = step(&p1, &Outcome::CompiledOk);
    assert_eq!(next_action(&p2), Action::Execute);
    let p3 = step(&p2, &Outcome::ExecutedOk);
    assert_eq!(next_action(&p3), Action::Attach);
    let p4 = step(&p3, &Outcome::AttachedOk);
    assert_eq!(p4, Phase::Attached);
    assert_eq!(next_action(&p4), Action::Done);
}

#[test]
fn orchestrator_attaches_directly_when_session_exists() {
    let p1 = step(&Phase::Unchecked, &Outcome::SessionFound);
    assert_eq!(p1, Phase::Exists);
    assert_eq!(next_action(&p1), Action::Attach);
    let p2 = step(&p1, &Outcome::AttachedOk);
    assert_eq!(next_action(&p2), Action::Done);
}

#[test]
fn decimal_renderings() {
    assert_eq!(u64_string(0), "0");
    assert_eq!(u64_string(7), "7");
    assert_eq!(u64_string(1234567890), "1234567890");
    assert_eq!(i64_string(-5), "-5");
    assert_eq!(i64_string(i64::MIN), "-9223372036854775808");
    assert_eq!(i64_string(i64::MAX), "9223372036854775807");
}

#[test]
fn string_equality_by_characters() {
    assert!(str_eq("abc", "abc"));
    assert!(!str_eq("abc", "abd"));
    assert!(!str_eq("abc", "ab"));
    assert!(str_eq("", ""));
}

#[test]
fn template_replacement_is_exact() {
    assert_eq!(modified_template("a {file_name} b", "x"), "a x b");
    assert_eq!(modified_template("{file_name}{file_name}", "y"), "yy");
    assert_eq!(modified_template("none here", "y"), "none here");
    assert_eq!(modified_template("", "y"), "");
    assert_eq!(modified_template("{file_name", "y"), "{file_name");
}

#[test]
fn integer_window_names_are_stringified() {
    let doc = dict(vec![("windows", Doc::List(vec![Doc::Int(1), Doc::Int(-3)]))]);
    let config = parse(&doc, &"muxed".to_string()).unwrap();
    assert_eq!(config.windows[0].name, "1");
    assert_eq!(config.windows[1].name, "-3");
    assert_eq!(config.windows[0].panes[0].exec_text, "1");
}

#[test]
fn window_without_panes_key_gets_one_implicit_pane() {
    let config = simple_config(vec!["ls"]);
    assert_eq!(config.windows[0].panes.len(), 1);
    assert_eq!(config.windows[0].panes[0].exec_text, "ls");
    let implicit = Pane { exec_text: String::new(), root: None };
    assert_eq!(implicit.exec_text, "");
    let w: &Window = &config.windows[0];
    assert_eq!(w.name, "ls");
}

#[test]
fn pre_window_hooks_follow_their_window() {
    let doc = dict(vec![
        ("pre_window", Doc::Str("setup".to_string())),
        ("windows", strs(vec!["a", "b"])),
    ]);
    let config = parse(&doc, &"muxed".to_string()).unwrap();
    let cmds = compile_default(&config);
    let mut current_window: Option<&String> = None;
    let mut hooks_seen: Vec<&String> = Vec::new();
    for c in &cmds {
        match c {
            Command::Window(w) => current_window = Some(&w.value),
            Command::PreWindow { window, exec_text } => {
                assert_eq!(Some(window), current_window);
                assert_eq!(exec_text, "setup");
                hooks_seen.push(window);
            },
            _ => {},
        }
    }
    assert_eq!(hooks_seen.len(), 2);
}
