//! The loading suite: documents parsed into configurations and compiled
//! into command sequences, inspected without a live multiplexer.

use muxed::command::Command;
use muxed::compiler::compile;
use muxed::config::{parse, Configuration, Doc, Window};
use muxed::project::modified_template;
use yaml_rust::Yaml;

const TEMPLATE: &str = "## {file_name}\n\
name: \"{file_name}\"\n\
windows:\n  - editor:\n  - shell:\n";

fn key_string(y: &Yaml) -> String {
    match y {
        Yaml::String(s) => s.clone(),
        Yaml::Real(s) => s.clone(),
        Yaml::Integer(i) => i.to_string(),
        Yaml::Boolean(b) => b.to_string(),
        _ => String::new(),
    }
}

fn to_doc(y: &Yaml) -> Doc {
    match y {
        Yaml::String(s) => Doc::Str(s.clone()),
        Yaml::Real(s) => Doc::Str(s.clone()),
        Yaml::Integer(i) => Doc::Int(*i),
        Yaml::Boolean(b) => Doc::Str(b.to_string()),
        Yaml::Array(items) => Doc::List(items.iter().map(to_doc).collect()),
        Yaml::Hash(h) => Doc::Dict(h.iter().map(|(k, v)| (key_string(k), to_doc(v))).collect()),
        _ => Doc::Null,
    }
}

fn doc_from(contents: &str) -> Doc {
    let docs = yaml_rust::YamlLoader::load_from_str(contents).unwrap();
    to_doc(&docs[0])
}

fn config_from(contents: &str) -> Configuration {
    parse(&doc_from(contents), &"muxed".to_string()).unwrap()
}

fn find_window<'a>(c: &'a Configuration, name: &str) -> Option<&'a Window> {
    c.windows.iter().find(|w| w.name == name)
}

fn compiled(contents: &str) -> Vec<Command> {
    let config = config_from(contents);
    compile(
        &config,
        &"tmp123".to_string(),
        &"/current".to_string(),
        &"/home/user".to_string(),
    )
}

fn first_window_root(cmds: &[Command]) -> String {
    for c in cmds {
        if let Command::Window(w) = c {
            return w.root.clone().unwrap();
        }
    }
    panic!("no window-creation command");
}

#[test]
fn load_opens_3_windows_from_array() {
    let contents = "---
windows: ['ls', 'vi', 'git']
";
    let session = config_from(contents);
    assert_eq!(session.windows.len(), 3)
}

#[test]
fn load_opens_2_windows() {
    let contents = "---
windows:
  - editor:
      layout: 'main-vertical'
      panes: ['ls', 'vi']
  - stuff: ''
";
    let session = config_from(contents);
    assert_eq!(session.windows.len(), 2)
}

#[test]
fn load_opens_3_windows_with_integer_names() {
    let contents = "---
windows: [1, 'ls', 3]
";
    let session = config_from(contents);
    assert_eq!(session.windows.len(), 3)
}

#[test]
fn single_window_has_2_panes() {
    let contents = "---
windows:
  - editor:
      layout: 'main-vertical'
      panes: ['ls', 'vi']
";
    let session = config_from(contents);
    let window = find_window(&session, "editor").unwrap();
    assert_eq!(window.panes.len(), 2)
}

#[test]
fn multiple_windows_with_panes() {
    let contents = "---
windows:
  - editor:
      layout: 'main-vertical'
      panes: ['ls', 'vi']
  - tests:
      layout: 'main-vertical'
      panes: ['ls', 'vi', 'ls']
";
    let session = config_from(contents);
    let editor_window = find_window(&session, "editor").unwrap();
    let tests_window = find_window(&session, "tests").unwrap();
    assert_eq!(editor_window.panes.len(), 2);
    assert_eq!(tests_window.panes.len(), 3)
}

#[test]
fn window_with_empty_command_is_valid() {
    let contents = "---
windows:
  - editor:
";
    let session = config_from(contents);
    assert_eq!(session.windows.len(), 1)
}

#[test]
fn panes_with_empty_commands_are_valid() {
    let contents = "---
windows:
  - editor:
      layout: 'main-vertical'
      panes:
        -
        -
";
    let session = config_from(contents);
    let window = find_window(&session, "editor").unwrap();
    assert_eq!(window.panes.len(), 2)
}

#[test]
fn expect_to_open_in_directory_containing_spaces() {
    let contents = "---
root: /tmp/Directory With Spaces/
windows:
  - editor: ''
";
    let cmds = compiled(contents);
    let root = first_window_root(&cmds);
    assert!(root.contains("/tmp/Directory With Spaces"));
}

#[test]
fn expect_home_var_to_open_in_home_dir() {
    let contents = "---
root: '$HOME'
windows:
  - editor: ''
";
    let cmds = compiled(contents);
    assert_eq!(first_window_root(&cmds), "/home/user");
}

#[test]
fn expect_tilde_slash_to_open_in_home_dir() {
    let contents = "---
root: ~/
windows:
  - editor: ''
";
    let cmds = compiled(contents);
    assert_eq!(first_window_root(&cmds), "/home/user");
}

#[test]
fn expect_focus_on_the_first_window() {
    let contents = "---
windows: ['ssh', 'git']
";
    let cmds = compiled(contents);
    let mut selected: Vec<&String> = Vec::new();
    for c in &cmds {
        if let Command::SelectWindow { window } = c {
            selected.push(window);
        }
    }
    assert_eq!(selected.len(), 1);
    assert_eq!(selected[0], "ssh")
}

#[test]
fn expect_pre_to_create_file() {
    let file = "/tmp/muxed_pre_one";
    let contents = format!(
        "---
pre: touch {}
windows: ['ssh', 'git']
",
        file
    );
    let cmds = compiled(&contents);
    let pre: Vec<&String> = cmds
        .iter()
        .filter_map(|c| match c {
            Command::Pre { exec_text } => Some(exec_text),
            _ => None,
        })
        .collect();
    assert_eq!(pre, vec![&format!("touch {}", file)]);
}

#[test]
fn expect_pre_to_create_two_files() {
    let file1 = "/tmp/muxed_pre_a";
    let file2 = "/tmp/muxed_pre_b";
    let contents = format!(
        "---
pre:
  - touch {}
  - touch {}
windows: ['ssh', 'git']
",
        file1, file2
    );
    let cmds = compiled(&contents);
    let pre: Vec<&String> = cmds
        .iter()
        .filter_map(|c| match c {
            Command::Pre { exec_text } => Some(exec_text),
            _ => None,
        })
        .collect();
    assert_eq!(pre.len(), 2);
    assert_eq!(pre[0], &format!("touch {}", file1));
    assert_eq!(pre[1], &format!("touch {}", file2));
}

#[test]
fn expect_pre_window_to_be_called_for_each_window() {
    let file = "/tmp/muxed_pre_window";
    let contents = format!(
        "---
pre_window: echo 'pre_window' >> {}
windows: ['ssh', 'git']
",
        file
    );
    let cmds = compiled(&contents);
    let hooks = cmds
        .iter()
        .filter(|c| matches!(c, Command::PreWindow { .. }))
        .count();
    assert_eq!(hooks, 2);
}

#[test]
fn expect_pre_window_to_be_called_twice_for_each_window() {
    let file = "/tmp/muxed_pre_window_twice";
    let contents = format!(
        "---
pre_window:
  - echo 'pre_window' >> {}
  - echo 'pre_window' >> {}
windows: ['ssh', 'git']
",
        file, file
    );
    let cmds = compiled(&contents);
    let hooks = cmds
        .iter()
        .filter(|c| matches!(c, Command::PreWindow { .. }))
        .count();
    assert_eq!(hooks, 4);
}

#[test]
fn expect_session_name_brians_session() {
    let contents = "---
name: 'Brians Session'
windows: ['ssh', 'git']
";
    let session = config_from(contents);
    assert_eq!(session.name, "Brians Session")
}

#[test]
fn populates_template_placeholders() {
    let value = modified_template(TEMPLATE, "muxed project");
    let result = value.contains("muxed project");
    assert!(result);
}

#[test]
fn removes_template_placeholders() {
    let value = modified_template(TEMPLATE, "muxed project");
    let result = !value.contains("{file_name}");
    assert!(result);
}
