//! The opening suite: whole documents carried from text to the compiled
//! command sequence, counting the windows a session would open.

use muxed::command::Command;
use muxed::compiler::compile;
use muxed::config::{parse, Doc};
use yaml_rust::Yaml;

fn key_string(y: &Yaml) -> String {
    match y {
        Yaml::String(s) => s.clone(),
        Yaml::Real(s) => s.clone(),
        Yaml::Integer(i) => i.to_string(),
        Yaml::Boolean(b) => b.to_string(),
        _ => String::new(),
    }
}

fn to_doc(y: &Yaml) -> Doc {
    match y {
        Yaml::String(s) => Doc::Str(s.clone()),
        Yaml::Real(s) => Doc::Str(s.clone()),
        Yaml::Integer(i) => Doc::Int(*i),
        Yaml::Boolean(b) => Doc::Str(b.to_string()),
        Yaml::Array(items) => Doc::List(items.iter().map(to_doc).collect()),
        Yaml::Hash(h) => Doc::Dict(h.iter().map(|(k, v)| (key_string(k), to_doc(v))).collect()),
        _ => Doc::Null,
    }
}

fn num_of_windows(contents: &str) -> usize {
    let docs = yaml_rust::YamlLoader::load_from_str(contents).unwrap();
    let config = parse(&to_doc(&docs[0]), &"muxed".to_string()).unwrap();
    let cmds = compile(
        &config,
        &"tmp123".to_string(),
        &"/current".to_string(),
        &"/home/user".to_string(),
    );
    cmds.iter().filter(|c| matches!(c, Command::Window(_))).count()
}

#[test]
fn open_opens_3_windows_from_array() {
    let contents = "---
windows: ['cargo', 'vim', 'git']
";
    assert_eq!(num_of_windows(contents), 3)
}

#[test]
fn open_opens_2_windows() {
    let contents = "---
windows:
  - editor:
      layout: 'main-vertical'
      panes: ['vim', 'guard']
  - stuff: ''
";
    assert_eq!(num_of_windows(contents), 2)
}

#[test]
fn open_opens_3_windows_with_integer_names() {
    let contents = "---
windows: [1, 'vim', 3]
";
    assert_eq!(num_of_windows(contents), 3)
}
