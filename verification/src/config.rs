//! The configuration model: a typed document tree, the canonical session /
//! window / pane entities, and the parser that resolves the document's loose
//! shapes into them.

use crate::command::Panes;
use crate::text::{i64_string, int_chars, str_eq};
use crate::views::{opt_chars, str_views};
use vstd::prelude::*;

verus! {

/// A parsed document node. The surrounding program turns whatever concrete
/// format it reads into this tree; mapping keys are already strings.
pub enum Doc {
    Str(String),
    Int(i64),
    Null,
    List(Vec<Doc>),
    Dict(Vec<(String, Doc)>),
}

/// Why a document was rejected.
#[derive(Clone, Copy, Debug, PartialEq, Eq, Structural)]
pub enum ConfigError {
    /// The document has no `windows` key, or the key holds no entries.
    MissingWindows,
    /// A window entry is neither a scalar nor a single-key mapping of one of
    /// the accepted shapes.
    MalformedWindow,
}

/// One split region of a window: an optional shell command (empty means an
/// interactive shell) and an optional root override.
#[derive(Debug, Clone)]
pub struct Pane {
    pub exec_text: String,
    pub root: Option<String>,
}

/// One window: its name, an optional named layout, an optional root override
/// and a never-empty ordered list of panes.
#[derive(Debug, Clone)]
pub struct Window {
    pub name: String,
    pub layout: Option<String>,
    pub root: Option<String>,
    pub panes: Vec<Pane>,
}

/// The root entity: session name, optional root path specification, hook
/// command lists and the ordered windows.
#[derive(Debug, Clone)]
pub struct Configuration {
    pub name: String,
    pub root: Option<String>,
    pub pre: Vec<String>,
    pub pre_window: Vec<String>,
    pub windows: Vec<Window>,
}

/// The mathematical value of a pane.
#[verifier::ext_equal]
pub struct PaneModel {
    pub exec_text: Seq<char>,
    pub root: Option<Seq<char>>,
}

/// The mathematical value of a window.
#[verifier::ext_equal]
pub struct WindowModel {
    pub name: Seq<char>,
    pub layout: Option<Seq<char>>,
    pub root: Option<Seq<char>>,
    pub panes: Seq<PaneModel>,
}

/// The mathematical value of a configuration.
#[verifier::ext_equal]
pub struct ConfigModel {
    pub name: Seq<char>,
    pub root: Option<Seq<char>>,
    pub pre: Seq<Seq<char>>,
    pub pre_window: Seq<Seq<char>>,
    pub windows: Seq<WindowModel>,
}

impl View for Pane {
    type V = PaneModel;

    open spec fn view(&self) -> PaneModel {
        PaneModel { exec_text: self.exec_text@, root: opt_chars(self.root) }
    }
}

impl View for Window {
    type V = WindowModel;

    open spec fn view(&self) -> WindowModel {
        WindowModel {
            name: self.name@,
            layout: opt_chars(self.layout),
            root: opt_chars(self.root),
            panes: self.panes@.map_values(|p: Pane| p@),
        }
    }
}

impl View for Configuration {
    type V = ConfigModel;

    open spec fn view(&self) -> ConfigModel {
        ConfigModel {
            name: self.name@,
            root: opt_chars(self.root),
            pre: str_views(self.pre@),
            pre_window: str_views(self.pre_window@),
            windows: self.windows@.map_values(|w: Window| w@),
        }
    }
}

/// A configuration the compiler accepts: a non-empty name, at least one
/// window, and at least one pane in every window.
pub open spec fn config_wf(c: ConfigModel) -> bool {
    &&& c.name.len() > 0
    &&& c.windows.len() > 0
    &&& forall|i: int| 0 <= i < c.windows.len() ==> c.windows[i].panes.len() > 0
}

/// The value under a key, first binding wins.
pub open spec fn lookup(entries: Seq<(String, Doc)>, key: Seq<char>) -> Option<Doc>
    decreases entries.len(),
{
    if entries.len() == 0 {
        Option::None
    } else if entries[0].0@ == key {
        Option::Some(entries[0].1)
    } else {
        lookup(entries.drop_first(), key)
    }
}

/// The value under a key of a mapping node; `None` on any other node.
pub open spec fn doc_get(d: Doc, key: Seq<char>) -> Option<Doc> {
    match d {
        Doc::Dict(es) => lookup(es@, key),
        _ => Option::None,
    }
}

/// A scalar node: a string or an integer.
pub open spec fn is_scalar(d: Doc) -> bool {
    d matches Doc::Str(_) || d matches Doc::Int(_)
}

/// The characters of a scalar node, integers rendered in decimal.
pub open spec fn scalar_chars(d: Doc) -> Seq<char> {
    match d {
        Doc::Str(s) => s@,
        Doc::Int(i) => int_chars(i as int),
        _ => Seq::empty(),
    }
}

/// The characters of a scalar node; any other node reads as the empty
/// command.
pub open spec fn scalar_or_empty(d: Doc) -> Seq<char> {
    if is_scalar(d) {
        scalar_chars(d)
    } else {
        Seq::empty()
    }
}

/// A scalar value under an optional node.
pub open spec fn opt_scalar(o: Option<Doc>) -> Option<Seq<char>> {
    match o {
        Option::Some(d) => if is_scalar(d) {
            Option::Some(scalar_chars(d))
        } else {
            Option::None
        },
        Option::None => Option::None,
    }
}

/// A hook list: a single scalar reads as one command, a list as one command
/// per entry, anything else as no commands.
pub open spec fn hook_list(o: Option<Doc>) -> Seq<Seq<char>> {
    match o {
        Option::Some(d) => if is_scalar(d) {
            seq![scalar_chars(d)]
        } else {
            match d {
                Doc::List(items) => items@.map_values(|p: Doc| scalar_or_empty(p)),
                _ => Seq::empty(),
            }
        },
        Option::None => Seq::empty(),
    }
}

/// The panes of an explicit window shape: one pane per list entry, and the
/// single implicit interactive pane when the list is absent or empty.
pub open spec fn pane_list(o: Option<Doc>) -> Seq<PaneModel> {
    match o {
        Option::Some(d) => match d {
            Doc::List(items) => if items@.len() > 0 {
                items@.map_values(
                    |p: Doc| PaneModel { exec_text: scalar_or_empty(p), root: Option::None },
                )
            } else {
                seq![PaneModel { exec_text: Seq::empty(), root: Option::None }]
            },
            _ => seq![PaneModel { exec_text: Seq::empty(), root: Option::None }],
        },
        Option::None => seq![PaneModel { exec_text: Seq::empty(), root: Option::None }],
    }
}

/// A present, non-empty value; an empty one reads as unspecified.
pub open spec fn nonempty_opt(o: Option<Seq<char>>) -> Option<Seq<char>> {
    match o {
        Option::Some(n) => if n.len() > 0 {
            Option::Some(n)
        } else {
            Option::None
        },
        Option::None => Option::None,
    }
}

/// An accepted window entry: a bare scalar, or a mapping of exactly one key
/// to a scalar, a null, or a nested mapping.
pub open spec fn valid_entry(d: Doc) -> bool {
    ||| is_scalar(d)
    ||| (d matches Doc::Dict(es) && es@.len() == 1 && (is_scalar(es@[0].1) || es@[0].1
        matches Doc::Null || es@[0].1 matches Doc::Dict(_)))
}

/// The canonical window an accepted entry resolves to.
pub open spec fn window_model(d: Doc) -> WindowModel {
    if is_scalar(d) {
        WindowModel {
            name: scalar_chars(d),
            layout: Option::None,
            root: Option::None,
            panes: seq![PaneModel { exec_text: scalar_chars(d), root: Option::None }],
        }
    } else {
        match d {
            Doc::Dict(es) => {
                let name = es@[0].0@;
                let v = es@[0].1;
                match v {
                    Doc::Dict(_) => WindowModel {
                        name: name,
                        layout: nonempty_opt(opt_scalar(doc_get(v, "layout"@))),
                        root: opt_scalar(doc_get(v, "root"@)),
                        panes: pane_list(doc_get(v, "panes"@)),
                    },
                    _ => WindowModel {
                        name: name,
                        layout: Option::None,
                        root: Option::None,
                        panes: seq![PaneModel { exec_text: scalar_or_empty(v), root: Option::None }],
                    },
                }
            },
            _ => WindowModel {
                name: Seq::empty(),
                layout: Option::None,
                root: Option::None,
                panes: seq![PaneModel { exec_text: Seq::empty(), root: Option::None }],
            },
        }
    }
}

/// The window entries of a document: what its `windows` key lists.
pub open spec fn windows_entries(doc: Doc) -> Seq<Doc> {
    match doc_get(doc, "windows"@) {
        Option::Some(d) => match d {
            Doc::List(items) => items@,
            _ => Seq::empty(),
        },
        Option::None => Seq::empty(),
    }
}

/// The session name: the document's non-empty `name` scalar, or the given
/// default.
pub open spec fn name_model(doc: Doc, default_name: Seq<char>) -> Seq<char> {
    match opt_scalar(doc_get(doc, "name"@)) {
        Option::Some(n) => if n.len() > 0 {
            n
        } else {
            default_name
        },
        Option::None => default_name,
    }
}

/// The configuration an accepted document resolves to.
pub open spec fn config_model(doc: Doc, default_name: Seq<char>) -> ConfigModel {
    ConfigModel {
        name: name_model(doc, default_name),
        root: opt_scalar(doc_get(doc, "root"@)),
        pre: hook_list(doc_get(doc, "pre"@)),
        pre_window: hook_list(doc_get(doc, "pre_window"@)),
        windows: windows_entries(doc).map_values(|d: Doc| window_model(d)),
    }
}

/// The source shape of one window entry: the closed set of input forms,
/// resolved exactly once, during parsing, into the canonical window entity.
pub enum WindowShape {
    /// A bare scalar: its text names the window and is the single pane's
    /// command.
    Bare(String),
    /// A mapping of one name to one scalar command (or to nothing).
    Single { name: String, exec_text: String },
    /// A mapping of one name to an explicit layout / panes / root body.
    Full(Panes),
}

/// The panes named by an explicit window body: one per listed command, and
/// the single implicit interactive pane when none is listed.
pub open spec fn shape_panes(ts: Seq<String>) -> Seq<PaneModel> {
    if ts.len() > 0 {
        ts.map_values(|e: String| PaneModel { exec_text: e@, root: Option::None })
    } else {
        seq![PaneModel { exec_text: Seq::empty(), root: Option::None }]
    }
}

/// The canonical window a source shape resolves to.
pub open spec fn shape_window(sh: WindowShape) -> WindowModel {
    match sh {
        WindowShape::Bare(s) => WindowModel {
            name: s@,
            layout: Option::None,
            root: Option::None,
            panes: seq![PaneModel { exec_text: s@, root: Option::None }],
        },
        WindowShape::Single { name, exec_text } => WindowModel {
            name: name@,
            layout: Option::None,
            root: Option::None,
            panes: seq![PaneModel { exec_text: exec_text@, root: Option::None }],
        },
        WindowShape::Full(p) => WindowModel {
            name: p.window@,
            layout: nonempty_opt(Option::Some(p.layout@)),
            root: opt_chars(p.root),
            panes: shape_panes(p.exec_texts@),
        },
    }
}

/// Find the value under a key of a mapping node.
pub fn get<'a>(d: &'a Doc, key: &str) -> (r: Option<&'a Doc>)
    ensures
        match r {
            Option::Some(v) => doc_get(*d, key@) == Option::Some(*v),
            Option::None => doc_get(*d, key@) is None,
        },
{
    match d {
        Doc::Dict(es) => {
            let n = es.len();
            proof {
                assert(es@.skip(0) =~= es@);
            }
            for i in 0..n
                invariant
                    n == es@.len(),
                    doc_get(*d, key@) == lookup(es@, key@),
                    lookup(es@, key@) == lookup(es@.skip(i as int), key@),
            {
                let pair = &es[i];
                if str_eq(pair.0.as_str(), key) {
                    proof {
                        assert(es@.skip(i as int)[0] == es@[i as int]);
                        assert(lookup(es@.skip(i as int), key@) == Option::Some(es@[i as int].1));
                        assert(doc_get(*d, key@) == lookup(es@, key@));
                    }
                    return Option::Some(&pair.1);
                }
                proof {
                    assert(es@.skip(i as int)[0] == es@[i as int]);
                    assert(es@.skip(i as int).drop_first() =~= es@.skip(i as int + 1));
                }
            }
            Option::None
        },
        _ => Option::None,
    }
}

/// The text of a scalar node.
pub fn scalar_string(d: &Doc) -> (r: Option<String>)
    ensures
        r is Some <==> is_scalar(*d),
        r matches Option::Some(s) ==> s@ == scalar_chars(*d),
{
    match d {
        Doc::Str(s) => Option::Some(s.clone()),
        Doc::Int(i) => Option::Some(i64_string(*i)),
        _ => Option::None,
    }
}

/// The text of a scalar node; anything else reads as the empty command.
pub fn scalar_or_empty_string(d: &Doc) -> (r: String)
    ensures
        r@ == scalar_or_empty(*d),
{
    match scalar_string(d) {
        Option::Some(s) => s,
        Option::None => String::new(),
    }
}

/// The hook commands under one node.
fn hook_vec(d: &Doc) -> (v: Vec<String>)
    ensures
        str_views(v@) == hook_list(Option::Some(*d)),
{
    let scalar = scalar_string(d);
    match scalar {
        Option::Some(s) => {
            let mut v: Vec<String> = Vec::new();
            v.push(s);
            proof {
                assert(str_views(v@) =~= hook_list(Option::Some(*d)));
            }
            v
        },
        Option::None => {
            match d {
                Doc::List(items) => {
                    let mut v: Vec<String> = Vec::new();
                    let n = items.len();
                    for i in 0..n
                        invariant
                            n == items@.len(),
                            str_views(v@) =~= items@.take(i as int).map_values(
                                |p: Doc| scalar_or_empty(p),
                            ),
                    {
                        let s = scalar_or_empty_string(&items[i]);
                        let ghost prev = v@;
                        v.push(s);
                        proof {
                            assert(items@.take(i as int + 1) =~= items@.take(i as int).push(
                                items@[i as int],
                            ));
                            crate::views::lemma_map_values_push(
                                items@.take(i as int),
                                items@[i as int],
                                |p: Doc| scalar_or_empty(p),
                            );
                            crate::views::lemma_map_values_push(prev, s, |e: String| e@);
                            assert(str_views(v@) =~= items@.take(i as int + 1).map_values(
                                |p: Doc| scalar_or_empty(p),
                            ));
                        }
                    }
                    proof {
                        assert(items@.take(n as int) =~= items@);
                    }
                    v
                },
                _ => {
                    let v: Vec<String> = Vec::new();
                    proof {
                        assert(str_views(v@) =~= hook_list(Option::Some(*d)));
                    }
                    v
                },
            }
        },
    }
}

/// The pane commands listed under an explicit window body; empty when the
/// body lists none.
fn pane_texts(body: &Doc) -> (v: Vec<String>)
    ensures
        pane_list(doc_get(*body, "panes"@)) == shape_panes(v@),
{
    match get(body, "panes") {
        Option::Some(pv) => match pv {
            Doc::List(items) => {
                let mut v: Vec<String> = Vec::new();
                let n = items.len();
                for i in 0..n
                    invariant
                        n == items@.len(),
                        str_views(v@) =~= items@.take(i as int).map_values(
                            |p: Doc| scalar_or_empty(p),
                        ),
                {
                    let s = scalar_or_empty_string(&items[i]);
                    let ghost prev = v@;
                    v.push(s);
                    proof {
                        assert(items@.take(i as int + 1) =~= items@.take(i as int).push(
                            items@[i as int],
                        ));
                        crate::views::lemma_map_values_push(
                            items@.take(i as int),
                            items@[i as int],
                            |p: Doc| scalar_or_empty(p),
                        );
                        crate::views::lemma_map_values_push(prev, s, |e: String| e@);
                        assert(str_views(v@) =~= items@.take(i as int + 1).map_values(
                            |p: Doc| scalar_or_empty(p),
                        ));
                    }
                }
                proof {
                    assert(items@.take(n as int) =~= items@);
                    assert forall|j: int| 0 <= j < v@.len() implies v@[j]@ == scalar_or_empty(
                        items@[j],
                    ) by {
                        assert(str_views(v@)[j] == items@.map_values(
                            |p: Doc| scalar_or_empty(p),
                        )[j]);
                    }
                    assert(shape_panes(v@) =~= pane_list(doc_get(*body, "panes"@)));
                }
                v
            },
            _ => {
                let v: Vec<String> = Vec::new();
                proof {
                    assert(shape_panes(v@) =~= pane_list(doc_get(*body, "panes"@)));
                }
                v
            },
        },
        Option::None => {
            let v: Vec<String> = Vec::new();
            proof {
                assert(shape_panes(v@) =~= pane_list(doc_get(*body, "panes"@)));
            }
            v
        },
    }
}

/// Classify one window entry into its source shape; `None` when it matches
/// no accepted shape.
pub fn classify(d: &Doc) -> (r: Option<WindowShape>)
    ensures
        r is Some <==> valid_entry(*d),
        r matches Option::Some(sh) ==> shape_window(sh) == window_model(*d),
{
    match d {
        Doc::Str(s) => Option::Some(WindowShape::Bare(s.clone())),
        Doc::Int(i) => Option::Some(WindowShape::Bare(i64_string(*i))),
        Doc::Dict(es) => {
            if es.len() != 1 {
                return Option::None;
            }
            let name = es[0].0.clone();
            let v = &es[0].1;
            match v {
                Doc::Str(cs) => Option::Some(
                    WindowShape::Single { name, exec_text: cs.clone() },
                ),
                Doc::Int(ci) => Option::Some(
                    WindowShape::Single { name, exec_text: i64_string(*ci) },
                ),
                Doc::Null => Option::Some(WindowShape::Single { name, exec_text: String::new() }),
                Doc::Dict(_) => {
                    let layout = match get(v, "layout") {
                        Option::Some(lv) => scalar_or_empty_string(lv),
                        Option::None => String::new(),
                    };
                    let root = match get(v, "root") {
                        Option::Some(rv) => scalar_string(rv),
                        Option::None => Option::None,
                    };
                    let exec_texts = pane_texts(v);
                    let sh = WindowShape::Full(
                        Panes { layout, window: name, exec_texts, root },
                    );
                    proof {
                        assert(shape_window(sh) =~= window_model(*d));
                    }
                    Option::Some(sh)
                },
                Doc::List(_) => Option::None,
            }
        },
        _ => Option::None,
    }
}

/// Resolve a source shape into the canonical window entity.
pub fn resolve_shape(sh: WindowShape) -> (w: Window)
    ensures
        w@ == shape_window(sh),
{
    match sh {
        WindowShape::Bare(s) => {
            let mut panes: Vec<Pane> = Vec::new();
            panes.push(Pane { exec_text: s.clone(), root: Option::None });
            let w = Window { name: s, layout: Option::None, root: Option::None, panes };
            proof {
                assert(w@ =~= shape_window(sh));
            }
            w
        },
        WindowShape::Single { name, exec_text } => {
            let mut panes: Vec<Pane> = Vec::new();
            panes.push(Pane { exec_text, root: Option::None });
            let w = Window { name, layout: Option::None, root: Option::None, panes };
            proof {
                assert(w@ =~= shape_window(sh));
            }
            w
        },
        WindowShape::Full(p) => {
            let mut panes: Vec<Pane> = Vec::new();
            let n = p.exec_texts.len();
            if n == 0 {
                panes.push(Pane { exec_text: String::new(), root: Option::None });
            } else {
                for i in 0..n
                    invariant
                        n == p.exec_texts@.len(),
                        panes@.map_values(|q: Pane| q@) =~= p.exec_texts@.take(
                            i as int,
                        ).map_values(|e: String| PaneModel { exec_text: e@, root: Option::None }),
                {
                    let q = Pane { exec_text: p.exec_texts[i].clone(), root: Option::None };
                    let ghost prev = panes@;
                    panes.push(q);
                    proof {
                        assert(p.exec_texts@.take(i as int + 1) =~= p.exec_texts@.take(
                            i as int,
                        ).push(p.exec_texts@[i as int]));
                        crate::views::lemma_map_values_push(
                            p.exec_texts@.take(i as int),
                            p.exec_texts@[i as int],
                            |e: String| PaneModel { exec_text: e@, root: Option::None },
                        );
                        crate::views::lemma_map_values_push(prev, q, |q2: Pane| q2@);
                        assert(panes@.map_values(|q2: Pane| q2@) =~= p.exec_texts@.take(
                            i as int + 1,
                        ).map_values(|e: String| PaneModel { exec_text: e@, root: Option::None }));
                    }
                }
                proof {
                    assert(p.exec_texts@.take(n as int) =~= p.exec_texts@);
                }
            }
            let layout = if p.layout.as_str().unicode_len() > 0 {
                Option::Some(p.layout)
            } else {
                Option::None
            };
            let w = Window { name: p.window, layout, root: p.root, panes };
            proof {
                assert(w@ =~= shape_window(sh));
            }
            w
        },
    }
}

/// Every accepted entry resolves to a window with at least one pane.
proof fn lemma_window_model_panes(d: Doc)
    ensures
        window_model(d).panes.len() > 0,
{
    if !is_scalar(d) {
        match d {
            Doc::Dict(es) => {
                let v = es@[0].1;
                match v {
                    Doc::Dict(_) => {
                        match doc_get(v, "panes"@) {
                            Option::Some(pd) => {
                                match pd {
                                    Doc::List(_) => {},
                                    _ => {},
                                }
                            },
                            Option::None => {},
                        }
                    },
                    _ => {},
                }
            },
            _ => {},
        }
    }
}

/// Parse a document into a configuration.
///
/// Accepts every looseness of shape except a missing or empty window list
/// and a window entry that matches no accepted shape. The default name
/// stands in when the document names no session; the caller derives it from
/// the surroundings, and it is never empty.
pub fn parse(doc: &Doc, default_name: &String) -> (r: Result<Configuration, ConfigError>)
    requires
        default_name@.len() > 0,
    ensures
        (r matches Result::Err(e) && e == ConfigError::MissingWindows) <==> windows_entries(
            *doc,
        ).len() == 0,
        (r matches Result::Err(e) && e == ConfigError::MalformedWindow) <==> (windows_entries(
            *doc,
        ).len() > 0 && !(forall|i: int|
            0 <= i < windows_entries(*doc).len() ==> valid_entry(windows_entries(*doc)[i]))),
        r is Ok <==> (windows_entries(*doc).len() > 0 && (forall|i: int|
            0 <= i < windows_entries(*doc).len() ==> valid_entry(windows_entries(*doc)[i]))),
        r matches Result::Ok(c) ==> c@ == config_model(*doc, default_name@) && config_wf(c@),
{
    let entries: &Vec<Doc> = match get(doc, "windows") {
        Option::Some(wv) => match wv {
            Doc::List(items) => items,
            _ => {
                return Result::Err(ConfigError::MissingWindows);
            },
        },
        Option::None => {
            return Result::Err(ConfigError::MissingWindows);
        },
    };
    let n = entries.len();
    if n == 0 {
        return Result::Err(ConfigError::MissingWindows);
    }
    let mut windows: Vec<Window> = Vec::new();
    for i in 0..n
        invariant
            n == entries@.len(),
            n > 0,
            windows_entries(*doc) == entries@,
            forall|j: int| 0 <= j < i ==> valid_entry(entries@[j]),
            windows@.map_values(|w: Window| w@) =~= entries@.take(i as int).map_values(
                |d2: Doc| window_model(d2),
            ),
    {
        match classify(&entries[i]) {
            Option::Some(sh) => {
                let w = resolve_shape(sh);
                let ghost prev = windows@;
                windows.push(w);
                proof {
                    assert(entries@.take(i as int + 1) =~= entries@.take(i as int).push(
                        entries@[i as int],
                    ));
                    crate::views::lemma_map_values_push(
                        entries@.take(i as int),
                        entries@[i as int],
                        |d2: Doc| window_model(d2),
                    );
                    crate::views::lemma_map_values_push(prev, w, |w2: Window| w2@);
                    assert(windows@.map_values(|w2: Window| w2@) =~= entries@.take(
                        i as int + 1,
                    ).map_values(|d2: Doc| window_model(d2)));
                }
            },
            Option::None => {
                proof {
                    assert(!valid_entry(windows_entries(*doc)[i as int]));
                }
                return Result::Err(ConfigError::MalformedWindow);
            },
        }
    }
    let name = match get(doc, "name") {
        Option::Some(nv) => match scalar_string(nv) {
            Option::Some(s) => if s.as_str().unicode_len() > 0 {
                s
            } else {
                default_name.clone()
            },
            Option::None => default_name.clone(),
        },
        Option::None => default_name.clone(),
    };
    let root = match get(doc, "root") {
        Option::Some(rv) => scalar_string(rv),
        Option::None => Option::None,
    };
    let pre = match get(doc, "pre") {
        Option::Some(pv) => hook_vec(pv),
        Option::None => Vec::new(),
    };
    let pre_window = match get(doc, "pre_window") {
        Option::Some(pv) => hook_vec(pv),
        Option::None => Vec::new(),
    };
    let c = Configuration { name, root, pre, pre_window, windows };
    proof {
        assert(entries@.take(n as int) =~= entries@);
        assert(c@.windows =~= windows_entries(*doc).map_values(|d2: Doc| window_model(d2)));
        assert(c@ =~= config_model(*doc, default_name@));
        assert forall|i: int| 0 <= i < c@.windows.len() implies #[trigger] c@.windows[i].panes.len()
            > 0 by {
            lemma_window_model_panes(entries@[i]);
        }
    }
    Result::Ok(c)
}

} // verus!
