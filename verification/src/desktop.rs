//! What the desktop's tools report, read into plain values: compositor
//! window trees, workspace lists, window properties printed by `xprop`,
//! GNOME Shell's evaluation results, and the window list of `wmctrl`.
use vstd::prelude::*;
use vstd::string::*;

use crate::lines::{
    first_line, lines_of, strip_prefix_text, strip_suffix_text, text_lines, texts, trim_char,
    trim_char_text, without_prefix, without_suffix,
};
use crate::text::{
    contains_exec, contains_text, decimal, decimal_text, find_text, first_occurrence, lowercase, occurs_at,
    split_parts, split_text, split_words, text_eq, to_lower, trim_text, trimmed, words,
};

verus! {

/// A text field of a JSON object: missing, present but not a string, or a string.
#[derive(Debug, Clone)]
pub enum Field {
    Missing,
    Other,
    Text(String),
}

/// A node of a compositor's window tree.
#[derive(Debug)]
pub struct WindowNode {
    /// `id` as an unsigned integer (0 when missing or not one).
    pub id: u64,
    /// Whether `focused` is `true`.
    pub focused: bool,
    pub app_id: Field,
    /// `window_properties.class`, when it is a string.
    pub class: Option<String>,
    /// `name`, when it is a string.
    pub name: Option<String>,
    /// The tiled children (`nodes`).
    pub nodes: Vec<WindowNode>,
    /// The floating children (`floating_nodes`).
    pub floating_nodes: Vec<WindowNode>,
}

/// The first focused node of a tree, searched depth first: the node itself,
/// then its tiled children, then (when `floating`) its floating children.
pub open spec fn focused_in(n: WindowNode, floating: bool) -> Option<WindowNode>
    decreases n, 0int,
{
    if n.focused {
        Some(n)
    } else {
        match first_focused(n.nodes@, floating, 0) {
            Some(x) => Some(x),
            None => if floating {
                first_focused(n.floating_nodes@, floating, 0)
            } else {
                None
            },
        }
    }
}

/// The first focused node among `ns[i..]`.
pub open spec fn first_focused(ns: Seq<WindowNode>, floating: bool, i: int) -> Option<WindowNode>
    decreases ns, ns.len() - i,
{
    if 0 <= i < ns.len() {
        match focused_in(ns[i], floating) {
            Some(x) => Some(x),
            None => first_focused(ns, floating, i + 1),
        }
    } else {
        None
    }
}

/// The first focused node among `ns[i..]`, and every earlier one holds none.
proof fn lemma_first_focused_step(ns: Seq<WindowNode>, floating: bool, i: int)
    requires
        0 <= i < ns.len(),
        focused_in(ns[i], floating) is None,
    ensures
        first_focused(ns, floating, i) == first_focused(ns, floating, i + 1),
{
}

fn first_focused_exec<'a>(ns: &'a Vec<WindowNode>, floating: bool) -> (r: Option<&'a WindowNode>)
    ensures
        match r {
            Some(x) => first_focused(ns@, floating, 0) == Some(*x),
            None => first_focused(ns@, floating, 0) is None,
        },
    decreases ns@, 1int,
{
    let mut i: usize = 0;
    while i < ns.len()
        invariant
            i <= ns@.len(),
            first_focused(ns@, floating, 0) == first_focused(ns@, floating, i as int),
        decreases ns@.len() - i,
    {
        proof {
            assert(decreases_to!(ns@ => ns@[i as int]));
        }
        match find_focused(&ns[i], floating) {
            Some(x) => {
                return Some(x);
            },
            None => {
                proof {
                    lemma_first_focused_step(ns@, floating, i as int);
                }
            },
        }
        i += 1;
    }
    None
}

/// The first focused node of a tree (see `focused_in`).
pub fn find_focused<'a>(n: &'a WindowNode, floating: bool) -> (r: Option<&'a WindowNode>)
    ensures
        match r {
            Some(x) => focused_in(*n, floating) == Some(*x),
            None => focused_in(*n, floating) is None,
        },
    decreases *n, 0int,
{
    if n.focused {
        return Some(n);
    }
    proof {
        assert(decreases_to!(*n => n.nodes@));
    }
    match first_focused_exec(&n.nodes, floating) {
        Some(x) => Some(x),
        None => {
            if floating {
                proof {
                    assert(decreases_to!(*n => n.floating_nodes@));
                }
                first_focused_exec(&n.floating_nodes, floating)
            } else {
                None
            }
        },
    }
}

/// The text of a field that should be a string, or the empty text.
pub open spec fn field_text(f: Field) -> Seq<char> {
    match f {
        Field::Text(s) => s@,
        _ => Seq::empty(),
    }
}

pub open spec fn text_or_empty(o: Option<String>) -> Seq<char> {
    match o {
        Some(s) => s@,
        None => Seq::empty(),
    }
}

fn field_text_exec(f: &Field) -> (r: String)
    ensures
        r@ == field_text(*f),
{
    match f {
        Field::Text(s) => s.clone(),
        _ => String::new(),
    }
}

fn owned_or_empty(o: &Option<String>) -> (r: String)
    ensures
        r@ == text_or_empty(*o),
{
    match o {
        Some(s) => s.clone(),
        None => String::new(),
    }
}

/// The app a focused node names: its `app_id` when present (a non-string
/// reads as "unknown"), else its window class, else "unknown".
pub open spec fn node_app(n: WindowNode) -> Seq<char> {
    match n.app_id {
        Field::Text(s) => s@,
        Field::Other => "unknown"@,
        Field::Missing => match n.class {
            Some(c) => c@,
            None => "unknown"@,
        },
    }
}

/// The focused window of a tree as (app, title), floating windows included;
/// `None` when nothing is focused or its app is unknown.
pub fn focused_window(tree: &WindowNode) -> (r: Option<(String, String)>)
    ensures
        match focused_in(*tree, true) {
            Some(f) => if node_app(f) != "unknown"@ {
                r matches Some((a, t)) && a@ == node_app(f) && t@ == text_or_empty(f.name)
            } else {
                r is None
            },
            None => r is None,
        },
{
    match find_focused(tree, true) {
        Some(f) => {
            let app = match &f.app_id {
                Field::Text(s) => s.clone(),
                Field::Other => String::from_str("unknown"),
                Field::Missing => match &f.class {
                    Some(c) => c.clone(),
                    None => String::from_str("unknown"),
                },
            };
            let title = owned_or_empty(&f.name);
            if text_eq(app.as_str(), "unknown") {
                None
            } else {
                Some((app, title))
            }
        },
        None => None,
    }
}

/// "app — title".
pub open spec fn title_line(app: Seq<char>, title: Seq<char>) -> Seq<char> {
    app + " — "@ + title
}

/// The active window's line for `ReadWindowTitle`, from a tree whose tiled
/// nodes are searched: its `app_id` and name, each empty when missing.
pub fn focused_title_line(tree: &WindowNode) -> (r: Option<String>)
    ensures
        match focused_in(*tree, false) {
            Some(f) => r matches Some(l) && l@ == title_line(field_text(f.app_id), text_or_empty(f.name)),
            None => r is None,
        },
{
    match find_focused(tree, false) {
        Some(f) => {
            let app = field_text_exec(&f.app_id);
            let title = owned_or_empty(&f.name);
            Some(app.concat(" — ").concat(title.as_str()))
        },
        None => None,
    }
}

/// The active window's line from its class and title, each empty when missing.
pub fn window_title_line(class: &Option<String>, title: &Option<String>) -> (r: String)
    ensures
        r@ == title_line(text_or_empty(*class), text_or_empty(*title)),
{
    owned_or_empty(class).concat(" — ").concat(owned_or_empty(title).as_str())
}

/// A value matches a filter when there is no filter or it contains it.
pub open spec fn matches_filter(value: Seq<char>, filter: Option<String>) -> bool {
    match filter {
        Some(f) => contains_text(value, f@),
        None => true,
    }
}

fn matches_filter_exec(value: &str, filter: &Option<String>) -> (r: bool)
    ensures
        r == matches_filter(value@, *filter),
{
    match filter {
        Some(f) => contains_exec(value, f.as_str()),
        None => true,
    }
}

/// A node is a window to focus when its app and name match the filters and
/// it has an id.
pub open spec fn window_matches(n: WindowNode, app: Option<String>, title: Option<String>) -> bool {
    matches_filter(field_text(n.app_id), app) && matches_filter(text_or_empty(n.name), title) && n.id > 0
}

/// The id of the first matching window of a tree, searched depth first
/// through the tiled nodes.
pub open spec fn matching_in(n: WindowNode, app: Option<String>, title: Option<String>) -> Option<u64>
    decreases n, 0int,
{
    if window_matches(n, app, title) {
        Some(n.id)
    } else {
        first_matching(n.nodes@, app, title, 0)
    }
}

pub open spec fn first_matching(ns: Seq<WindowNode>, app: Option<String>, title: Option<String>, i: int) -> Option<u64>
    decreases ns, ns.len() - i,
{
    if 0 <= i < ns.len() {
        match matching_in(ns[i], app, title) {
            Some(x) => Some(x),
            None => first_matching(ns, app, title, i + 1),
        }
    } else {
        None
    }
}

fn first_matching_exec(ns: &Vec<WindowNode>, app: &Option<String>, title: &Option<String>) -> (r: Option<u64>)
    ensures
        r == first_matching(ns@, *app, *title, 0),
    decreases ns@, 1int,
{
    let mut i: usize = 0;
    while i < ns.len()
        invariant
            i <= ns@.len(),
            first_matching(ns@, *app, *title, 0) == first_matching(ns@, *app, *title, i as int),
        decreases ns@.len() - i,
    {
        proof {
            assert(decreases_to!(ns@ => ns@[i as int]));
        }
        match find_window(&ns[i], app, title) {
            Some(x) => {
                return Some(x);
            },
            None => {},
        }
        i += 1;
    }
    None
}

/// The id of the first window of a tree matching the filters (see `matching_in`).
pub fn find_window(n: &WindowNode, app: &Option<String>, title: &Option<String>) -> (r: Option<u64>)
    ensures
        r == matching_in(*n, *app, *title),
    decreases *n, 0int,
{
    let node_app = field_text_exec(&n.app_id);
    let node_title = owned_or_empty(&n.name);
    if matches_filter_exec(node_app.as_str(), app) && matches_filter_exec(node_title.as_str(), title)
        && n.id > 0 {
        return Some(n.id);
    }
    proof {
        assert(decreases_to!(*n => n.nodes@));
    }
    first_matching_exec(&n.nodes, app, title)
}

/// The id, in decimal, of the window to focus in a tree.
pub fn window_to_focus(tree: &WindowNode, app: &Option<String>, title: &Option<String>) -> (r: Option<String>)
    ensures
        match matching_in(*tree, *app, *title) {
            Some(id) => r matches Some(t) && t@ == decimal(id as nat),
            None => r is None,
        },
{
    match find_window(tree, app, title) {
        Some(id) => Some(decimal_text(id)),
        None => None,
    }
}

/// A client of a compositor that lists windows flat: its class, title and
/// address, each empty when missing.
#[derive(Debug, Clone)]
pub struct ClientInfo {
    pub class: String,
    pub title: String,
    pub address: String,
}

pub open spec fn client_matches(c: ClientInfo, app: Option<String>, title: Option<String>) -> bool {
    matches_filter(c.class@, app) && matches_filter(c.title@, title) && c.address@.len() > 0
}

/// The first client matching the filters that has an address.
pub fn pick_client(clients: &Vec<ClientInfo>, app: &Option<String>, title: &Option<String>) -> (r: Option<usize>)
    ensures
        match r {
            Some(k) => k < clients@.len() && client_matches(clients@[k as int], *app, *title) && forall|j: int|
                0 <= j < k ==> !client_matches(#[trigger] clients@[j], *app, *title),
            None => forall|j: int| 0 <= j < clients@.len() ==> !client_matches(#[trigger] clients@[j], *app, *title),
        },
{
    let mut i: usize = 0;
    while i < clients.len()
        invariant
            i <= clients@.len(),
            forall|j: int| 0 <= j < i ==> !client_matches(#[trigger] clients@[j], *app, *title),
        decreases clients@.len() - i,
    {
        let c = &clients[i];
        if matches_filter_exec(c.class.as_str(), app) && matches_filter_exec(c.title.as_str(), title)
            && c.address.as_str().unicode_len() > 0 {
            return Some(i);
        }
        i += 1;
    }
    None
}

/// What a focus request is labelled with: the app, else the title, else "window".
pub open spec fn focus_label(app: Option<String>, title: Option<String>) -> Seq<char> {
    match app {
        Some(a) => a@,
        None => match title {
            Some(t) => t@,
            None => "window"@,
        },
    }
}

/// "Focused <label>", the message of a successful focus request.
pub fn focused_message(app: &Option<String>, title: &Option<String>) -> (r: String)
    ensures
        r@ == "Focused "@ + focus_label(*app, *title),
{
    let label = match app {
        Some(a) => a.clone(),
        None => match title {
            Some(t) => t.clone(),
            None => String::from_str("window"),
        },
    };
    String::from_str("Focused ").concat(label.as_str())
}

/// A workspace as a compositor lists it.
#[derive(Debug, Clone)]
pub struct WorkspaceInfo {
    /// Whether `focused` is `true`.
    pub focused: bool,
    /// `name`, when it is a string.
    pub name: Option<String>,
}

/// The name of the first focused workspace that has a name.
pub fn focused_workspace(list: &Vec<WorkspaceInfo>) -> (r: Option<String>)
    ensures
        match r {
            Some(n) => exists|k: int|
                0 <= k < list@.len() && (#[trigger] list@[k]).focused && (list@[k].name matches Some(m)
                    && m@ == n@) && forall|j: int|
                    0 <= j < k ==> !((#[trigger] list@[j]).focused && list@[j].name is Some),
            None => forall|j: int| 0 <= j < list@.len() ==> !((#[trigger] list@[j]).focused && list@[j].name is Some),
        },
{
    let mut i: usize = 0;
    while i < list.len()
        invariant
            i <= list@.len(),
            forall|j: int| 0 <= j < i ==> !((#[trigger] list@[j]).focused && list@[j].name is Some),
        decreases list@.len() - i,
    {
        if list[i].focused {
            match &list[i].name {
                Some(n) => {
                    let r = n.clone();
                    assert(list@[i as int].focused);
                    return Some(r);
                },
                None => {},
            }
        }
        i += 1;
    }
    None
}

/// The active window a compositor reports as (class, title): the class
/// defaults to "unknown", which is no answer, and the title to empty.
pub fn active_window(class: &Option<String>, title: &Option<String>) -> (r: Option<(String, String)>)
    ensures
        match *class {
            Some(c) => if c@ != "unknown"@ {
                r matches Some((a, t)) && a@ == c@ && t@ == text_or_empty(*title)
            } else {
                r is None
            },
            None => r is None,
        },
{
    match class {
        Some(c) => {
            if text_eq(c.as_str(), "unknown") {
                None
            } else {
                Some((c.clone(), owned_or_empty(title)))
            }
        },
        None => None,
    }
}

/// Which compositor runs, from the variables its session sets.
#[derive(Debug, Clone, Copy, PartialEq, Eq, Structural)]
pub enum CompositorType {
    Sway,
    Hyprland,
    Unknown,
}

/// Sway when `SWAYSOCK` is set, else Hyprland when its instance signature
/// is set, else unknown.
pub fn detect_compositor(has_swaysock: bool, has_hyprland_signature: bool) -> (r: CompositorType)
    ensures
        r == if has_swaysock {
            CompositorType::Sway
        } else if has_hyprland_signature {
            CompositorType::Hyprland
        } else {
            CompositorType::Unknown
        },
{
    if has_swaysock {
        CompositorType::Sway
    } else if has_hyprland_signature {
        CompositorType::Hyprland
    } else {
        CompositorType::Unknown
    }
}

/// The workspace watcher's backend: "sway", "hyprland", or "gnome" by default.
pub fn workspace_backend(has_swaysock: bool, has_hyprland_signature: bool) -> (r: &'static str)
    ensures
        r@ == if has_swaysock {
            "sway"@
        } else if has_hyprland_signature {
            "hyprland"@
        } else {
            "gnome"@
        },
{
    if has_swaysock {
        "sway"
    } else if has_hyprland_signature {
        "hyprland"
    } else {
        "gnome"
    }
}

/// The value GNOME Shell's `Eval` printed, from its output `(true, '<value>')`
/// (with or without a final newline).
pub open spec fn gnome_eval_value(out: Seq<char>) -> Option<Seq<char>> {
    match without_prefix(out, "(true, '"@) {
        Some(rest) => match without_suffix(rest, "')\n"@) {
            Some(v) => Some(v),
            None => without_suffix(rest, "')"@),
        },
        None => None,
    }
}

pub fn gnome_eval_text(out: &str) -> (r: Option<String>)
    ensures
        match gnome_eval_value(out@) {
            Some(v) => r matches Some(t) && t@ == v,
            None => r is None,
        },
{
    match strip_prefix_text(out, "(true, '") {
        Some(rest) => match strip_suffix_text(rest.as_str(), "')\n") {
            Some(v) => Some(v),
            None => strip_suffix_text(rest.as_str(), "')"),
        },
        None => None,
    }
}

/// The focused window GNOME Shell reports as "class|title": the first two
/// pieces between '|', when the class is not empty.
pub fn gnome_focused_window(out: &str) -> (r: Option<(String, String)>)
    ensures
        match gnome_eval_value(out@) {
            Some(v) => {
                let parts = split_parts(v, "|"@);
                if parts.len() >= 2 && parts[0].len() > 0 {
                    r matches Some((a, t)) && a@ == parts[0] && t@ == parts[1]
                } else {
                    r is None
                }
            },
            None => r is None,
        },
{
    proof {
        reveal_strlit("|");
    }
    match gnome_eval_text(out) {
        Some(v) => {
            let parts = split_text(v.as_str(), "|");
            proof {
                assert(texts(parts@) == split_parts(v@, "|"@));
            }
            if parts.len() >= 2 && parts[0].as_str().unicode_len() > 0 {
                proof {
                    assert(parts@[0]@ == texts(parts@)[0]);
                    assert(parts@[1]@ == texts(parts@)[1]);
                }
                Some((parts[0].clone(), parts[1].clone()))
            } else {
                proof {
                    if parts@.len() >= 2 {
                        assert(parts@[0]@ == texts(parts@)[0]);
                    }
                }
                None
            }
        },
        None => None,
    }
}

/// The active workspace GNOME Shell reports as its index: "Workspace <index>".
pub fn gnome_workspace(out: &str) -> (r: Option<String>)
    ensures
        match gnome_eval_value(out@) {
            Some(v) => r matches Some(w) && w@ == "Workspace "@ + v,
            None => r is None,
        },
{
    match gnome_eval_text(out) {
        Some(v) => Some(String::from_str("Workspace ").concat(v.as_str())),
        None => None,
    }
}

/// The window id `xprop -root _NET_ACTIVE_WINDOW` printed after its '#'.
pub fn xprop_window_id(out: &str) -> (r: Option<String>)
    ensures
        ({
            let parts = split_parts(out@, "#"@);
            if parts.len() > 1 {
                r matches Some(id) && id@ == trimmed(parts[1])
            } else {
                r is None
            }
        }),
{
    proof {
        reveal_strlit("#");
    }
    let parts = split_text(out, "#");
    proof {
        assert(texts(parts@) == split_parts(out@, "#"@));
    }
    if parts.len() > 1 {
        proof {
            assert(parts@[1]@ == texts(parts@)[1]);
        }
        Some(trim_text(parts[1].as_str()).to_owned())
    } else {
        None
    }
}

/// The window class `xprop WM_CLASS` printed: the first quoted piece of its
/// first line, or "unknown".
pub fn xprop_wm_class(out: &str) -> (r: String)
    ensures
        ({
            let parts = split_parts(first_line(out@), "\""@);
            r@ == if parts.len() > 1 {
                parts[1]
            } else {
                "unknown"@
            }
        }),
{
    proof {
        reveal_strlit("\"");
    }
    let lines = lines_of(out);
    let first = if lines.len() > 0 {
        proof {
            assert(lines@[0]@ == texts(lines@)[0]);
        }
        lines[0].clone()
    } else {
        String::new()
    };
    let parts = split_text(first.as_str(), "\"");
    proof {
        assert(texts(parts@) == split_parts(first@, "\""@));
    }
    if parts.len() > 1 {
        proof {
            assert(parts@[1]@ == texts(parts@)[1]);
        }
        parts[1].clone()
    } else {
        String::from_str("unknown")
    }
}

/// The window name `xprop _NET_WM_NAME` printed: what follows its first
/// '=', trimmed, without surrounding quotes.
pub fn xprop_wm_name(out: &str) -> (r: String)
    ensures
        r@ == trim_char(
            trimmed(
                match first_occurrence(out@, "="@) {
                    Some(i) => out@.skip(i + 1),
                    None => Seq::empty(),
                },
            ),
            '"',
        ),
{
    proof {
        reveal_strlit("=");
        assert("="@.len() == 1);
    }
    let n = out.unicode_len();
    let after: String = match find_text(out, "=") {
        Some(i) => {
            assert(occurs_at(out@, "="@, i as int));
            out.substring_char(i + 1, n).to_owned()
        },
        None => String::new(),
    };
    proof {
        if let Some(i) = first_occurrence(out@, "="@) {
            assert(after@ =~= out@.skip(i + 1));
        }
    }
    trim_char_text(trim_text(after.as_str()), '"')
}

/// The focused window from `xprop`'s class and name output; an unknown
/// class is no answer.
pub fn xprop_focused_window(class_out: &str, name_out: &str) -> (r: Option<(String, String)>)
    ensures
        ({
            let parts = split_parts(first_line(class_out@), "\""@);
            let app = if parts.len() > 1 {
                parts[1]
            } else {
                "unknown"@
            };
            if app != "unknown"@ {
                r matches Some((a, t)) && a@ == app && t@ == trim_char(
                    trimmed(
                        match first_occurrence(name_out@, "="@) {
                            Some(i) => name_out@.skip(i + 1),
                            None => Seq::empty(),
                        },
                    ),
                    '"',
                )
            } else {
                r is None
            }
        }),
{
    let app = xprop_wm_class(class_out);
    let title = xprop_wm_name(name_out);
    if text_eq(app.as_str(), "unknown") {
        None
    } else {
        Some((app, title))
    }
}

/// The window id that `wmctrl -l` lists first on a line: the first word of
/// the first line containing `search`, compared in lower case.
pub open spec fn wmctrl_hit(lines: Seq<Seq<char>>, search: Seq<char>, i: int) -> Option<int>
    decreases lines.len() - i,
{
    if 0 <= i < lines.len() {
        if contains_text(lowercase(lines[i]), lowercase(search)) {
            Some(i)
        } else {
            wmctrl_hit(lines, search, i + 1)
        }
    } else {
        None
    }
}

pub open spec fn first_word(s: Seq<char>) -> Seq<char> {
    if words(s).len() > 0 {
        words(s)[0]
    } else {
        Seq::empty()
    }
}

/// What to look for with `wmctrl`: the title, else the app.
pub fn wmctrl_search(app: &Option<String>, title: &Option<String>) -> (r: Result<String, String>)
    ensures
        match *title {
            Some(t) => r matches Ok(s) && s@ == t@,
            None => match *app {
                Some(a) => r matches Ok(s) && s@ == a@,
                None => r matches Err(e) && e@ == "Must specify app or title"@,
            },
        },
{
    match title {
        Some(t) => Ok(t.clone()),
        None => match app {
            Some(a) => Ok(a.clone()),
            None => Err(String::from_str("Must specify app or title")),
        },
    }
}

/// The window id to activate from `wmctrl -l`'s listing, when a line matches.
pub fn wmctrl_window(listing: &str, search: &str) -> (r: Option<String>)
    ensures
        match wmctrl_hit(text_lines(listing@), search@, 0) {
            Some(k) => r matches Some(id) && id@ == first_word(text_lines(listing@)[k]),
            None => r is None,
        },
{
    let lines = lines_of(listing);
    let needle = to_lower(search);
    let ghost ls = text_lines(listing@);
    let mut i: usize = 0;
    while i < lines.len()
        invariant
            i <= lines@.len(),
            texts(lines@) == ls,
            ls == text_lines(listing@),
            needle@ == lowercase(search@),
            wmctrl_hit(ls, search@, 0) == wmctrl_hit(ls, search@, i as int),
        decreases lines@.len() - i,
    {
        proof {
            assert(lines@[i as int]@ == ls[i as int]);
        }
        let lowered = to_lower(lines[i].as_str());
        if contains_exec(lowered.as_str(), needle.as_str()) {
            proof {
                assert(wmctrl_hit(ls, search@, i as int) == Some(i as int));
            }
            let ws = split_words(lines[i].as_str());
            if ws.len() > 0 {
                proof {
                    assert(ws@[0]@ == ws@.map_values(|w: String| w@)[0]);
                }
                return Some(ws[0].clone());
            } else {
                return Some(String::new());
            }
        }
        i += 1;
    }
    None
}

/// Remembers the last focused window a watcher announced.
pub struct FocusTracker {
    pub last_app: String,
    pub last_title: String,
}

impl FocusTracker {
    pub fn new() -> (r: Self)
        ensures
            r.last_app@.len() == 0,
            r.last_title@.len() == 0,
    {
        FocusTracker { last_app: String::new(), last_title: String::new() }
    }

    /// Whether a focused window is news worth announcing: its app or title
    /// differs from the last one announced, which it then becomes.
    pub fn observe(&mut self, app: String, title: String) -> (changed: bool)
        ensures
            changed == (app@ != old(self).last_app@ || title@ != old(self).last_title@),
            changed ==> final(self).last_app@ == app@ && final(self).last_title@ == title@,
            !changed ==> final(self).last_app@ == old(self).last_app@ && final(self).last_title@ == old(
                self,
            ).last_title@,
    {
        if text_eq(app.as_str(), self.last_app.as_str()) && text_eq(title.as_str(), self.last_title.as_str()) {
            false
        } else {
            self.last_app = app;
            self.last_title = title;
            true
        }
    }
}

/// Remembers the last workspace a watcher announced.
pub struct WorkspaceTracker {
    pub last: String,
}

impl WorkspaceTracker {
    pub fn new() -> (r: Self)
        ensures
            r.last@.len() == 0,
    {
        WorkspaceTracker { last: String::new() }
    }

    /// Whether a workspace differs from the last one announced, which it then becomes.
    pub fn observe(&mut self, workspace: String) -> (changed: bool)
        ensures
            changed == (workspace@ != old(self).last@),
            final(self).last@ == workspace@,
    {
        if text_eq(workspace.as_str(), self.last.as_str()) {
            false
        } else {
            self.last = workspace;
            true
        }
    }
}

} // verus!
