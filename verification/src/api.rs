//! The HTTP interface of the web server: which handler answers which
//! request, and which embedded file the browser interface is served from.

use vstd::prelude::*;
use crate::json::{Json, JsonView, lemma_object_view, members_view};
use crate::records::strings_view;
use crate::text::{owned, push_char, str_eq, agree, has_prefix, same_text, lemma_agree, lemma_agree_self, lemma_has_prefix};

verus! {

/// The HTTP methods that the interface answers.
#[derive(Debug, Clone, Copy, PartialEq, Eq, Structural)]
pub enum Method {
    Get,
    Post,
    Patch,
    Delete,
}

/// A route: the method, the path pattern (a segment starting with `:`
/// captures one segment of the path) and the handler.
pub struct Route {
    pub method: Method,
    pub pattern: &'static str,
    pub handler: &'static str,
}

/// The routes of the interface, in the order they are declared.
pub open spec fn routes_spec() -> Seq<(Method, Seq<char>, Seq<char>)> {
    seq![
        (Method::Get, "/api/projects"@, "list_projects"@),
        (Method::Post, "/api/projects"@, "create_project"@),
        (Method::Patch, "/api/projects/:id"@, "update_project"@),
        (Method::Delete, "/api/projects/:id"@, "delete_project"@),
        (Method::Get, "/api/projects/:pid/modules"@, "list_modules_by_project"@),
        (Method::Get, "/api/projects/:pid/files"@, "list_files_by_project"@),
        (Method::Get, "/api/projects/:pid/tasks"@, "list_tasks_by_project"@),
        (Method::Get, "/api/projects/:pid/todos"@, "list_todos_by_project"@),
        (Method::Get, "/api/projects/:pid/user-stories"@, "list_user_stories_by_project"@),
        (Method::Get, "/api/projects/:pid/epics"@, "list_epics_by_project"@),
        (Method::Get, "/api/projects/:pid/personas"@, "list_personas_by_project"@),
        (Method::Get, "/api/projects/:pid/workflows"@, "list_workflows_by_project"@),
        (Method::Get, "/api/modules"@, "list_modules"@),
        (Method::Post, "/api/modules"@, "create_module"@),
        (Method::Patch, "/api/modules/:id"@, "update_module"@),
        (Method::Delete, "/api/modules/:id"@, "delete_module"@),
        (Method::Get, "/api/modules/:mid/submodules"@, "list_submodules_by_module"@),
        (Method::Get, "/api/modules/:mid/files"@, "list_files_by_module"@),
        (Method::Post, "/api/submodules"@, "create_submodule"@),
        (Method::Patch, "/api/submodules/:id"@, "update_submodule"@),
        (Method::Delete, "/api/submodules/:id"@, "delete_submodule"@),
        (Method::Post, "/api/files"@, "create_file"@),
        (Method::Patch, "/api/files/:id"@, "update_file"@),
        (Method::Delete, "/api/files/:id"@, "delete_file"@),
        (Method::Post, "/api/tasks"@, "create_task"@),
        (Method::Patch, "/api/tasks/:id"@, "update_task"@),
        (Method::Delete, "/api/tasks/:id"@, "delete_task"@),
        (Method::Post, "/api/todos"@, "create_todo"@),
        (Method::Patch, "/api/todos/:id"@, "update_todo"@),
        (Method::Delete, "/api/todos/:id"@, "delete_todo"@),
        (Method::Post, "/api/user-stories"@, "create_user_story"@),
        (Method::Patch, "/api/user-stories/:id"@, "update_user_story"@),
        (Method::Delete, "/api/user-stories/:id"@, "delete_user_story"@),
        (Method::Post, "/api/epics"@, "create_epic"@),
        (Method::Patch, "/api/epics/:id"@, "update_epic"@),
        (Method::Delete, "/api/epics/:id"@, "delete_epic"@),
        (Method::Post, "/api/personas"@, "create_persona"@),
        (Method::Patch, "/api/personas/:id"@, "update_persona"@),
        (Method::Delete, "/api/personas/:id"@, "delete_persona"@),
        (Method::Post, "/api/workflows"@, "create_workflow"@),
        (Method::Patch, "/api/workflows/:id"@, "update_workflow"@),
        (Method::Delete, "/api/workflows/:id"@, "delete_workflow"@),
        (Method::Post, "/api/contexts"@, "create_context"@),
        (Method::Patch, "/api/contexts/:id"@, "update_context"@),
        (Method::Get, "/api/ctx/task/:id"@, "get_task_context"@),
        (Method::Get, "/api/ctx/file/:id"@, "get_file_context"@),
        (Method::Get, "/api/ctx/epic/:id"@, "get_epic_context"@),
        (Method::Post, "/api/link"@, "link_nodes"@),
        (Method::Get, "/api/graph"@, "get_graph"@),
        (Method::Get, "/api/projects/:pid/graph"@, "get_project_graph"@),
    ]
}

/// The view of a route.
pub open spec fn route_view(r: Route) -> (Method, Seq<char>, Seq<char>) {
    (r.method, r.pattern@, r.handler@)
}

fn route(method: Method, pattern: &'static str, handler: &'static str) -> (r: Route)
    ensures
        route_view(r) == (method, pattern@, handler@),
{
    Route { method, pattern, handler }
}

/// The routes of the interface, in the order they are declared.
pub fn routes() -> (r: Vec<Route>)
    ensures
        r@.map_values(|x: Route| route_view(x)) == routes_spec(),
{
    let r = vec![
        route(Method::Get, "/api/projects", "list_projects"),
        route(Method::Post, "/api/projects", "create_project"),
        route(Method::Patch, "/api/projects/:id", "update_project"),
        route(Method::Delete, "/api/projects/:id", "delete_project"),
        route(Method::Get, "/api/projects/:pid/modules", "list_modules_by_project"),
        route(Method::Get, "/api/projects/:pid/files", "list_files_by_project"),
        route(Method::Get, "/api/projects/:pid/tasks", "list_tasks_by_project"),
        route(Method::Get, "/api/projects/:pid/todos", "list_todos_by_project"),
        route(Method::Get, "/api/projects/:pid/user-stories", "list_user_stories_by_project"),
        route(Method::Get, "/api/projects/:pid/epics", "list_epics_by_project"),
        route(Method::Get, "/api/projects/:pid/personas", "list_personas_by_project"),
        route(Method::Get, "/api/projects/:pid/workflows", "list_workflows_by_project"),
        route(Method::Get, "/api/modules", "list_modules"),
        route(Method::Post, "/api/modules", "create_module"),
        route(Method::Patch, "/api/modules/:id", "update_module"),
        route(Method::Delete, "/api/modules/:id", "delete_module"),
        route(Method::Get, "/api/modules/:mid/submodules", "list_submodules_by_module"),
        route(Method::Get, "/api/modules/:mid/files", "list_files_by_module"),
        route(Method::Post, "/api/submodules", "create_submodule"),
        route(Method::Patch, "/api/submodules/:id", "update_submodule"),
        route(Method::Delete, "/api/submodules/:id", "delete_submodule"),
        route(Method::Post, "/api/files", "create_file"),
        route(Method::Patch, "/api/files/:id", "update_file"),
        route(Method::Delete, "/api/files/:id", "delete_file"),
        route(Method::Post, "/api/tasks", "create_task"),
        route(Method::Patch, "/api/tasks/:id", "update_task"),
        route(Method::Delete, "/api/tasks/:id", "delete_task"),
        route(Method::Post, "/api/todos", "create_todo"),
        route(Method::Patch, "/api/todos/:id", "update_todo"),
        route(Method::Delete, "/api/todos/:id", "delete_todo"),
        route(Method::Post, "/api/user-stories", "create_user_story"),
        route(Method::Patch, "/api/user-stories/:id", "update_user_story"),
        route(Method::Delete, "/api/user-stories/:id", "delete_user_story"),
        route(Method::Post, "/api/epics", "create_epic"),
        route(Method::Patch, "/api/epics/:id", "update_epic"),
        route(Method::Delete, "/api/epics/:id", "delete_epic"),
        route(Method::Post, "/api/personas", "create_persona"),
        route(Method::Patch, "/api/personas/:id", "update_persona"),
        route(Method::Delete, "/api/personas/:id", "delete_persona"),
        route(Method::Post, "/api/workflows", "create_workflow"),
        route(Method::Patch, "/api/workflows/:id", "update_workflow"),
        route(Method::Delete, "/api/workflows/:id", "delete_workflow"),
        route(Method::Post, "/api/contexts", "create_context"),
        route(Method::Patch, "/api/contexts/:id", "update_context"),
        route(Method::Get, "/api/ctx/task/:id", "get_task_context"),
        route(Method::Get, "/api/ctx/file/:id", "get_file_context"),
        route(Method::Get, "/api/ctx/epic/:id", "get_epic_context"),
        route(Method::Post, "/api/link", "link_nodes"),
        route(Method::Get, "/api/graph", "get_graph"),
        route(Method::Get, "/api/projects/:pid/graph", "get_project_graph"),
    ];
    assert(r@.map_values(|x: Route| route_view(x)) =~= routes_spec());
    r
}

/// The segments of a path, split at every `/`.
pub open spec fn segments(s: Seq<char>) -> Seq<Seq<char>>
    decreases s.len(),
{
    if s.len() == 0 {
        seq![Seq::empty()]
    } else if s.last() == '/' {
        segments(s.drop_last()).push(Seq::empty())
    } else {
        let p = segments(s.drop_last());
        p.update(p.len() - 1, p.last().push(s.last()))
    }
}

proof fn lemma_segments_nonempty(s: Seq<char>)
    ensures
        segments(s).len() > 0,
    decreases s.len(),
{
    if s.len() > 0 {
        lemma_segments_nonempty(s.drop_last());
    }
}

/// The segments of a path, split at every `/`.
pub fn split_segments(s: &str) -> (r: Vec<String>)
    ensures
        strings_view(r@) == segments(s@),
{
    let n = s.unicode_len();
    let mut out: Vec<String> = vec![String::new()];
    let mut i: usize = 0;
    assert(s@.take(0) =~= Seq::<char>::empty());
    assert(strings_view(out@) =~= seq![Seq::<char>::empty()]);
    while i < n
        invariant
            n == s@.len(),
            i <= n,
            out@.len() > 0,
            strings_view(out@) == segments(s@.take(i as int)),
        decreases n - i,
    {
        let c = s.get_char(i);
        proof {
            assert(s@.take(i + 1).drop_last() =~= s@.take(i as int));
            assert(s@.take(i + 1).last() == c);
        }
        let ghost before = strings_view(out@);
        if c == '/' {
            out.push(String::new());
            assert(strings_view(out@) =~= before.push(Seq::empty()));
        } else {
            let last = out.len() - 1;
            let mut seg = out.remove(last);
            push_char(&mut seg, c);
            out.push(seg);
            assert(strings_view(out@) =~= before.update(before.len() - 1, before.last().push(c)));
        }
        i = i + 1;
    }
    assert(s@.take(n as int) =~= s@);
    out
}

/// The segment of a pattern captures a segment of the path.
pub open spec fn is_capture(p: Seq<char>) -> bool {
    p.len() > 0 && p[0] == ':'
}

/// A pattern segment matches a path segment: a capture matches any
/// non-empty segment, any other segment itself.
pub open spec fn segment_matches(p: Seq<char>, s: Seq<char>) -> bool {
    if is_capture(p) {
        s.len() > 0
    } else {
        p == s
    }
}

/// A pattern matches a path: as many segments, each matching.
pub open spec fn pattern_matches(pattern: Seq<char>, path: Seq<char>) -> bool {
    let ps = segments(pattern);
    let ss = segments(path);
    ps.len() == ss.len() && forall|i: int| 0 <= i < ps.len() ==> segment_matches(#[trigger] ps[i], ss[i])
}

/// The segments of a path that the captures of a pattern take, with the
/// names of the captures.
pub open spec fn captures(ps: Seq<Seq<char>>, ss: Seq<Seq<char>>) -> Seq<(Seq<char>, Seq<char>)>
    decreases ps.len(),
{
    if ps.len() == 0 || ss.len() == 0 {
        Seq::empty()
    } else {
        captures(ps.drop_last(), ss.drop_last()) + if is_capture(ps.last()) {
            seq![(ps.last().drop_first(), ss.last())]
        } else {
            Seq::empty()
        }
    }
}

/// How a request is answered.
#[derive(Debug, PartialEq, Eq)]
pub enum Dispatch {
    /// By this handler, with these captured segments (name, value).
    Handler { handler: &'static str, params: Vec<(String, String)> },
    /// The path has routes, but none for this method.
    MethodNotAllowed,
    /// No route has this path: the browser interface answers.
    Fallback,
}

/// How a request is answered, as character sequences.
pub enum DispatchView {
    Handler(Seq<char>, Seq<(Seq<char>, Seq<char>)>),
    MethodNotAllowed,
    Fallback,
}

/// The first route, at or after `i`, whose pattern matches the path and
/// whose method is the request's.
pub open spec fn first_route(path: Seq<char>, method: Method, i: int) -> Option<int>
    decreases routes_spec().len() - i,
{
    if i < 0 || i >= routes_spec().len() {
        None
    } else if routes_spec()[i].0 == method && pattern_matches(routes_spec()[i].1, path) {
        Some(i)
    } else {
        first_route(path, method, i + 1)
    }
}

/// Some route's pattern matches the path.
pub open spec fn path_known(path: Seq<char>) -> bool {
    exists|i: int| 0 <= i < routes_spec().len() && pattern_matches(#[trigger] routes_spec()[i].1, path)
}

/// How a request with `method` on `path` is answered.
pub open spec fn dispatch_spec(method: Method, path: Seq<char>) -> DispatchView {
    match first_route(path, method, 0) {
        Some(i) => DispatchView::Handler(
            routes_spec()[i].2,
            captures(segments(routes_spec()[i].1), segments(path)),
        ),
        None => if path_known(path) {
            DispatchView::MethodNotAllowed
        } else {
            DispatchView::Fallback
        },
    }
}

impl View for Dispatch {
    type V = DispatchView;

    open spec fn view(&self) -> DispatchView {
        match self {
            Dispatch::Handler { handler, params } => DispatchView::Handler(
                handler@,
                params@.map_values(|p: (String, String)| (p.0@, p.1@)),
            ),
            Dispatch::MethodNotAllowed => DispatchView::MethodNotAllowed,
            Dispatch::Fallback => DispatchView::Fallback,
        }
    }
}

fn matches_exec(pattern: &str, path: &str, path_segs: &Vec<String>) -> (r: Option<Vec<(String, String)>>)
    requires
        strings_view(path_segs@) == segments(path@),
    ensures
        match r {
            Some(params) => pattern_matches(pattern@, path@) && params@.map_values(
                |p: (String, String)| (p.0@, p.1@),
            ) == captures(segments(pattern@), segments(path@)),
            None => !pattern_matches(pattern@, path@),
        },
{
    let ps = split_segments(pattern);
    let ghost psv = strings_view(ps@);
    let ghost ssv = strings_view(path_segs@);
    if ps.len() != path_segs.len() {
        return None;
    }
    let mut params: Vec<(String, String)> = Vec::new();
    let mut i: usize = 0;
    assert(psv.take(0) =~= Seq::<Seq<char>>::empty());
    assert(params@.map_values(|p: (String, String)| (p.0@, p.1@)) =~= Seq::<(Seq<char>, Seq<char>)>::empty());
    while i < ps.len()
        invariant
            i <= ps@.len(),
            ps@.len() == path_segs@.len(),
            psv == strings_view(ps@),
            ssv == strings_view(path_segs@),
            psv == segments(pattern@),
            ssv == segments(path@),
            forall|j: int| 0 <= j < i ==> segment_matches(#[trigger] psv[j], ssv[j]),
            params@.map_values(|p: (String, String)| (p.0@, p.1@)) == captures(psv.take(i as int), ssv.take(i as int)),
        decreases ps@.len() - i,
    {
        let p = ps[i].as_str();
        let s = path_segs[i].as_str();
        proof {
            assert(psv.take(i + 1).drop_last() =~= psv.take(i as int));
            assert(ssv.take(i + 1).drop_last() =~= ssv.take(i as int));
            assert(psv.take(i + 1).last() == psv[i as int]);
            assert(ssv.take(i + 1).last() == ssv[i as int]);
        }
        let plen = p.unicode_len();
        if plen > 0 && p.get_char(0) == ':' {
            if s.unicode_len() == 0 {
                assert(!segment_matches(psv[i as int], ssv[i as int]));
                return None;
            }
            let name = p.substring_char(1, plen);
            assert(name@ =~= psv[i as int].drop_first());
            let ghost before = params@;
            params.push((owned(name), owned(s)));
            assert(params@.map_values(|p: (String, String)| (p.0@, p.1@)) =~= before.map_values(
                |p: (String, String)| (p.0@, p.1@),
            ).push((psv[i as int].drop_first(), ssv[i as int])));
        } else {
            if !str_eq(p, s) {
                assert(!segment_matches(psv[i as int], ssv[i as int]));
                return None;
            }
        }
        i = i + 1;
    }
    assert(psv.take(i as int) =~= psv);
    assert(ssv.take(i as int) =~= ssv);
    Some(params)
}

/// How a request with `method` on `path` is answered: by the first route
/// of that method whose pattern matches the path; else, where some route
/// has the path, it is refused as a method not allowed; else the browser
/// interface answers.
pub fn dispatch(method: Method, path: &str) -> (r: Dispatch)
    ensures
        r@ == dispatch_spec(method, path@),
{
    let segs = split_segments(path);
    let rs = routes();
    let ghost rv = routes_spec();
    let mut known = false;
    let mut i: usize = 0;
    assert(rs@.len() == rv.len()) by {
        assert(rs@.map_values(|x: Route| route_view(x)).len() == rs@.len());
    }
    while i < rs.len()
        invariant
            i <= rs@.len(),
            rs@.len() == rv.len(),
            rv == routes_spec(),
            rs@.map_values(|x: Route| route_view(x)) == rv,
            strings_view(segs@) == segments(path@),
            first_route(path@, method, 0) == first_route(path@, method, i as int),
            known == exists|j: int| 0 <= j < i && pattern_matches(#[trigger] rv[j].1, path@),
        decreases rs@.len() - i,
    {
        assert(route_view(rs@[i as int]) == rv[i as int]);
        match matches_exec(rs[i].pattern, path, &segs) {
            Some(params) => {
                assert(pattern_matches(rv[i as int].1, path@));
                known = true;
                if rs[i].method == method {
                    return Dispatch::Handler { handler: rs[i].handler, params };
                }
            },
            None => {
                assert(!pattern_matches(rv[i as int].1, path@));
            },
        }
        i = i + 1;
    }
    if known {
        Dispatch::MethodNotAllowed
    } else {
        Dispatch::Fallback
    }
}

/// A path without its leading `/` characters.
pub open spec fn trim_leading_slashes(s: Seq<char>) -> Seq<char>
    decreases s.len(),
{
    if s.len() > 0 && s[0] == '/' {
        trim_leading_slashes(s.drop_first())
    } else {
        s
    }
}

/// The embedded file that a request path asks for: the path without its
/// leading `/`, or `index.html` where nothing is left.
pub open spec fn asset_path_spec(uri_path: Seq<char>) -> Seq<char> {
    let p = trim_leading_slashes(uri_path);
    if p.len() == 0 {
        "index.html"@
    } else {
        p
    }
}

/// The embedded file that a request path asks for.
pub fn asset_path(uri_path: &str) -> (r: String)
    ensures
        r@ == asset_path_spec(uri_path@),
{
    let n = uri_path.unicode_len();
    let mut i: usize = 0;
    assert(uri_path@.skip(0) =~= uri_path@);
    while i < n && uri_path.get_char(i) == '/'
        invariant
            n == uri_path@.len(),
            i <= n,
            trim_leading_slashes(uri_path@) == trim_leading_slashes(uri_path@.skip(i as int)),
        decreases n - i,
    {
        assert(uri_path@.skip(i as int).drop_first() =~= uri_path@.skip(i + 1));
        i = i + 1;
    }
    let rest = uri_path.substring_char(i, n);
    assert(rest@ =~= uri_path@.skip(i as int));
    if rest.unicode_len() == 0 {
        owned("index.html")
    } else {
        owned(rest)
    }
}

/// The media type that `mime_guess` gives a path (by its extension).
pub uninterp spec fn mime_type(path: Seq<char>) -> Seq<char>;

/// `mime_guess::from_path(path).first_or_octet_stream()`: the media type of
/// a path by its extension, `application/octet-stream` where none is known.
/// It depends on the path alone; what it is for a given path is left to
/// the crate's table.
#[verifier::external_body]
fn guess_mime(path: &str) -> (r: String)
    ensures
        r@ == mime_type(path@),
{
    mime_guess::from_path(path).first_or_octet_stream().as_ref().to_string()
}

/// What serving the browser interface does next.
#[derive(Debug, PartialEq, Eq)]
pub enum AssetStep {
    /// Serve the embedded file with this media type.
    Serve { path: String, mime: String },
    /// Look for this embedded file.
    Fetch { path: String },
    /// Answer 404 with this text.
    NotFound { body: String },
}

/// The text of the answer when the interface is not built.
pub open spec fn not_built_text() -> Seq<char> {
    "UI not built \u{2014} run `make ui-build`"@
}

/// A step of serving the browser interface, as character sequences.
pub enum AssetView {
    Serve(Seq<char>, Seq<char>),
    Fetch(Seq<char>),
    NotFound(Seq<char>),
}

impl View for AssetStep {
    type V = AssetView;

    open spec fn view(&self) -> AssetView {
        match self {
            AssetStep::Serve { path, mime } => AssetView::Serve(path@, mime@),
            AssetStep::Fetch { path } => AssetView::Fetch(path@),
            AssetStep::NotFound { body } => AssetView::NotFound(body@),
        }
    }
}

/// After looking for the file `path`: serve it where it is there; else
/// fall back to `index.html` (the interface routes in the browser); else
/// answer that the interface is not built.
pub open spec fn asset_next_spec(path: Seq<char>, found: bool, fallback: bool) -> AssetView {
    if found {
        AssetView::Serve(path, mime_type(path))
    } else if !fallback {
        AssetView::Fetch("index.html"@)
    } else {
        AssetView::NotFound(not_built_text())
    }
}

/// What to do after looking for the embedded file `path` (`fallback` when
/// that was already the fallback to `index.html`).
pub fn asset_next(path: &str, found: bool, fallback: bool) -> (r: AssetStep)
    ensures
        r@ == asset_next_spec(path@, found, fallback),
{
    if found {
        AssetStep::Serve { path: owned(path), mime: guess_mime(path) }
    } else if !fallback {
        AssetStep::Fetch { path: owned("index.html") }
    } else {
        AssetStep::NotFound { body: owned("UI not built \u{2014} run `make ui-build`") }
    }
}


/// How the interface answers a deletion: `204` with no body where the
/// record was there, else `404` with `{"error": "not found"}`.
pub open spec fn deletion_answer_spec(found: bool) -> (u16, Option<JsonView>) {
    if found {
        (204, None)
    } else {
        (404, Some(JsonView::Object(seq![("error"@, JsonView::Str("not found"@))])))
    }
}

/// How the interface answers a deletion.
pub fn deletion_answer(found: bool) -> (r: (u16, Option<Json>))
    ensures
        r.0 == deletion_answer_spec(found).0,
        match r.1 {
            Some(j) => deletion_answer_spec(found).1 == Some(j@),
            None => deletion_answer_spec(found).1 is None,
        },
{
    if found {
        (204, None)
    } else {
        let m = vec![(owned("error"), Json::Str(owned("not found")))];
        proof {
            lemma_object_view(m);
            assert(members_view(m@) =~= seq![("error"@, JsonView::Str("not found"@))]);
        }
        (404, Some(Json::Object(m)))
    }
}

/// How the interface answers a failure: `500` with the message under `error`.
pub fn failure_answer(message: String) -> (r: (u16, Json))
    ensures
        r.0 == 500,
        r.1@ == JsonView::Object(seq![("error"@, JsonView::Str(message@))]),
{
    let ghost mv = message@;
    let m = vec![(owned("error"), Json::Str(message))];
    proof {
        lemma_object_view(m);
        assert(members_view(m@) =~= seq![("error"@, JsonView::Str(mv))]);
    }
    (500, Json::Object(m))
}

/// How the interface answers a link: `{"ok": true}`.
pub fn link_answer() -> (r: Json)
    ensures
        r@ == JsonView::Object(seq![("ok"@, JsonView::Bool(true))]),
{
    let m = vec![(owned("ok"), Json::Bool(true))];
    proof {
        lemma_object_view(m);
        assert(members_view(m@) =~= seq![("ok"@, JsonView::Bool(true))]);
    }
    Json::Object(m)
}

// ---------------------------------------------------------------------------
// Laws of the routes
// ---------------------------------------------------------------------------

/// Letters that tell the handlers of the interface apart.
pub open spec fn handler_key(h: Seq<char>) -> (nat, char, char, char) {
    (h.len(), h[0], h[4], h[8])
}

/// The route `i` has a handler told apart from that of every route from `j` on.
pub open spec fn apart_from(i: int, j: int) -> bool
    decreases routes_spec().len() - j,
{
    if j < 0 || j >= routes_spec().len() {
        true
    } else {
        handler_key(routes_spec()[i].2) != handler_key(routes_spec()[j].2) && apart_from(i, j + 1)
    }
}

/// Every route from `i` on has a handler told apart from that of every
/// later route.
pub open spec fn apart_rows(i: int) -> bool
    decreases routes_spec().len() - i,
{
    if i < 0 || i >= routes_spec().len() {
        true
    } else {
        apart_from(i, i + 1) && apart_rows(i + 1)
    }
}

proof fn lemma_apart_from(i: int, j0: int, j: int)
    requires
        apart_from(i, j0),
        0 <= j0 <= j < routes_spec().len(),
    ensures
        handler_key(routes_spec()[i].2) != handler_key(routes_spec()[j].2),
    decreases j - j0,
{
    if j0 < j {
        lemma_apart_from(i, j0 + 1, j);
    }
}

proof fn lemma_apart_rows(i0: int, i: int)
    requires
        apart_rows(i0),
        0 <= i0 <= i < routes_spec().len(),
    ensures
        apart_from(i, i + 1),
    decreases i - i0,
{
    if i0 < i {
        lemma_apart_rows(i0 + 1, i);
    }
}

/// No two routes share a handler: a handler answers one method on one path.
pub proof fn lemma_handlers_are_distinct()
    ensures
        forall|i: int, j: int|
            0 <= i < routes_spec().len() && 0 <= j < routes_spec().len() && #[trigger] routes_spec()[i].2
                == #[trigger] routes_spec()[j].2 ==> i == j,
{
    reveal_strlit("list_projects");
    reveal_strlit("create_project");
    reveal_strlit("update_project");
    reveal_strlit("delete_project");
    reveal_strlit("list_modules_by_project");
    reveal_strlit("list_files_by_project");
    reveal_strlit("list_tasks_by_project");
    reveal_strlit("list_todos_by_project");
    reveal_strlit("list_user_stories_by_project");
    reveal_strlit("list_epics_by_project");
    reveal_strlit("list_personas_by_project");
    reveal_strlit("list_workflows_by_project");
    reveal_strlit("list_modules");
    reveal_strlit("create_module");
    reveal_strlit("update_module");
    reveal_strlit("delete_module");
    reveal_strlit("list_submodules_by_module");
    reveal_strlit("list_files_by_module");
    reveal_strlit("create_submodule");
    reveal_strlit("update_submodule");
    reveal_strlit("delete_submodule");
    reveal_strlit("create_file");
    reveal_strlit("update_file");
    reveal_strlit("delete_file");
    reveal_strlit("create_task");
    reveal_strlit("update_task");
    reveal_strlit("delete_task");
    reveal_strlit("create_todo");
    reveal_strlit("update_todo");
    reveal_strlit("delete_todo");
    reveal_strlit("create_user_story");
    reveal_strlit("update_user_story");
    reveal_strlit("delete_user_story");
    reveal_strlit("create_epic");
    reveal_strlit("update_epic");
    reveal_strlit("delete_epic");
    reveal_strlit("create_persona");
    reveal_strlit("update_persona");
    reveal_strlit("delete_persona");
    reveal_strlit("create_workflow");
    reveal_strlit("update_workflow");
    reveal_strlit("delete_workflow");
    reveal_strlit("create_context");
    reveal_strlit("update_context");
    reveal_strlit("get_task_context");
    reveal_strlit("get_file_context");
    reveal_strlit("get_epic_context");
    reveal_strlit("link_nodes");
    reveal_strlit("get_graph");
    reveal_strlit("get_project_graph");
    assert(apart_rows(0)) by {
        reveal_with_fuel(apart_rows, 52);
        reveal_with_fuel(apart_from, 52);
    }
    assert forall|i: int, j: int|
        0 <= i < routes_spec().len() && 0 <= j < routes_spec().len() && #[trigger] routes_spec()[i].2
            == #[trigger] routes_spec()[j].2 implies i == j by {
        if i < j {
            lemma_apart_rows(0, i);
            lemma_apart_from(i, i + 1, j);
        } else if j < i {
            lemma_apart_rows(0, j);
            lemma_apart_from(j, j + 1, i);
        }
    }
}

/// The verb that a handler's name begins with fits the method.
pub open spec fn verb_fits(m: Method, h: Seq<char>) -> bool {
    match m {
        Method::Delete => has_prefix(h, "delete_"@),
        Method::Patch => has_prefix(h, "update_"@),
        Method::Post => has_prefix(h, "create_"@) || same_text(h, "link_nodes"@),
        Method::Get => has_prefix(h, "list_"@) || has_prefix(h, "get_"@),
    }
}

/// The context of a task, a file or an epic is asked of its own handler.
pub open spec fn context_fits(path: Seq<char>, h: Seq<char>) -> bool {
    &&& same_text(path, "/api/ctx/task/:id"@) ==> same_text(h, "get_task_context"@)
    &&& same_text(path, "/api/ctx/file/:id"@) ==> same_text(h, "get_file_context"@)
    &&& same_text(path, "/api/ctx/epic/:id"@) ==> same_text(h, "get_epic_context"@)
}

/// Every route from `i` on is named for what it does.
pub open spec fn named_rows(i: int) -> bool
    decreases routes_spec().len() - i,
{
    if i < 0 || i >= routes_spec().len() {
        true
    } else {
        verb_fits(routes_spec()[i].0, routes_spec()[i].2) && context_fits(routes_spec()[i].1, routes_spec()[i].2)
            && named_rows(i + 1)
    }
}

proof fn lemma_named_rows(i0: int, i: int)
    requires
        named_rows(i0),
        0 <= i0 <= i < routes_spec().len(),
    ensures
        verb_fits(routes_spec()[i].0, routes_spec()[i].2) && context_fits(routes_spec()[i].1, routes_spec()[i].2),
    decreases i - i0,
{
    if i0 < i {
        lemma_named_rows(i0 + 1, i);
    }
}

/// Each route's handler does what the method asks: a `DELETE` deletes, a
/// `PATCH` updates, a `POST` creates (or links), a `GET` lists or gets; and
/// the context of a task, a file or an epic is answered by the handler of
/// that kind of record.
pub proof fn lemma_routes_do_what_they_say()
    ensures
        forall|i: int| 0 <= i < routes_spec().len() ==> {
            let (m, path, h) = #[trigger] routes_spec()[i];
            &&& m == Method::Delete ==> h.len() >= 7 && h.take(7) == "delete_"@
            &&& m == Method::Patch ==> h.len() >= 7 && h.take(7) == "update_"@
            &&& m == Method::Post ==> (h.len() >= 7 && h.take(7) == "create_"@) || h == "link_nodes"@
            &&& m == Method::Get ==> (h.len() >= 5 && h.take(5) == "list_"@) || (h.len() >= 4 && h.take(4)
                == "get_"@)
            &&& path == "/api/ctx/task/:id"@ ==> h == "get_task_context"@
            &&& path == "/api/ctx/file/:id"@ ==> h == "get_file_context"@
            &&& path == "/api/ctx/epic/:id"@ ==> h == "get_epic_context"@
        },
{
    reveal_strlit("/api/contexts");
    reveal_strlit("/api/contexts/:id");
    reveal_strlit("/api/ctx/epic/:id");
    reveal_strlit("/api/ctx/file/:id");
    reveal_strlit("/api/ctx/task/:id");
    reveal_strlit("/api/epics");
    reveal_strlit("/api/epics/:id");
    reveal_strlit("/api/files");
    reveal_strlit("/api/files/:id");
    reveal_strlit("/api/graph");
    reveal_strlit("/api/link");
    reveal_strlit("/api/modules");
    reveal_strlit("/api/modules/:id");
    reveal_strlit("/api/modules/:mid/files");
    reveal_strlit("/api/modules/:mid/submodules");
    reveal_strlit("/api/personas");
    reveal_strlit("/api/personas/:id");
    reveal_strlit("/api/projects");
    reveal_strlit("/api/projects/:id");
    reveal_strlit("/api/projects/:pid/epics");
    reveal_strlit("/api/projects/:pid/files");
    reveal_strlit("/api/projects/:pid/graph");
    reveal_strlit("/api/projects/:pid/modules");
    reveal_strlit("/api/projects/:pid/personas");
    reveal_strlit("/api/projects/:pid/tasks");
    reveal_strlit("/api/projects/:pid/todos");
    reveal_strlit("/api/projects/:pid/user-stories");
    reveal_strlit("/api/projects/:pid/workflows");
    reveal_strlit("/api/submodules");
    reveal_strlit("/api/submodules/:id");
    reveal_strlit("/api/tasks");
    reveal_strlit("/api/tasks/:id");
    reveal_strlit("/api/todos");
    reveal_strlit("/api/todos/:id");
    reveal_strlit("/api/user-stories");
    reveal_strlit("/api/user-stories/:id");
    reveal_strlit("/api/workflows");
    reveal_strlit("/api/workflows/:id");
    reveal_strlit("create_");
    reveal_strlit("create_context");
    reveal_strlit("create_epic");
    reveal_strlit("create_file");
    reveal_strlit("create_module");
    reveal_strlit("create_persona");
    reveal_strlit("create_project");
    reveal_strlit("create_submodule");
    reveal_strlit("create_task");
    reveal_strlit("create_todo");
    reveal_strlit("create_user_story");
    reveal_strlit("create_workflow");
    reveal_strlit("delete_");
    reveal_strlit("delete_epic");
    reveal_strlit("delete_file");
    reveal_strlit("delete_module");
    reveal_strlit("delete_persona");
    reveal_strlit("delete_project");
    reveal_strlit("delete_submodule");
    reveal_strlit("delete_task");
    reveal_strlit("delete_todo");
    reveal_strlit("delete_user_story");
    reveal_strlit("delete_workflow");
    reveal_strlit("get_");
    reveal_strlit("get_epic_context");
    reveal_strlit("get_file_context");
    reveal_strlit("get_graph");
    reveal_strlit("get_project_graph");
    reveal_strlit("get_task_context");
    reveal_strlit("link_nodes");
    reveal_strlit("list_");
    reveal_strlit("list_epics_by_project");
    reveal_strlit("list_files_by_module");
    reveal_strlit("list_files_by_project");
    reveal_strlit("list_modules");
    reveal_strlit("list_modules_by_project");
    reveal_strlit("list_personas_by_project");
    reveal_strlit("list_projects");
    reveal_strlit("list_submodules_by_module");
    reveal_strlit("list_tasks_by_project");
    reveal_strlit("list_todos_by_project");
    reveal_strlit("list_user_stories_by_project");
    reveal_strlit("list_workflows_by_project");
    reveal_strlit("update_");
    reveal_strlit("update_context");
    reveal_strlit("update_epic");
    reveal_strlit("update_file");
    reveal_strlit("update_module");
    reveal_strlit("update_persona");
    reveal_strlit("update_project");
    reveal_strlit("update_submodule");
    reveal_strlit("update_task");
    reveal_strlit("update_todo");
    reveal_strlit("update_user_story");
    reveal_strlit("update_workflow");
    assert(named_rows(50)) by {
        reveal_with_fuel(named_rows, 1);
    }
    assert(named_rows(45)) by {
        reveal_with_fuel(named_rows, 6);
        reveal_with_fuel(agree, 20);
    }
    assert(named_rows(40)) by {
        reveal_with_fuel(named_rows, 6);
        reveal_with_fuel(agree, 20);
    }
    assert(named_rows(35)) by {
        reveal_with_fuel(named_rows, 6);
        reveal_with_fuel(agree, 20);
    }
    assert(named_rows(30)) by {
        reveal_with_fuel(named_rows, 6);
        reveal_with_fuel(agree, 20);
    }
    assert(named_rows(25)) by {
        reveal_with_fuel(named_rows, 6);
        reveal_with_fuel(agree, 20);
    }
    assert(named_rows(20)) by {
        reveal_with_fuel(named_rows, 6);
        reveal_with_fuel(agree, 20);
    }
    assert(named_rows(15)) by {
        reveal_with_fuel(named_rows, 6);
        reveal_with_fuel(agree, 20);
    }
    assert(named_rows(10)) by {
        reveal_with_fuel(named_rows, 6);
        reveal_with_fuel(agree, 20);
    }
    assert(named_rows(5)) by {
        reveal_with_fuel(named_rows, 6);
        reveal_with_fuel(agree, 20);
    }
    assert(named_rows(0)) by {
        reveal_with_fuel(named_rows, 6);
        reveal_with_fuel(agree, 20);
    }
    assert forall|i: int| 0 <= i < routes_spec().len() implies {
        let (m, path, h) = #[trigger] routes_spec()[i];
        &&& m == Method::Delete ==> h.len() >= 7 && h.take(7) == "delete_"@
        &&& m == Method::Patch ==> h.len() >= 7 && h.take(7) == "update_"@
        &&& m == Method::Post ==> (h.len() >= 7 && h.take(7) == "create_"@) || h == "link_nodes"@
        &&& m == Method::Get ==> (h.len() >= 5 && h.take(5) == "list_"@) || (h.len() >= 4 && h.take(4)
            == "get_"@)
        &&& path == "/api/ctx/task/:id"@ ==> h == "get_task_context"@
        &&& path == "/api/ctx/file/:id"@ ==> h == "get_file_context"@
        &&& path == "/api/ctx/epic/:id"@ ==> h == "get_epic_context"@
    } by {
        lemma_named_rows(0, i);
        let (m, path, h) = routes_spec()[i];
        if has_prefix(h, "delete_"@) {
            lemma_has_prefix(h, "delete_"@);
        }
        if has_prefix(h, "update_"@) {
            lemma_has_prefix(h, "update_"@);
        }
        if has_prefix(h, "create_"@) {
            lemma_has_prefix(h, "create_"@);
        }
        if has_prefix(h, "list_"@) {
            lemma_has_prefix(h, "list_"@);
        }
        if has_prefix(h, "get_"@) {
            lemma_has_prefix(h, "get_"@);
        }
        if same_text(h, "link_nodes"@) {
            lemma_agree(h, "link_nodes"@, 0, h.len() as int);
            assert(h =~= "link_nodes"@);
        }
        lemma_agree_self(path, 0, path.len() as int);
        if path == "/api/ctx/task/:id"@ {
            lemma_agree(h, "get_task_context"@, 0, h.len() as int);
            assert(h =~= "get_task_context"@);
        }
        if path == "/api/ctx/file/:id"@ {
            lemma_agree(h, "get_file_context"@, 0, h.len() as int);
            assert(h =~= "get_file_context"@);
        }
        if path == "/api/ctx/epic/:id"@ {
            lemma_agree(h, "get_epic_context"@, 0, h.len() as int);
            assert(h =~= "get_epic_context"@);
        }
    }
}

} // verus!
