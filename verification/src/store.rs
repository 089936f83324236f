//! Reading what the store returns: record ids as text, the records of a
//! graph query, and the query that finds a project by name.

use vstd::prelude::*;
use crate::graph::rec_members;
use crate::json::{Json, JsonView, member, values_view, lemma_array_view, lemma_object_view};
use crate::json::{member_of, member_text, members_view};
use crate::graph::tables_view;
use crate::hierarchy::{opt_json_view, HierarchyView, Linked, StructuralHierarchy};
use crate::records::{in_table, has_table_prefix, strings_view, RecordIdError};
use crate::text::{concat, owned, str_eq};
use crate::runner::{Arg, ArgView, arg_views};

verus! {

/// `s` without the prefix `p`, where it has it.
pub open spec fn strip_prefix(s: Seq<char>, p: Seq<char>) -> Option<Seq<char>> {
    if p.len() <= s.len() && s.take(p.len() as int) == p {
        Some(s.skip(p.len() as int))
    } else {
        None
    }
}

/// `s` without the suffix `p`, where it has it.
pub open spec fn strip_suffix(s: Seq<char>, p: Seq<char>) -> Option<Seq<char>> {
    if p.len() <= s.len() && s.skip(s.len() - p.len()) == p {
        Some(s.take(s.len() - p.len()))
    } else {
        None
    }
}

/// The key of a record id as text, from its `Debug` form: a string key is
/// written `String("...")`, and is taken from between the quotes; any other
/// key is kept in its `Debug` form.
pub open spec fn key_text(key_debug: Seq<char>) -> Seq<char> {
    match strip_prefix(key_debug, "String(\""@) {
        Some(rest) => match strip_suffix(rest, "\")"@) {
            Some(inner) => inner,
            None => key_debug,
        },
        None => key_debug,
    }
}

fn strip_prefix_exec<'a>(s: &'a str, p: &str) -> (r: Option<&'a str>)
    ensures
        match strip_prefix(s@, p@) {
            Some(x) => r matches Some(y) && y@ == x,
            None => r is None,
        },
{
    let n = s.unicode_len();
    let m = p.unicode_len();
    if m > n {
        return None;
    }
    let head = s.substring_char(0, m);
    assert(head@ =~= s@.take(m as int));
    if str_eq(head, p) {
        let rest = s.substring_char(m, n);
        assert(rest@ =~= s@.skip(m as int));
        Some(rest)
    } else {
        None
    }
}

fn strip_suffix_exec<'a>(s: &'a str, p: &str) -> (r: Option<&'a str>)
    ensures
        match strip_suffix(s@, p@) {
            Some(x) => r matches Some(y) && y@ == x,
            None => r is None,
        },
{
    let n = s.unicode_len();
    let m = p.unicode_len();
    if m > n {
        return None;
    }
    let tail = s.substring_char(n - m, n);
    assert(tail@ =~= s@.skip(n - m));
    if str_eq(tail, p) {
        let rest = s.substring_char(0, n - m);
        assert(rest@ =~= s@.take(n - m));
        Some(rest)
    } else {
        None
    }
}

/// A record id as text, `table:key`, from its table and the `Debug` form of its key.
pub fn record_id_text(table: &str, key_debug: &str) -> (r: String)
    ensures
        r@ == table@ + ":"@ + key_text(key_debug@),
{
    let key = match strip_prefix_exec(key_debug, "String(\"") {
        Some(rest) => match strip_suffix_exec(rest, "\")") {
            Some(inner) => inner,
            None => key_debug,
        },
        None => key_debug,
    };
    let mut r = concat(table, ":");
    r.append(key);
    r
}

/// The records that a graph query row holds under `field`: the elements of
/// the array, with the elements of nested arrays taken in their place.
pub open spec fn graph_items_spec(row: Option<JsonView>, field: Seq<char>) -> Seq<JsonView> {
    match row {
        None => Seq::empty(),
        Some(r) => match member(rec_members(r), field) {
            Some(JsonView::Array(outer)) => flatten_nested(outer),
            _ => Seq::empty(),
        },
    }
}

/// The elements of `s`, with the elements of nested arrays taken in their place.
pub open spec fn flatten_nested(s: Seq<JsonView>) -> Seq<JsonView>
    decreases s.len(),
{
    if s.len() == 0 {
        Seq::empty()
    } else {
        flatten_nested(s.drop_last()) + match s.last() {
            JsonView::Array(inner) => inner,
            other => seq![other],
        }
    }
}

fn take_member(v: Json, key: &str) -> (r: Option<Json>)
    ensures
        match r {
            Some(x) => member(rec_members(v@), key@) == Some(x@),
            None => member(rec_members(v@), key@) is None,
        },
{
    let ghost whole = v@;
    match v {
        Json::Object(m) => {
            proof {
                lemma_object_view(m);
            }
            let ghost all = crate::json::members_view(m@);
            assert(rec_members(whole) == all);
            let mut rest = m;
            let total: usize = rest.len();
            let mut k: usize = 0;
            assert(all.skip(0) =~= all);
            while rest.len() > 0
                invariant
                    k + rest@.len() == all.len(),
                    all.len() == total,
                    crate::json::members_view(rest@) =~= all.skip(k as int),
                    rec_members(whole) == all,
                    whole == v@,
                    member(all, key@) == member(all.skip(k as int), key@),
                decreases rest@.len(),
            {
                let ghost rs = rest@;
                let (name, val) = rest.remove(0);
                proof {
                    assert(crate::json::members_view(rs)[0] == all.skip(k as int)[0]);
                    assert forall|i: int| 0 <= i < rest@.len() implies crate::json::members_view(rest@)[i]
                        == all.skip(k + 1)[i] by {
                        assert(rest@[i] == rs[i + 1]);
                        assert(crate::json::members_view(rs)[i + 1] == all.skip(k as int)[i + 1]);
                    }
                    assert(all.skip(k as int).drop_first() =~= all.skip(k + 1));
                }
                if str_eq(name.as_str(), key) {
                    assert(all.skip(k as int)[0] == (name@, val@));
                    return Some(val);
                }
                k = k + 1;
            }
            None
        },
        _ => None,
    }
}

/// The records that a graph query row holds under `field`.
pub fn graph_items(row: Option<Json>, field: &str) -> (r: Vec<Json>)
    ensures
        values_view(r@) == graph_items_spec(
            match row {
                Some(j) => Some(j@),
                None => None,
            },
            field@,
        ),
{
    let mut out: Vec<Json> = Vec::new();
    assert(values_view(out@) =~= Seq::<JsonView>::empty());
    let r = match row {
        None => {
            return out;
        },
        Some(r) => r,
    };
    match take_member(r, field) {
        Some(Json::Array(outer)) => {
            proof {
                lemma_array_view(outer);
            }
            let ghost all = values_view(outer@);
            let mut rest = outer;
            let total: usize = rest.len();
            let mut k: usize = 0;
            assert(all.take(0) =~= Seq::<JsonView>::empty());
            while rest.len() > 0
                invariant
                    k + rest@.len() == all.len(),
                    all.len() == total,
                    values_view(rest@) =~= all.skip(k as int),
                    values_view(out@) == flatten_nested(all.take(k as int)),
                decreases rest@.len(),
            {
                let ghost rs = rest@;
                let item = rest.remove(0);
                proof {
                    assert(values_view(rs)[0] == all.skip(k as int)[0]);
                    assert forall|i: int| 0 <= i < rest@.len() implies values_view(rest@)[i] == all.skip(k + 1)[i] by {
                        assert(rest@[i] == rs[i + 1]);
                        assert(values_view(rs)[i + 1] == all.skip(k as int)[i + 1]);
                    }
                    assert(all.take(k + 1).drop_last() =~= all.take(k as int));
                    assert(all.take(k + 1).last() == all[k as int]);
                }
                let ghost before = values_view(out@);
                match item {
                    Json::Array(inner) => {
                        proof {
                            lemma_array_view(inner);
                        }
                        let ghost iv = values_view(inner@);
                        let mut inner = inner;
                        out.append(&mut inner);
                        assert(values_view(out@) =~= before + iv);
                    },
                    other => {
                        let ghost ov = other@;
                        out.push(other);
                        assert(values_view(out@) =~= before.push(ov));
                    },
                }
                assert(values_view(out@) =~= flatten_nested(all.take(k + 1)));
                k = k + 1;
            }
            assert(all.take(k as int) =~= all);
            out
        },
        _ => out,
    }
}

/// The query that finds a project by name: exactly, or ignoring case.
pub open spec fn project_by_name_sql(ignore_case: bool) -> Seq<char> {
    if ignore_case {
        "SELECT * FROM project WHERE string::lowercase(name) == string::lowercase($name) LIMIT 1"@
    } else {
        "SELECT * FROM project WHERE name == $name LIMIT 1"@
    }
}

/// The query that finds a project by name (bound as `name`).
pub fn project_by_name_query(ignore_case: bool) -> (r: &'static str)
    ensures
        r@ == project_by_name_sql(ignore_case),
{
    if ignore_case {
        "SELECT * FROM project WHERE string::lowercase(name) == string::lowercase($name) LIMIT 1"
    } else {
        "SELECT * FROM project WHERE name == $name LIMIT 1"
    }
}


// ---------------------------------------------------------------------------
// Relations made when a record is created or linked
// ---------------------------------------------------------------------------

/// Relations as character sequences: from, edge, to.
pub open spec fn rels_view(v: Seq<(String, String, String)>) -> Seq<(Seq<char>, Seq<char>, Seq<char>)> {
    v.map_values(|r: (String, String, String)| (r.0@, r.1@, r.2@))
}

/// The relation from the owning project to a new record, and, where `back`,
/// the relation from the record back to the project.
pub open spec fn owner_rels(
    project: Option<Seq<char>>,
    edge: Seq<char>,
    created: Seq<char>,
    back: bool,
) -> Seq<(Seq<char>, Seq<char>, Seq<char>)> {
    match project {
        None => Seq::empty(),
        Some(p) => if back {
            seq![(p, edge, created), (created, "belongs_to_project"@, p)]
        } else {
            seq![(p, edge, created)]
        },
    }
}

/// A check that `id` names a record of `table`, as an error where it does not.
pub open spec fn must_be(table: Seq<char>, id: Option<Seq<char>>) -> Option<(Seq<Seq<char>>, Seq<char>)> {
    match id {
        Some(x) => if in_table(table, x) {
            None
        } else {
            Some((seq![table], x))
        },
        None => None,
    }
}

/// The relations that a creation makes for the new record `created`, with
/// its project and its parent (a module's parent module, a submodule's
/// module, a file's module or submodule, a task's module, an issue's task).
/// A module's or todo item's project must be a project, a submodule's
/// parent a module, and a file's parent a module or a submodule; otherwise
/// the creation is refused with the expected tables.
pub open spec fn creation_links_spec(
    method: Seq<char>,
    created: Seq<char>,
    project: Option<Seq<char>>,
    parent: Option<Seq<char>>,
) -> Result<Seq<(Seq<char>, Seq<char>, Seq<char>)>, (Seq<Seq<char>>, Seq<char>)> {
    if method == "create_module"@ {
        match must_be("project"@, project) {
            Some(e) => Err(e),
            None => Ok(
                owner_rels(project, "contains"@, created, true) + match parent {
                    Some(m) => seq![(m, "contains"@, created)],
                    None => Seq::empty(),
                },
            ),
        }
    } else if method == "create_submodule"@ {
        match must_be("module"@, parent) {
            Some(e) => Err(e),
            None => Ok(
                match parent {
                    Some(m) => seq![(m, "contains"@, created), (created, "belongs_to_module"@, m)],
                    None => Seq::empty(),
                },
            ),
        }
    } else if method == "create_file"@ {
        let base = owner_rels(project, "contains"@, created, true);
        match parent {
            None => Ok(base),
            Some(x) => if in_table("module"@, x) {
                Ok(base + seq![(x, "contains"@, created), (created, "belongs_to_module"@, x)])
            } else if in_table("submodule"@, x) {
                Ok(base + seq![(x, "contains"@, created), (created, "belongs_to_submodule"@, x)])
            } else {
                Err((seq!["module"@, "submodule"@], x))
            },
        }
    } else if method == "create_subtask"@ {
        Ok(
            match parent {
                Some(t) => seq![(t, "has_subtask"@, created), (created, "belongs_to_task"@, t)],
                None => Seq::empty(),
            },
        )
    } else if method == "create_task"@ {
        Ok(
            owner_rels(project, "has_task"@, created, true) + match parent {
                Some(m) => seq![(created, "belongs_to_module"@, m)],
                None => Seq::empty(),
            },
        )
    } else if method == "create_user_story"@ {
        Ok(owner_rels(project, "has_user_story"@, created, true))
    } else if method == "create_epic"@ {
        Ok(owner_rels(project, "has_epic"@, created, true))
    } else if method == "create_persona"@ {
        Ok(owner_rels(project, "has_persona"@, created, false))
    } else if method == "create_workflow"@ {
        Ok(owner_rels(project, "has_workflow"@, created, false))
    } else if method == "create_todo"@ {
        match must_be("project"@, project) {
            Some(e) => Err(e),
            None => Ok(owner_rels(project, "has_todo"@, created, false)),
        }
    } else if method == "create_issue"@ {
        Ok(
            owner_rels(project, "has_issue"@, created, false) + match parent {
                Some(t) => seq![(t, "has_issue"@, created)],
                None => Seq::empty(),
            },
        )
    } else {
        Ok(Seq::empty())
    }
}

fn rel(from: &str, edge: &str, to: &str) -> (r: (String, String, String))
    ensures
        r.0@ == from@,
        r.1@ == edge@,
        r.2@ == to@,
{
    (owned(from), owned(edge), owned(to))
}

fn owner_rels_exec(project: Option<&str>, edge: &str, created: &str, back: bool) -> (r: Vec<(String, String, String)>)
    ensures
        rels_view(r@) == owner_rels(opt_str(project), edge@, created@, back),
{
    match project {
        None => {
            let v: Vec<(String, String, String)> = Vec::new();
            assert(rels_view(v@) =~= Seq::<(Seq<char>, Seq<char>, Seq<char>)>::empty());
            v
        },
        Some(p) => {
            let mut v = vec![rel(p, edge, created)];
            if back {
                v.push(rel(created, "belongs_to_project", p));
            }
            assert(rels_view(v@) =~= owner_rels(Some(p@), edge@, created@, back));
            v
        },
    }
}

/// An optional string slice as a character sequence.
pub open spec fn opt_str(o: Option<&str>) -> Option<Seq<char>> {
    match o {
        Some(p) => Some(p@),
        None => None,
    }
}

fn check_table(table: &str, id: Option<&str>) -> (r: Result<(), RecordIdError>)
    ensures
        match must_be(table@, opt_str(id)) {
            None => r is Ok,
            Some((tables, x)) => r matches Err(e) && strings_view(e.tables@) == tables && e.id@ == x,
        },
{
    match id {
        None => Ok(()),
        Some(x) => {
            if has_table_prefix(table, x) {
                Ok(())
            } else {
                let tables = vec![owned(table)];
                assert(strings_view(tables@) =~= seq![table@]);
                Err(RecordIdError { tables, id: owned(x) })
            }
        },
    }
}

/// The relations that creating a record with `method` makes for the new
/// record `created`: from its project and its parent, and back to them.
pub fn creation_links(method: &str, created: &str, project: Option<&str>, parent: Option<&str>) -> (r: Result<
    Vec<(String, String, String)>,
    RecordIdError,
>)
    ensures
        match creation_links_spec(method@, created@, opt_str(project), opt_str(parent)) {
            Ok(rs) => r matches Ok(v) && rels_view(v@) == rs,
            Err((tables, id)) => r matches Err(e) && strings_view(e.tables@) == tables && e.id@ == id,
        },
{
    if str_eq(method, "create_module") {
        match check_table("project", project) {
            Err(e) => Err(e),
            Ok(()) => {
                let mut v = owner_rels_exec(project, "contains", created, true);
                let ghost base = rels_view(v@);
                if let Some(m) = parent {
                    v.push(rel(m, "contains", created));
                    assert(rels_view(v@) =~= base + seq![(m@, "contains"@, created@)]);
                } else {
                    assert(rels_view(v@) =~= base + Seq::<(Seq<char>, Seq<char>, Seq<char>)>::empty());
                }
                Ok(v)
            },
        }
    } else if str_eq(method, "create_submodule") {
        match check_table("module", parent) {
            Err(e) => Err(e),
            Ok(()) => match parent {
                Some(m) => {
                    let v = vec![rel(m, "contains", created), rel(created, "belongs_to_module", m)];
                    assert(rels_view(v@) =~= seq![(m@, "contains"@, created@), (created@, "belongs_to_module"@, m@)]);
                    Ok(v)
                },
                None => {
                    let v: Vec<(String, String, String)> = Vec::new();
                    assert(rels_view(v@) =~= Seq::<(Seq<char>, Seq<char>, Seq<char>)>::empty());
                    Ok(v)
                },
            },
        }
    } else if str_eq(method, "create_file") {
        let mut v = owner_rels_exec(project, "contains", created, true);
        let ghost base = rels_view(v@);
        match parent {
            None => Ok(v),
            Some(x) => {
                if has_table_prefix("module", x) {
                    v.push(rel(x, "contains", created));
                    v.push(rel(created, "belongs_to_module", x));
                    assert(rels_view(v@) =~= base + seq![(x@, "contains"@, created@), (created@, "belongs_to_module"@, x@)]);
                    Ok(v)
                } else if has_table_prefix("submodule", x) {
                    v.push(rel(x, "contains", created));
                    v.push(rel(created, "belongs_to_submodule", x));
                    assert(rels_view(v@) =~= base + seq![(x@, "contains"@, created@), (created@, "belongs_to_submodule"@, x@)]);
                    Ok(v)
                } else {
                    let tables = vec![owned("module"), owned("submodule")];
                    assert(strings_view(tables@) =~= seq!["module"@, "submodule"@]);
                    Err(RecordIdError { tables, id: owned(x) })
                }
            },
        }
    } else if str_eq(method, "create_subtask") {
        match parent {
            Some(t) => {
                let v = vec![rel(t, "has_subtask", created), rel(created, "belongs_to_task", t)];
                assert(rels_view(v@) =~= seq![(t@, "has_subtask"@, created@), (created@, "belongs_to_task"@, t@)]);
                Ok(v)
            },
            None => {
                let v: Vec<(String, String, String)> = Vec::new();
                assert(rels_view(v@) =~= Seq::<(Seq<char>, Seq<char>, Seq<char>)>::empty());
                Ok(v)
            },
        }
    } else if str_eq(method, "create_task") {
        let mut v = owner_rels_exec(project, "has_task", created, true);
        let ghost base = rels_view(v@);
        if let Some(m) = parent {
            v.push(rel(created, "belongs_to_module", m));
            assert(rels_view(v@) =~= base + seq![(created@, "belongs_to_module"@, m@)]);
        } else {
            assert(rels_view(v@) =~= base + Seq::<(Seq<char>, Seq<char>, Seq<char>)>::empty());
        }
        Ok(v)
    } else if str_eq(method, "create_user_story") {
        Ok(owner_rels_exec(project, "has_user_story", created, true))
    } else if str_eq(method, "create_epic") {
        Ok(owner_rels_exec(project, "has_epic", created, true))
    } else if str_eq(method, "create_persona") {
        Ok(owner_rels_exec(project, "has_persona", created, false))
    } else if str_eq(method, "create_workflow") {
        Ok(owner_rels_exec(project, "has_workflow", created, false))
    } else if str_eq(method, "create_todo") {
        match check_table("project", project) {
            Err(e) => Err(e),
            Ok(()) => Ok(owner_rels_exec(project, "has_todo", created, false)),
        }
    } else if str_eq(method, "create_issue") {
        let mut v = owner_rels_exec(project, "has_issue", created, false);
        let ghost base = rels_view(v@);
        if let Some(t) = parent {
            v.push(rel(t, "has_issue", created));
            assert(rels_view(v@) =~= base + seq![(t@, "has_issue"@, created@)]);
        } else {
            assert(rels_view(v@) =~= base + Seq::<(Seq<char>, Seq<char>, Seq<char>)>::empty());
        }
        Ok(v)
    } else {
        let v: Vec<(String, String, String)> = Vec::new();
        assert(rels_view(v@) =~= Seq::<(Seq<char>, Seq<char>, Seq<char>)>::empty());
        Ok(v)
    }
}

/// The graph query that finds what lies above a new record's parent, where
/// the new record inherits it: the project of a submodule's module or of a
/// file's module, or the module and project of a file's submodule (the
/// parent bound as `id`). Only where no project was given.
pub open spec fn parent_lookup_spec(method: Seq<char>, project: Option<Seq<char>>, parent: Option<Seq<char>>) -> Option<
    Seq<char>,
> {
    match (project, parent) {
        (None, Some(x)) => if method == "create_submodule"@ || (method == "create_file"@ && in_table("module"@, x)) {
            Some("SELECT ->belongs_to_project->project.id AS pid FROM ONLY type::record($id)"@)
        } else if method == "create_file"@ && in_table("submodule"@, x) {
            Some(
                "SELECT ->belongs_to_module->module.id AS mid, ->belongs_to_project->project.id AS pid FROM ONLY type::record($id)"@,
            )
        } else {
            None
        },
        _ => None,
    }
}

/// The graph query that finds what lies above a new record's parent.
pub fn parent_lookup(method: &str, project: Option<&str>, parent: Option<&str>) -> (r: Option<&'static str>)
    ensures
        match parent_lookup_spec(method@, opt_str(project), opt_str(parent)) {
            Some(q) => r matches Some(x) && x@ == q,
            None => r is None,
        },
{
    match (project, parent) {
        (None, Some(x)) => {
            let sub = str_eq(method, "create_submodule");
            let file = str_eq(method, "create_file");
            if sub || (file && has_table_prefix("module", x)) {
                Some("SELECT ->belongs_to_project->project.id AS pid FROM ONLY type::record($id)")
            } else if file && has_table_prefix("submodule", x) {
                Some(
                    "SELECT ->belongs_to_module->module.id AS mid, ->belongs_to_project->project.id AS pid FROM ONLY type::record($id)",
                )
            } else {
                None
            }
        },
        _ => None,
    }
}

/// The text of the first element of the array that a row holds under `alias`.
pub open spec fn first_text_spec(row: Option<JsonView>, alias: Seq<char>) -> Option<Seq<char>> {
    match row {
        None => None,
        Some(r) => match member(rec_members(r), alias) {
            Some(JsonView::Array(items)) => if items.len() > 0 {
                match items[0] {
                    JsonView::Str(t) => Some(t),
                    _ => None,
                }
            } else {
                None
            },
            _ => None,
        },
    }
}

/// The text of the first element of the array that a row holds under `alias`.
pub fn first_text(row: &Option<Json>, alias: &str) -> (r: Option<String>)
    ensures
        crate::cli::opt_string_view(r) == first_text_spec(
            match row {
                Some(j) => Some(j@),
                None => None,
            },
            alias@,
        ),
{
    match row {
        Some(Json::Object(m)) => {
            proof {
                lemma_object_view(*m);
            }
            match member_of(m, alias) {
                Some(Json::Array(items)) => {
                    proof {
                        lemma_array_view(*items);
                    }
                    if items.len() > 0 {
                        match &items[0] {
                            Json::Str(t) => Some(t.clone()),
                            _ => None,
                        }
                    } else {
                        None
                    }
                },
                _ => None,
            }
        },
        _ => None,
    }
}

/// The relations that a new record inherits from above its parent, from
/// the row of the parent's lookup: the project (`pid`) of a submodule's
/// module or of a file's module, and the module (`mid`) and project of a
/// file's submodule.
pub open spec fn inherited_links_spec(method: Seq<char>, created: Seq<char>, parent: Seq<char>, row: Option<JsonView>) -> Seq<
    (Seq<char>, Seq<char>, Seq<char>),
> {
    let pid = match first_text_spec(row, "pid"@) {
        Some(p) => seq![(created, "belongs_to_project"@, p)],
        None => Seq::empty(),
    };
    let mid = match first_text_spec(row, "mid"@) {
        Some(m) => seq![(created, "belongs_to_module"@, m)],
        None => Seq::empty(),
    };
    if method == "create_submodule"@ || (method == "create_file"@ && in_table("module"@, parent)) {
        pid
    } else if method == "create_file"@ && in_table("submodule"@, parent) {
        mid + pid
    } else {
        Seq::empty()
    }
}

/// The relations that a new record inherits from above its parent.
pub fn inherited_links(method: &str, created: &str, parent: &str, row: Option<Json>) -> (r: Vec<(String, String, String)>)
    ensures
        rels_view(r@) == inherited_links_spec(
            method@,
            created@,
            parent@,
            match row {
                Some(j) => Some(j@),
                None => None,
            },
        ),
{
    let ghost rv: Option<JsonView> = opt_json_view(row);
    let p = first_text(&row, "pid");
    let m = first_text(&row, "mid");
    let mut pid: Vec<(String, String, String)> = Vec::new();
    if let Some(x) = &p {
        pid.push(rel(created, "belongs_to_project", x.as_str()));
    }
    assert(rels_view(pid@) =~= match first_text_spec(rv, "pid"@) {
        Some(x) => seq![(created@, "belongs_to_project"@, x)],
        None => Seq::empty(),
    });
    let sub = str_eq(method, "create_submodule");
    let file = str_eq(method, "create_file");
    if sub || (file && has_table_prefix("module", parent)) {
        pid
    } else if file && has_table_prefix("submodule", parent) {
        let mut v: Vec<(String, String, String)> = Vec::new();
        if let Some(x) = &m {
            v.push(rel(created, "belongs_to_module", x.as_str()));
        }
        let ghost mv = rels_view(v@);
        assert(mv =~= match first_text_spec(rv, "mid"@) {
            Some(x) => seq![(created@, "belongs_to_module"@, x)],
            None => Seq::empty(),
        });
        let mut pid = pid;
        v.append(&mut pid);
        assert(rels_view(v@) =~= mv + match first_text_spec(rv, "pid"@) {
            Some(x) => seq![(created@, "belongs_to_project"@, x)],
            None => Seq::empty(),
        });
        v
    } else {
        let v: Vec<(String, String, String)> = Vec::new();
        assert(rels_view(v@) =~= Seq::<(Seq<char>, Seq<char>, Seq<char>)>::empty());
        v
    }
}

/// The relations that linking `a` to `b` with `method` makes: the edge from
/// `b` down to `a` and the edge from `a` back up to `b`; a plain `link`
/// makes the one edge it names.
pub open spec fn pair_links_spec(method: Seq<char>, a: Seq<char>, b: Seq<char>) -> Seq<
    (Seq<char>, Seq<char>, Seq<char>),
> {
    if method == "link_task_to_user_story"@ {
        seq![(b, "has_task"@, a), (a, "belongs_to_story"@, b)]
    } else if method == "link_task_to_epic"@ {
        seq![(b, "has_task"@, a), (a, "belongs_to_epic"@, b)]
    } else if method == "link_user_story_to_epic"@ {
        seq![(b, "has_user_story"@, a), (a, "belongs_to_epic"@, b)]
    } else {
        Seq::empty()
    }
}

/// The relations that linking `a` to `b` with `method` makes.
pub fn pair_links(method: &str, a: &str, b: &str) -> (r: Vec<(String, String, String)>)
    ensures
        rels_view(r@) == pair_links_spec(method@, a@, b@),
{
    let v = if str_eq(method, "link_task_to_user_story") {
        vec![rel(b, "has_task", a), rel(a, "belongs_to_story", b)]
    } else if str_eq(method, "link_task_to_epic") {
        vec![rel(b, "has_task", a), rel(a, "belongs_to_epic", b)]
    } else if str_eq(method, "link_user_story_to_epic") {
        vec![rel(b, "has_user_story", a), rel(a, "belongs_to_epic", b)]
    } else {
        Vec::new()
    };
    assert(rels_view(v@) =~= pair_links_spec(method@, a@, b@));
    v
}

/// The table that a creation writes its record to.
pub open spec fn created_table_spec(method: Seq<char>) -> Option<Seq<char>> {
    if method == "create_project"@ {
        Some("project"@)
    } else if method == "create_module"@ {
        Some("module"@)
    } else if method == "create_submodule"@ {
        Some("submodule"@)
    } else if method == "create_subtask"@ {
        Some("subtask"@)
    } else if method == "create_file"@ {
        Some("file"@)
    } else if method == "create_task"@ {
        Some("task"@)
    } else if method == "create_user_story"@ {
        Some("user_story"@)
    } else if method == "create_epic"@ {
        Some("epic"@)
    } else if method == "create_persona"@ {
        Some("persona"@)
    } else if method == "create_workflow"@ {
        Some("workflow"@)
    } else if method == "create_todo"@ {
        Some("todo_item"@)
    } else if method == "create_issue"@ {
        Some("issue"@)
    } else {
        None
    }
}

/// The table that a creation writes its record to; none for another operation.
pub fn created_table(method: &str) -> (r: Option<&'static str>)
    ensures
        match created_table_spec(method@) {
            Some(t) => r matches Some(x) && x@ == t,
            None => r is None,
        },
{
    if str_eq(method, "create_project") {
        Some("project")
    } else if str_eq(method, "create_module") {
        Some("module")
    } else if str_eq(method, "create_submodule") {
        Some("submodule")
    } else if str_eq(method, "create_subtask") {
        Some("subtask")
    } else if str_eq(method, "create_file") {
        Some("file")
    } else if str_eq(method, "create_task") {
        Some("task")
    } else if str_eq(method, "create_user_story") {
        Some("user_story")
    } else if str_eq(method, "create_epic") {
        Some("epic")
    } else if str_eq(method, "create_persona") {
        Some("persona")
    } else if str_eq(method, "create_workflow") {
        Some("workflow")
    } else if str_eq(method, "create_todo") {
        Some("todo_item")
    } else if str_eq(method, "create_issue") {
        Some("issue")
    } else {
        None
    }
}

// ---------------------------------------------------------------------------
// Statements
// ---------------------------------------------------------------------------

/// The tables whose records a purge deletes.
pub open spec fn purge_tables_spec() -> Seq<Seq<char>> {
    seq![
        "project"@,
        "module"@,
        "submodule"@,
        "file"@,
        "task"@,
        "subtask"@,
        "todo_item"@,
        "context"@,
        "user_story"@,
        "epic"@,
        "persona"@,
        "workflow"@,
        "issue"@,
    ]
}

/// The tables whose records a purge deletes.
pub fn purge_tables() -> (r: Vec<&'static str>)
    ensures
        r@.map_values(|t: &'static str| t@) == purge_tables_spec(),
{
    let r = vec![
        "project",
        "module",
        "submodule",
        "file",
        "task",
        "subtask",
        "todo_item",
        "context",
        "user_story",
        "epic",
        "persona",
        "workflow",
        "issue",
    ];
    assert(r@.map_values(|t: &'static str| t@) =~= purge_tables_spec());
    r
}

/// The statement that deletes every record of `table`.
pub fn delete_statement(table: &str) -> (r: String)
    ensures
        r@ == "DELETE "@ + table@,
{
    concat("DELETE ", table)
}

/// The statement that relates the record bound as `from` to the record
/// bound as `to` through `edge`.
pub fn relate_statement(edge: &str) -> (r: String)
    ensures
        r@ == "LET $f = type::record($from); LET $t = type::record($to); RELATE $f->"@ + edge@ + "->$t;"@,
{
    let mut r = concat("LET $f = type::record($from); LET $t = type::record($to); RELATE $f->", edge);
    r.append("->$t;");
    r
}

/// The graph query for the knowledge entries of a record (bound as `id`).
pub open spec fn contexts_sql() -> Seq<char> {
    "SELECT ->has_context->context.* AS context FROM ONLY type::record($id)"@
}

/// The graph query for the knowledge entries of a record (bound as `id`).
pub fn contexts_query() -> (r: &'static str)
    ensures
        r@ == contexts_sql(),
{
    "SELECT ->has_context->context.* AS context FROM ONLY type::record($id)"
}

// ---------------------------------------------------------------------------
// Rules of the store
// ---------------------------------------------------------------------------

/// Why the store refused an operation.
#[derive(Debug)]
pub enum StoreError {
    /// A project with this name exists already, with this id.
    DuplicateProject { name: String, id: String },
    /// Knowledge of a table that no task edge leads to.
    UnknownKnowledgeTable { table: String },
    /// The record whose context is asked for does not exist.
    NotFound { kind: &'static str, id: String },
}

/// The text of a store error.
pub open spec fn store_message(e: StoreError) -> Seq<char> {
    match e {
        StoreError::DuplicateProject { name, id } => "Project with name '"@ + name@ + "' already exists (id: "@
            + id@ + ")"@,
        StoreError::UnknownKnowledgeTable { table } => "get_linked_knowledge: unknown table "@ + table@,
        StoreError::NotFound { kind, id } => kind@ + " not found: "@ + id@,
    }
}

impl StoreError {
    /// The text of the error.
    pub fn message(&self) -> (r: String)
        ensures
            r@ == store_message(*self),
    {
        match self {
            StoreError::DuplicateProject { name, id } => {
                let mut s = concat("Project with name '", name.as_str());
                s.append("' already exists (id: ");
                s.append(id.as_str());
                s.append(")");
                s
            },
            StoreError::UnknownKnowledgeTable { table } => concat(
                "get_linked_knowledge: unknown table ",
                table.as_str(),
            ),
            StoreError::NotFound { kind, id } => {
                let mut s = concat(kind, " not found: ");
                s.append(id.as_str());
                s
            },
        }
    }
}

/// The id of an existing record as the duplicate-name error gives it.
pub open spec fn existing_id(rec: JsonView) -> Seq<char> {
    match member_text(rec_members(rec), "id"@) {
        Some(id) => id,
        None => "unknown"@,
    }
}

/// A new project may be created only where no project has its name: the
/// record found by that name, if any, refuses it.
pub fn check_new_project(name: &str, existing: Option<&Json>) -> (r: Result<(), StoreError>)
    ensures
        match existing {
            None => r is Ok,
            Some(e) => r matches Err(StoreError::DuplicateProject { name: n, id }) && n@ == name@ && id@
                == existing_id(e@),
        },
{
    match existing {
        None => Ok(()),
        Some(e) => {
            let id = match e {
                Json::Object(m) => {
                    proof {
                        lemma_object_view(*m);
                    }
                    match crate::json::member_text_of(m, "id") {
                        Some(id) => id,
                        None => owned("unknown"),
                    }
                },
                _ => owned("unknown"),
            };
            Err(StoreError::DuplicateProject { name: owned(name), id })
        },
    }
}

/// The edge from a task to its knowledge of `table`.
pub open spec fn knowledge_edge(table: Seq<char>) -> Option<Seq<char>> {
    if table == "mistake"@ {
        Some("has_mistake"@)
    } else if table == "style_rule"@ {
        Some("has_style"@)
    } else if table == "security_detail"@ {
        Some("has_security_detail"@)
    } else {
        None
    }
}

/// The graph query for a task's knowledge of `table` (the task's key bound
/// as `key`); an error for a table that no task edge leads to.
pub fn linked_knowledge_query(table: &str) -> (r: Result<String, StoreError>)
    ensures
        match knowledge_edge(table@) {
            Some(edge) => r matches Ok(q) && q@ == "SELECT ->"@ + edge + "->"@ + table@
                + ".* AS items FROM ONLY type::record('task', $key)"@,
            None => r matches Err(StoreError::UnknownKnowledgeTable { table: t }) && t@ == table@,
        },
{
    let edge = if str_eq(table, "mistake") {
        "has_mistake"
    } else if str_eq(table, "style_rule") {
        "has_style"
    } else if str_eq(table, "security_detail") {
        "has_security_detail"
    } else {
        return Err(StoreError::UnknownKnowledgeTable { table: owned(table) });
    };
    let mut q = concat("SELECT ->", edge);
    q.append("->");
    q.append(table);
    q.append(".* AS items FROM ONLY type::record('task', $key)");
    Ok(q)
}

/// The members that an update changes: each field that was given, in order,
/// with its text.
pub open spec fn patch_spec(fields: Seq<(Seq<char>, Option<Seq<char>>)>) -> Seq<(Seq<char>, JsonView)>
    decreases fields.len(),
{
    if fields.len() == 0 {
        Seq::empty()
    } else {
        patch_spec(fields.drop_last()) + match fields.last().1 {
            Some(v) => seq![(fields.last().0, JsonView::Str(v))],
            None => Seq::empty(),
        }
    }
}

/// The fields of an update as character sequences.
pub open spec fn fields_view(v: Seq<(&'static str, Option<String>)>) -> Seq<(Seq<char>, Option<Seq<char>>)> {
    v.map_values(|f: (&'static str, Option<String>)| (f.0@, crate::cli::opt_string_view(f.1)))
}

/// The members that an update changes: each field that was given.
pub fn patch_members(fields: Vec<(&'static str, Option<String>)>) -> (r: Vec<(String, Json)>)
    ensures
        members_view(r@) == patch_spec(fields_view(fields@)),
{
    let ghost all = fields_view(fields@);
    let mut out: Vec<(String, Json)> = Vec::new();
    let mut rest = fields;
    let total: usize = rest.len();
    let mut k: usize = 0;
    assert(all.take(0) =~= Seq::<(Seq<char>, Option<Seq<char>>)>::empty());
    assert(members_view(out@) =~= Seq::<(Seq<char>, JsonView)>::empty());
    while rest.len() > 0
        invariant
            k + rest@.len() == all.len(),
            all.len() == total,
            fields_view(rest@) =~= all.skip(k as int),
            members_view(out@) == patch_spec(all.take(k as int)),
        decreases rest@.len(),
    {
        let ghost rs = rest@;
        let (name, val) = rest.remove(0);
        proof {
            assert(fields_view(rs)[0] == all.skip(k as int)[0]);
            assert forall|i: int| 0 <= i < rest@.len() implies fields_view(rest@)[i] == all.skip(k + 1)[i] by {
                assert(rest@[i] == rs[i + 1]);
                assert(fields_view(rs)[i + 1] == all.skip(k as int)[i + 1]);
            }
            assert(all.take(k + 1).drop_last() =~= all.take(k as int));
            assert(all.take(k + 1).last() == all[k as int]);
        }
        let ghost before = members_view(out@);
        match val {
            Some(v) => {
                let ghost vv = v@;
                out.push((owned(name), Json::Str(v)));
                assert(members_view(out@) =~= before + seq![(name@, JsonView::Str(vv))]);
            },
            None => {
                assert(members_view(out@) =~= before + Seq::<(Seq<char>, JsonView)>::empty());
            },
        }
        k = k + 1;
    }
    assert(all.take(k as int) =~= all);
    out
}


// ---------------------------------------------------------------------------
// Knowledge along a hierarchy
// ---------------------------------------------------------------------------

/// The id `o` where there is one and it is not `from`.
pub open spec fn other_than(o: Option<Seq<char>>, from: Seq<char>) -> Seq<Seq<char>> {
    match o {
        Some(x) => if x == from {
            Seq::empty()
        } else {
            seq![x]
        },
        None => Seq::empty(),
    }
}

/// The records above `from` in its hierarchy, nearest first: its subtask,
/// task, submodule, module and project, each where there is one.
pub open spec fn ancestors_spec(h: HierarchyView, from: Seq<char>) -> Seq<Seq<char>> {
    other_than(h.subtask_id, from) + other_than(h.task_id, from) + other_than(h.submodule_id, from)
        + other_than(h.module_id, from) + other_than(h.project_id, from)
}

fn push_other(out: &mut Vec<String>, o: &Option<String>, from: &str)
    ensures
        strings_view(final(out)@) == strings_view(old(out)@) + other_than(crate::cli::opt_string_view(*o), from@),
{
    let ghost before = strings_view(out@);
    match o {
        Some(x) => {
            if str_eq(x.as_str(), from) {
                assert(strings_view(out@) =~= before + Seq::<Seq<char>>::empty());
            } else {
                out.push(x.clone());
                assert(strings_view(out@) =~= before + seq![x@]);
            }
        },
        None => {
            assert(strings_view(out@) =~= before + Seq::<Seq<char>>::empty());
        },
    }
}

/// The records above `from` in its hierarchy, nearest first, whose
/// knowledge a full context gathers after that of `from` itself.
pub fn ancestors(h: &StructuralHierarchy, from: &str) -> (r: Vec<String>)
    ensures
        strings_view(r@) == ancestors_spec(h@, from@),
{
    let mut out: Vec<String> = Vec::new();
    assert(strings_view(out@) =~= Seq::<Seq<char>>::empty());
    push_other(&mut out, &h.subtask_id, from);
    push_other(&mut out, &h.task_id, from);
    push_other(&mut out, &h.submodule_id, from);
    push_other(&mut out, &h.module_id, from);
    push_other(&mut out, &h.project_id, from);
    assert(strings_view(out@) =~= ancestors_spec(h@, from@));
    out
}

/// The records above `from` are the records of its hierarchy other than
/// `from` itself, each of them: every subtask, task, submodule, module and
/// project that the hierarchy holds and that is not `from` is among them,
/// nothing else is, and the project, where there is one, comes last.
pub proof fn lemma_ancestors_are_the_hierarchy(h: HierarchyView, from: Seq<char>)
    ensures
        h.subtask_id is Some && h.subtask_id->0 != from ==> ancestors_spec(h, from).contains(h.subtask_id->0),
        h.task_id is Some && h.task_id->0 != from ==> ancestors_spec(h, from).contains(h.task_id->0),
        h.submodule_id is Some && h.submodule_id->0 != from ==> ancestors_spec(h, from).contains(h.submodule_id->0),
        h.module_id is Some && h.module_id->0 != from ==> ancestors_spec(h, from).contains(h.module_id->0),
        h.project_id is Some && h.project_id->0 != from ==> ancestors_spec(h, from).contains(h.project_id->0),
        h.project_id is Some && h.project_id->0 != from ==> ancestors_spec(h, from).last() == h.project_id->0,
        forall|k: int| 0 <= k < ancestors_spec(h, from).len() ==> {
            let x = #[trigger] ancestors_spec(h, from)[k];
            &&& x != from
            &&& (h.subtask_id == Some(x) || h.task_id == Some(x) || h.submodule_id == Some(x)
                || h.module_id == Some(x) || h.project_id == Some(x))
        },
{
    let a = other_than(h.subtask_id, from);
    let b = other_than(h.task_id, from);
    let c = other_than(h.submodule_id, from);
    let d = other_than(h.module_id, from);
    let e = other_than(h.project_id, from);
    let all = ancestors_spec(h, from);
    assert(all == a + b + c + d + e);
    if let Some(x) = h.subtask_id {
        if x != from {
            assert(all[0] == x);
        }
    }
    if let Some(x) = h.task_id {
        if x != from {
            assert(all[a.len() as int] == x);
        }
    }
    if let Some(x) = h.submodule_id {
        if x != from {
            assert(all[(a.len() + b.len()) as int] == x);
        }
    }
    if let Some(x) = h.module_id {
        if x != from {
            assert(all[(a.len() + b.len() + c.len()) as int] == x);
        }
    }
    if let Some(x) = h.project_id {
        if x != from {
            assert(all[(a.len() + b.len() + c.len() + d.len()) as int] == x);
        }
    }
}

/// A full context of a record gathers the knowledge of the record itself
/// first and then of every other record of its hierarchy.
pub proof fn lemma_full_context_levels(id: Seq<char>, h: HierarchyView)
    ensures
        context_levels_spec(id, None, Some(h))[0] == id,
        h.subtask_id is Some ==> context_levels_spec(id, None, Some(h)).contains(h.subtask_id->0),
        h.task_id is Some ==> context_levels_spec(id, None, Some(h)).contains(h.task_id->0),
        h.submodule_id is Some ==> context_levels_spec(id, None, Some(h)).contains(h.submodule_id->0),
        h.module_id is Some ==> context_levels_spec(id, None, Some(h)).contains(h.module_id->0),
        h.project_id is Some ==> context_levels_spec(id, None, Some(h)).contains(h.project_id->0),
{
    lemma_ancestors_are_the_hierarchy(h, id);
    let lv = context_levels_spec(id, None, Some(h));
    let an = ancestors_spec(h, id);
    assert(lv == seq![id] + Seq::<Seq<char>>::empty() + an);
    assert(lv[0] == id);
    assert forall|x: Seq<char>| an.contains(x) implies lv.contains(x) by {
        let k = choose|k: int| 0 <= k < an.len() && an[k] == x;
        assert(lv[k + 1] == x);
    }
}

/// The context of a record under a parent (a file under its module or
/// submodule) gathers the record's knowledge, then its parent's, then that
/// of every other record of the parent's hierarchy.
pub proof fn lemma_context_levels_under_parent(id: Seq<char>, parent: Seq<char>, h: HierarchyView)
    ensures
        context_levels_spec(id, Some(parent), Some(h))[0] == id,
        context_levels_spec(id, Some(parent), Some(h))[1] == parent,
        h.subtask_id is Some ==> context_levels_spec(id, Some(parent), Some(h)).contains(h.subtask_id->0),
        h.task_id is Some ==> context_levels_spec(id, Some(parent), Some(h)).contains(h.task_id->0),
        h.submodule_id is Some ==> context_levels_spec(id, Some(parent), Some(h)).contains(h.submodule_id->0),
        h.module_id is Some ==> context_levels_spec(id, Some(parent), Some(h)).contains(h.module_id->0),
        h.project_id is Some ==> context_levels_spec(id, Some(parent), Some(h)).contains(h.project_id->0),
{
    lemma_ancestors_are_the_hierarchy(h, parent);
    let lv = context_levels_spec(id, Some(parent), Some(h));
    let an = ancestors_spec(h, parent);
    assert(lv == seq![id] + seq![parent] + an);
    assert(lv[1] == parent);
    assert forall|x: Seq<char>| an.contains(x) implies lv.contains(x) by {
        let k = choose|k: int| 0 <= k < an.len() && an[k] == x;
        assert(lv[k + 2] == x);
    }
}

/// The graph queries that find the record above a file, tried in order
/// (the file bound as `id`): its submodule, its module, its project; each
/// with the name under which the row holds the records.
pub open spec fn file_parent_queries_spec() -> Seq<(Seq<char>, Seq<char>)> {
    seq![
        ("SELECT <-contains<-submodule AS s FROM ONLY type::record($id)"@, "s"@),
        ("SELECT <-contains<-module AS m FROM ONLY type::record($id)"@, "m"@),
        ("SELECT <-contains<-project AS p FROM ONLY type::record($id)"@, "p"@),
    ]
}

/// The graph queries that find the record above a file, tried in order.
pub fn file_parent_queries() -> (r: Vec<(&'static str, &'static str)>)
    ensures
        r@.map_values(|q: (&'static str, &'static str)| (q.0@, q.1@)) == file_parent_queries_spec(),
{
    let r = vec![
        ("SELECT <-contains<-submodule AS s FROM ONLY type::record($id)", "s"),
        ("SELECT <-contains<-module AS m FROM ONLY type::record($id)", "m"),
        ("SELECT <-contains<-project AS p FROM ONLY type::record($id)", "p"),
    ];
    assert(r@.map_values(|q: (&'static str, &'static str)| (q.0@, q.1@)) =~= file_parent_queries_spec());
    r
}

/// The graph query for the project of an epic (bound as `id`), whose
/// records the row holds under `p`.
pub open spec fn epic_project_sql() -> Seq<char> {
    "SELECT ->belongs_to_project->project AS p FROM ONLY type::record($id)"@
}

/// The graph query for the project of an epic.
pub fn epic_project_query() -> (r: &'static str)
    ensures
        r@ == epic_project_sql(),
{
    "SELECT ->belongs_to_project->project AS p FROM ONLY type::record($id)"
}

/// A context document: the record under its kind, then its knowledge.
pub open spec fn context_doc(kind: Seq<char>, rec: JsonView, contexts: Seq<JsonView>) -> JsonView {
    JsonView::Object(seq![(kind, rec), ("contexts"@, JsonView::Array(contexts))])
}

/// A context document: the record under its kind, then its knowledge.
pub fn context_document(kind: &str, rec: Json, contexts: Vec<Json>) -> (r: Json)
    ensures
        r@ == context_doc(kind@, rec@, values_view(contexts@)),
{
    let ghost rv = rec@;
    let ghost cv = values_view(contexts@);
    let arr = Json::Array(contexts);
    proof {
        lemma_array_view(contexts);
    }
    let members = vec![(owned(kind), rec), (owned("contexts"), arr)];
    proof {
        lemma_object_view(members);
        assert(members_view(members@) =~= seq![(kind@, rv), ("contexts"@, JsonView::Array(cv))]);
    }
    Json::Object(members)
}


// ---------------------------------------------------------------------------
// Operations on one table
// ---------------------------------------------------------------------------

/// The table that a listing, lookup, deletion or update works on.
pub open spec fn method_table_spec(method: Seq<char>) -> Option<Seq<char>> {
    if method == "list_projects"@ {
        Some("project"@)
    } else if method == "list_modules"@ {
        Some("module"@)
    } else if method == "list_submodules"@ {
        Some("submodule"@)
    } else if method == "list_files"@ {
        Some("file"@)
    } else if method == "list_tasks"@ {
        Some("task"@)
    } else if method == "list_user_stories"@ {
        Some("user_story"@)
    } else if method == "list_epics"@ {
        Some("epic"@)
    } else if method == "list_personas"@ {
        Some("persona"@)
    } else if method == "list_workflows"@ {
        Some("workflow"@)
    } else if method == "get_task"@ {
        Some("task"@)
    } else if method == "get_todo"@ {
        Some("todo_item"@)
    } else if method == "get_issue"@ {
        Some("issue"@)
    } else if method == "get_user_story"@ {
        Some("user_story"@)
    } else if method == "delete_project"@ {
        Some("project"@)
    } else if method == "delete_module"@ {
        Some("module"@)
    } else if method == "delete_submodule"@ {
        Some("submodule"@)
    } else if method == "delete_file"@ {
        Some("file"@)
    } else if method == "delete_task"@ {
        Some("task"@)
    } else if method == "delete_todo"@ {
        Some("todo_item"@)
    } else if method == "delete_user_story"@ {
        Some("user_story"@)
    } else if method == "delete_epic"@ {
        Some("epic"@)
    } else if method == "delete_persona"@ {
        Some("persona"@)
    } else if method == "delete_workflow"@ {
        Some("workflow"@)
    } else if method == "delete_issue"@ {
        Some("issue"@)
    } else if method == "delete_context"@ {
        Some("context"@)
    } else if method == "update_project"@ {
        Some("project"@)
    } else if method == "update_module"@ {
        Some("module"@)
    } else if method == "update_submodule"@ {
        Some("submodule"@)
    } else if method == "update_file"@ {
        Some("file"@)
    } else if method == "update_user_story"@ {
        Some("user_story"@)
    } else if method == "update_epic"@ {
        Some("epic"@)
    } else if method == "update_persona"@ {
        Some("persona"@)
    } else if method == "update_workflow"@ {
        Some("workflow"@)
    } else if method == "update_context"@ {
        Some("context"@)
    } else if method == "update_task"@ {
        Some("task"@)
    } else if method == "update_todo"@ {
        Some("todo_item"@)
    } else if method == "update_issue"@ {
        Some("issue"@)
    } else {
        None
    }
}

/// The table that a listing, lookup, deletion or update works on; none for another operation.
pub fn method_table(method: &str) -> (r: Option<&'static str>)
    ensures
        match method_table_spec(method@) {
            Some(t) => r matches Some(x) && x@ == t,
            None => r is None,
        },
{
    if str_eq(method, "list_projects") {
        Some("project")
    } else if str_eq(method, "list_modules") {
        Some("module")
    } else if str_eq(method, "list_submodules") {
        Some("submodule")
    } else if str_eq(method, "list_files") {
        Some("file")
    } else if str_eq(method, "list_tasks") {
        Some("task")
    } else if str_eq(method, "list_user_stories") {
        Some("user_story")
    } else if str_eq(method, "list_epics") {
        Some("epic")
    } else if str_eq(method, "list_personas") {
        Some("persona")
    } else if str_eq(method, "list_workflows") {
        Some("workflow")
    } else if str_eq(method, "get_task") {
        Some("task")
    } else if str_eq(method, "get_todo") {
        Some("todo_item")
    } else if str_eq(method, "get_issue") {
        Some("issue")
    } else if str_eq(method, "get_user_story") {
        Some("user_story")
    } else if str_eq(method, "delete_project") {
        Some("project")
    } else if str_eq(method, "delete_module") {
        Some("module")
    } else if str_eq(method, "delete_submodule") {
        Some("submodule")
    } else if str_eq(method, "delete_file") {
        Some("file")
    } else if str_eq(method, "delete_task") {
        Some("task")
    } else if str_eq(method, "delete_todo") {
        Some("todo_item")
    } else if str_eq(method, "delete_user_story") {
        Some("user_story")
    } else if str_eq(method, "delete_epic") {
        Some("epic")
    } else if str_eq(method, "delete_persona") {
        Some("persona")
    } else if str_eq(method, "delete_workflow") {
        Some("workflow")
    } else if str_eq(method, "delete_issue") {
        Some("issue")
    } else if str_eq(method, "delete_context") {
        Some("context")
    } else if str_eq(method, "update_project") {
        Some("project")
    } else if str_eq(method, "update_module") {
        Some("module")
    } else if str_eq(method, "update_submodule") {
        Some("submodule")
    } else if str_eq(method, "update_file") {
        Some("file")
    } else if str_eq(method, "update_user_story") {
        Some("user_story")
    } else if str_eq(method, "update_epic") {
        Some("epic")
    } else if str_eq(method, "update_persona") {
        Some("persona")
    } else if str_eq(method, "update_workflow") {
        Some("workflow")
    } else if str_eq(method, "update_context") {
        Some("context")
    } else if str_eq(method, "update_task") {
        Some("task")
    } else if str_eq(method, "update_todo") {
        Some("todo_item")
    } else if str_eq(method, "update_issue") {
        Some("issue")
    } else {
        None
    }
}

/// The graph query of a listing by a parent record (bound as `id`), whose records the row holds under `items`.
pub open spec fn graph_list_spec(method: Seq<char>) -> Option<Seq<char>> {
    if method == "list_modules_by_project"@ {
        Some("SELECT ->contains->module.* AS items FROM ONLY type::record($id)"@)
    } else if method == "list_modules_by_module"@ {
        Some("SELECT ->contains->module.* AS items FROM ONLY type::record($id)"@)
    } else if method == "list_submodules_by_module"@ {
        Some("SELECT ->contains->submodule.* AS items FROM ONLY type::record($id)"@)
    } else if method == "list_submodules_by_project"@ {
        Some("SELECT <-belongs_to_project<-submodule.* AS items FROM ONLY type::record($id)"@)
    } else if method == "list_files_by_module"@ {
        Some("SELECT ->contains->file.* AS items FROM ONLY type::record($id)"@)
    } else if method == "list_files_by_submodule"@ {
        Some("SELECT ->contains->file.* AS items FROM ONLY type::record($id)"@)
    } else if method == "list_files_by_project"@ {
        Some("SELECT <-belongs_to_project<-file.* AS items FROM ONLY type::record($id)"@)
    } else if method == "list_tasks_by_project"@ {
        Some("SELECT ->has_task->task.* AS items FROM ONLY type::record($id)"@)
    } else if method == "list_user_stories_by_epic"@ {
        Some("SELECT ->has_user_story->user_story.* AS items FROM ONLY type::record($id)"@)
    } else if method == "list_user_stories_by_project"@ {
        Some("SELECT ->has_user_story->user_story.* AS items FROM ONLY type::record($id)"@)
    } else if method == "list_epics_by_project"@ {
        Some("SELECT ->has_epic->epic.* AS items FROM ONLY type::record($id)"@)
    } else if method == "list_personas_by_project"@ {
        Some("SELECT ->has_persona->persona.* AS items FROM ONLY type::record($id)"@)
    } else if method == "list_workflows_by_project"@ {
        Some("SELECT ->has_workflow->workflow.* AS items FROM ONLY type::record($id)"@)
    } else if method == "list_todos_by_project"@ {
        Some("SELECT ->has_todo->todo_item.* AS items FROM ONLY type::record($id)"@)
    } else if method == "list_issues_by_task"@ {
        Some("SELECT ->has_issue->issue.* AS items FROM ONLY type::record($id)"@)
    } else if method == "list_issues_by_project"@ {
        Some("SELECT ->has_issue->issue.* AS items FROM ONLY type::record($id)"@)
    } else {
        None
    }
}

/// The graph query of a listing by a parent record; none for another operation.
pub fn graph_list_query(method: &str) -> (r: Option<&'static str>)
    ensures
        match graph_list_spec(method@) {
            Some(t) => r matches Some(x) && x@ == t,
            None => r is None,
        },
{
    if str_eq(method, "list_modules_by_project") {
        Some("SELECT ->contains->module.* AS items FROM ONLY type::record($id)")
    } else if str_eq(method, "list_modules_by_module") {
        Some("SELECT ->contains->module.* AS items FROM ONLY type::record($id)")
    } else if str_eq(method, "list_submodules_by_module") {
        Some("SELECT ->contains->submodule.* AS items FROM ONLY type::record($id)")
    } else if str_eq(method, "list_submodules_by_project") {
        Some("SELECT <-belongs_to_project<-submodule.* AS items FROM ONLY type::record($id)")
    } else if str_eq(method, "list_files_by_module") {
        Some("SELECT ->contains->file.* AS items FROM ONLY type::record($id)")
    } else if str_eq(method, "list_files_by_submodule") {
        Some("SELECT ->contains->file.* AS items FROM ONLY type::record($id)")
    } else if str_eq(method, "list_files_by_project") {
        Some("SELECT <-belongs_to_project<-file.* AS items FROM ONLY type::record($id)")
    } else if str_eq(method, "list_tasks_by_project") {
        Some("SELECT ->has_task->task.* AS items FROM ONLY type::record($id)")
    } else if str_eq(method, "list_user_stories_by_epic") {
        Some("SELECT ->has_user_story->user_story.* AS items FROM ONLY type::record($id)")
    } else if str_eq(method, "list_user_stories_by_project") {
        Some("SELECT ->has_user_story->user_story.* AS items FROM ONLY type::record($id)")
    } else if str_eq(method, "list_epics_by_project") {
        Some("SELECT ->has_epic->epic.* AS items FROM ONLY type::record($id)")
    } else if str_eq(method, "list_personas_by_project") {
        Some("SELECT ->has_persona->persona.* AS items FROM ONLY type::record($id)")
    } else if str_eq(method, "list_workflows_by_project") {
        Some("SELECT ->has_workflow->workflow.* AS items FROM ONLY type::record($id)")
    } else if str_eq(method, "list_todos_by_project") {
        Some("SELECT ->has_todo->todo_item.* AS items FROM ONLY type::record($id)")
    } else if str_eq(method, "list_issues_by_task") {
        Some("SELECT ->has_issue->issue.* AS items FROM ONLY type::record($id)")
    } else if str_eq(method, "list_issues_by_project") {
        Some("SELECT ->has_issue->issue.* AS items FROM ONLY type::record($id)")
    } else {
        None
    }
}

/// The graph query for the project or module of a task (bound as `tid`),
/// whose records the row holds under the name that `k` gives.
pub open spec fn task_link_sql(k: Linked) -> Seq<char> {
    match k {
        Linked::Project => "SELECT ->belongs_to_project->project.* AS project FROM ONLY type::record($tid)"@,
        Linked::Module => "SELECT ->belongs_to_module->module.* AS module FROM ONLY type::record($tid)"@,
    }
}

/// The graph query for the project or module of a task.
pub fn task_link_query(k: Linked) -> (r: &'static str)
    ensures
        r@ == task_link_sql(k),
{
    match k {
        Linked::Project => "SELECT ->belongs_to_project->project.* AS project FROM ONLY type::record($tid)",
        Linked::Module => "SELECT ->belongs_to_module->module.* AS module FROM ONLY type::record($tid)",
    }
}

/// The graph query for the submodule of a task's module (bound as `tid`).
pub open spec fn task_submodule_sql() -> Seq<char> {
    "SELECT ->belongs_to_module->contains->submodule.* AS submodule FROM ONLY type::record($tid)"@
}

/// The graph query for the submodule of a task's module.
pub fn task_submodule_query() -> (r: &'static str)
    ensures
        r@ == task_submodule_sql(),
{
    "SELECT ->belongs_to_module->contains->submodule.* AS submodule FROM ONLY type::record($tid)"
}


/// Whether a member is an `id` that is null, which a new record leaves out.
pub open spec fn null_id(m: (Seq<char>, JsonView)) -> bool {
    m.0 == "id"@ && m.1 == JsonView::Null
}

/// The members of a record's content: those given, but an `id` that is null.
pub open spec fn content_spec(members: Seq<(Seq<char>, JsonView)>) -> Seq<(Seq<char>, JsonView)>
    decreases members.len(),
{
    if members.len() == 0 {
        Seq::empty()
    } else {
        content_spec(members.drop_last()) + if null_id(members.last()) {
            Seq::empty()
        } else {
            seq![members.last()]
        }
    }
}

/// The members of a record's content: those given, but an `id` that is null.
pub fn content_members(members: Vec<(String, Json)>) -> (r: Vec<(String, Json)>)
    ensures
        members_view(r@) == content_spec(members_view(members@)),
{
    let ghost all = members_view(members@);
    let mut out: Vec<(String, Json)> = Vec::new();
    let mut rest = members;
    let total: usize = rest.len();
    let mut k: usize = 0;
    assert(all.take(0) =~= Seq::<(Seq<char>, JsonView)>::empty());
    assert(members_view(out@) =~= Seq::<(Seq<char>, JsonView)>::empty());
    while rest.len() > 0
        invariant
            k + rest@.len() == all.len(),
            all.len() == total,
            members_view(rest@) =~= all.skip(k as int),
            members_view(out@) == content_spec(all.take(k as int)),
        decreases rest@.len(),
    {
        let ghost rs = rest@;
        let (name, val) = rest.remove(0);
        proof {
            assert(members_view(rs)[0] == all.skip(k as int)[0]);
            assert forall|i: int| 0 <= i < rest@.len() implies members_view(rest@)[i] == all.skip(k + 1)[i] by {
                assert(rest@[i] == rs[i + 1]);
                assert(members_view(rs)[i + 1] == all.skip(k as int)[i + 1]);
            }
            assert(all.take(k + 1).drop_last() =~= all.take(k as int));
            assert(all.take(k + 1).last() == all[k as int]);
        }
        let ghost before = members_view(out@);
        let ghost item = (name@, val@);
        let is_null = match &val {
            Json::Null => true,
            _ => false,
        };
        if str_eq(name.as_str(), "id") && is_null {
            assert(null_id(item));
            assert(members_view(out@) =~= before + Seq::<(Seq<char>, JsonView)>::empty());
        } else {
            out.push((name, val));
            assert(members_view(out@) =~= before + seq![item]);
        }
        k = k + 1;
    }
    assert(all.take(k as int) =~= all);
    out
}

/// What a project's structure holds, each under its name, with the listing
/// by project that gives it.
pub open spec fn structure_parts_spec() -> Seq<(Seq<char>, Seq<char>)> {
    seq![
        ("modules"@, "list_modules_by_project"@),
        ("files"@, "list_files_by_project"@),
        ("tasks"@, "list_tasks_by_project"@),
        ("todos"@, "list_todos_by_project"@),
        ("epics"@, "list_epics_by_project"@),
    ]
}

/// What a project's structure holds, each under its name, with the listing
/// by project that gives it.
pub fn structure_parts() -> (r: Vec<(&'static str, &'static str)>)
    ensures
        r@.map_values(|p: (&'static str, &'static str)| (p.0@, p.1@)) == structure_parts_spec(),
{
    let r = vec![
        ("modules", "list_modules_by_project"),
        ("files", "list_files_by_project"),
        ("tasks", "list_tasks_by_project"),
        ("todos", "list_todos_by_project"),
        ("epics", "list_epics_by_project"),
    ];
    assert(r@.map_values(|p: (&'static str, &'static str)| (p.0@, p.1@)) =~= structure_parts_spec());
    r
}

/// The graph queries for the records a knowledge entry belongs to (the
/// entry bound as `kid`, the records under `out`): its project, its module
/// and its task, in that order.
pub open spec fn belongs_to_queries_spec() -> Seq<Seq<char>> {
    seq![
        "SELECT ->belongs_to_project->project.* AS out FROM ONLY type::record($kid)"@,
        "SELECT ->belongs_to_module->module.* AS out FROM ONLY type::record($kid)"@,
        "SELECT ->belongs_to_task->task.* AS out FROM ONLY type::record($kid)"@,
    ]
}

/// The graph queries for the records a knowledge entry belongs to.
pub fn belongs_to_queries() -> (r: Vec<&'static str>)
    ensures
        r@.map_values(|q: &'static str| q@) == belongs_to_queries_spec(),
{
    let r = vec![
        "SELECT ->belongs_to_project->project.* AS out FROM ONLY type::record($kid)",
        "SELECT ->belongs_to_module->module.* AS out FROM ONLY type::record($kid)",
        "SELECT ->belongs_to_task->task.* AS out FROM ONLY type::record($kid)",
    ];
    assert(r@.map_values(|q: &'static str| q@) =~= belongs_to_queries_spec());
    r
}

/// Whether a record's `type` is `t`.
pub open spec fn has_type(rec: JsonView, t: Seq<char>) -> bool {
    member_text(rec_members(rec), "type"@) == Some(t)
}

/// The records whose `type` is `t`, in order.
pub open spec fn of_type_spec(recs: Seq<JsonView>, t: Seq<char>) -> Seq<JsonView>
    decreases recs.len(),
{
    if recs.len() == 0 {
        Seq::empty()
    } else {
        of_type_spec(recs.drop_last(), t) + if has_type(recs.last(), t) {
            seq![recs.last()]
        } else {
            Seq::empty()
        }
    }
}

/// The knowledge entries whose `type` is `t`, in order.
pub fn of_type(recs: Vec<Json>, t: &str) -> (r: Vec<Json>)
    ensures
        values_view(r@) == of_type_spec(values_view(recs@), t@),
{
    let ghost all = values_view(recs@);
    let mut out: Vec<Json> = Vec::new();
    let mut rest = recs;
    let total: usize = rest.len();
    let mut k: usize = 0;
    assert(all.take(0) =~= Seq::<JsonView>::empty());
    assert(values_view(out@) =~= Seq::<JsonView>::empty());
    while rest.len() > 0
        invariant
            k + rest@.len() == all.len(),
            all.len() == total,
            values_view(rest@) =~= all.skip(k as int),
            values_view(out@) == of_type_spec(all.take(k as int), t@),
        decreases rest@.len(),
    {
        let ghost rs = rest@;
        let item = rest.remove(0);
        proof {
            assert(values_view(rs)[0] == all.skip(k as int)[0]);
            assert forall|i: int| 0 <= i < rest@.len() implies values_view(rest@)[i] == all.skip(k + 1)[i] by {
                assert(rest@[i] == rs[i + 1]);
                assert(values_view(rs)[i + 1] == all.skip(k as int)[i + 1]);
            }
            assert(all.take(k + 1).drop_last() =~= all.take(k as int));
            assert(all.take(k + 1).last() == all[k as int]);
        }
        let ghost before = values_view(out@);
        let ghost iv = item@;
        let matches_type = match &item {
            Json::Object(m) => {
                proof {
                    lemma_object_view(*m);
                }
                match crate::json::member_text_of(m, "type") {
                    Some(x) => str_eq(x.as_str(), t),
                    None => false,
                }
            },
            _ => false,
        };
        if matches_type {
            out.push(item);
            assert(values_view(out@) =~= before + seq![iv]);
        } else {
            assert(values_view(out@) =~= before + Seq::<JsonView>::empty());
        }
        k = k + 1;
    }
    assert(all.take(k as int) =~= all);
    out
}

// ---------------------------------------------------------------------------
// Finding the record above a file
// ---------------------------------------------------------------------------

/// What the search for the record above a file does next.
#[derive(Debug, PartialEq, Eq)]
pub enum ParentStep {
    /// Run the query numbered `index` of `file_parent_queries`, with the
    /// file bound as `id`, and take the first record under `alias`.
    Ask { index: usize, sql: &'static str, alias: &'static str },
    /// The record above the file.
    Found { parent: String },
    /// No query found a record above the file.
    NoParent,
}

/// A step of the search as character sequences.
pub enum ParentStepView {
    Ask(nat, Seq<char>, Seq<char>),
    Found(Seq<char>),
    NoParent,
}

impl View for ParentStep {
    type V = ParentStepView;

    open spec fn view(&self) -> ParentStepView {
        match self {
            ParentStep::Ask { index, sql, alias } => ParentStepView::Ask(*index as nat, sql@, alias@),
            ParentStep::Found { parent } => ParentStepView::Found(parent@),
            ParentStep::NoParent => ParentStepView::NoParent,
        }
    }
}

/// Asking the query numbered `i`, or giving up where there is none.
pub open spec fn ask_parent(i: nat) -> ParentStepView {
    if i < file_parent_queries_spec().len() {
        ParentStepView::Ask(i, file_parent_queries_spec()[i as int].0, file_parent_queries_spec()[i as int].1)
    } else {
        ParentStepView::NoParent
    }
}

/// After the query numbered `index` answered: the first record found is the
/// parent; else the next query is asked, in order (submodule, module,
/// project), until none is left.
pub open spec fn parent_next_spec(index: nat, answer: Option<Seq<char>>) -> ParentStepView {
    match answer {
        Some(p) => ParentStepView::Found(p),
        None => ask_parent(index + 1),
    }
}

fn ask_parent_exec(i: usize) -> (r: ParentStep)
    ensures
        r@ == ask_parent(i as nat),
{
    let qs = file_parent_queries();
    proof {
        assert(qs@.map_values(|q: (&'static str, &'static str)| (q.0@, q.1@)).len() == qs@.len());
    }
    if i < qs.len() {
        let (sql, alias) = qs[i];
        proof {
            assert(qs@.map_values(|q: (&'static str, &'static str)| (q.0@, q.1@))[i as int] == (sql@, alias@));
        }
        ParentStep::Ask { index: i, sql, alias }
    } else {
        ParentStep::NoParent
    }
}

/// The first step of the search for the record above a file: its submodule.
pub fn file_parent_start() -> (r: ParentStep)
    ensures
        r@ == ask_parent(0),
{
    ask_parent_exec(0)
}

/// The next step of the search for the record above a file, after the query
/// numbered `index` gave `answer`.
pub fn file_parent_next(index: usize, answer: Option<String>) -> (r: ParentStep)
    ensures
        r@ == parent_next_spec(index as nat, crate::cli::opt_string_view(answer)),
{
    match answer {
        Some(p) => ParentStep::Found { parent: p },
        None => {
            if index < usize::MAX {
                ask_parent_exec(index + 1)
            } else {
                ParentStep::NoParent
            }
        },
    }
}

// ---------------------------------------------------------------------------
// Gathering knowledge and changing records
// ---------------------------------------------------------------------------

/// The records whose knowledge a context gathers, in order: the record
/// itself, then the record above it where one was found, then the records
/// above that one (or above the record itself) in its hierarchy.
pub open spec fn context_levels_spec(id: Seq<char>, parent: Option<Seq<char>>, h: Option<HierarchyView>) -> Seq<
    Seq<char>,
> {
    seq![id] + match parent {
        Some(p) => seq![p],
        None => Seq::empty(),
    } + match h {
        Some(hv) => ancestors_spec(
            hv,
            match parent {
                Some(p) => p,
                None => id,
            },
        ),
        None => Seq::empty(),
    }
}

/// The records whose knowledge a context gathers, in order.
pub fn context_levels(id: &str, parent: Option<&str>, h: Option<&StructuralHierarchy>) -> (r: Vec<String>)
    ensures
        strings_view(r@) == context_levels_spec(
            id@,
            opt_str(parent),
            match h {
                Some(x) => Some(x@),
                None => None,
            },
        ),
{
    let mut out = vec![owned(id)];
    let ghost first = strings_view(out@);
    assert(first =~= seq![id@]);
    if let Some(p) = parent {
        out.push(owned(p));
    }
    let ghost second = strings_view(out@);
    assert(second =~= seq![id@] + match opt_str(parent) {
        Some(p) => seq![p],
        None => Seq::<Seq<char>>::empty(),
    });
    match h {
        Some(x) => {
            let from = match parent {
                Some(p) => p,
                None => id,
            };
            let mut more = ancestors(x, from);
            let ghost mv = strings_view(more@);
            out.append(&mut more);
            assert(strings_view(out@) =~= second + mv);
        },
        None => {
            assert(strings_view(out@) =~= second + Seq::<Seq<char>>::empty());
        },
    }
    out
}

/// How an update goes: a patch with no field leaves the record as it is
/// (it is only read back); otherwise the patch is merged into it.
#[derive(Debug)]
pub enum UpdatePlan {
    Unchanged,
    Merge { patch: Vec<(String, Json)> },
}

/// How an update goes.
pub fn update_plan(patch: Vec<(String, Json)>) -> (r: UpdatePlan)
    ensures
        patch@.len() == 0 ==> r is Unchanged,
        patch@.len() > 0 ==> (r matches UpdatePlan::Merge { patch: p } && p@ == patch@),
{
    if patch.len() == 0 {
        UpdatePlan::Unchanged
    } else {
        UpdatePlan::Merge { patch }
    }
}

/// The structure of a project: the project, each part under its name, then
/// its knowledge.
pub open spec fn structure_doc(project: JsonView, parts: Seq<Seq<JsonView>>, contexts: Seq<JsonView>) -> JsonView {
    let n = if parts.len() < structure_parts_spec().len() {
        parts.len()
    } else {
        structure_parts_spec().len()
    };
    JsonView::Object(
        seq![("project"@, project)] + Seq::new(
            n,
            |i: int| (structure_parts_spec()[i].0, JsonView::Array(parts[i])),
        ) + seq![("contexts"@, JsonView::Array(contexts))],
    )
}

/// The structure of a project: the project, each part under its name (the
/// parts given in the order of `structure_parts`), then its knowledge.
pub fn structure_document(project: Json, parts: Vec<Vec<Json>>, contexts: Vec<Json>) -> (r: Json)
    ensures
        r@ == structure_doc(project@, tables_view(parts@), values_view(contexts@)),
{
    let names = structure_parts();
    let ghost nv = names@.map_values(|p: (&'static str, &'static str)| (p.0@, p.1@));
    let ghost pv = tables_view(parts@);
    let ghost total: nat = if pv.len() < structure_parts_spec().len() {
        pv.len()
    } else {
        structure_parts_spec().len()
    };
    assert(nv.len() == names@.len());
    let ghost projv = project@;
    let mut members: Vec<(String, Json)> = vec![(owned("project"), project)];
    let ghost head = seq![("project"@, projv)];
    assert(members_view(members@) =~= head);
    let mut rest = parts;
    let mut i: usize = 0;
    while i < names.len() && rest.len() > 0
        invariant
            i <= names@.len(),
            nv == names@.map_values(|p: (&'static str, &'static str)| (p.0@, p.1@)),
            nv == structure_parts_spec(),
            pv == tables_view(parts@),
            i + rest@.len() == pv.len(),
            forall|j: int| 0 <= j < rest@.len() ==> values_view(#[trigger] rest@[j]@) == pv[i + j],
            members_view(members@) =~= head + Seq::new(
                i as nat,
                |j: int| (structure_parts_spec()[j].0, JsonView::Array(pv[j])),
            ),
        decreases rest@.len(),
    {
        let ghost rs = rest@;
        let part = rest.remove(0);
        let ghost partv = values_view(part@);
        assert(partv == pv[i as int]) by {
            assert(part == rs[0]);
        }
        assert forall|j: int| 0 <= j < rest@.len() implies values_view(#[trigger] rest@[j]@) == pv[i + 1 + j] by {
            assert(rest@[j] == rs[j + 1]);
        }
        let (name, _) = names[i];
        assert(nv[i as int] == (name@, names@[i as int].1@));
        proof {
            lemma_array_view(part);
        }
        let ghost before = members_view(members@);
        members.push((owned(name), Json::Array(part)));
        assert(members_view(members@) =~= before.push((name@, JsonView::Array(partv))));
        i = i + 1;
    }
    assert(i as nat == total);
    let ghost cv = values_view(contexts@);
    proof {
        lemma_array_view(contexts);
    }
    let ghost before = members_view(members@);
    members.push((owned("contexts"), Json::Array(contexts)));
    assert(members_view(members@) =~= before.push(("contexts"@, JsonView::Array(cv))));
    proof {
        lemma_object_view(members);
        assert(pv.len() == parts@.len());
        assert(members_view(members@) =~= seq![("project"@, projv)] + Seq::new(
            total,
            |j: int| (structure_parts_spec()[j].0, JsonView::Array(pv[j])),
        ) + seq![("contexts"@, JsonView::Array(cv))]);
    }
    Json::Object(members)
}

/// The fields that the interface's update of a record takes, in order.
pub open spec fn update_fields_spec(method: Seq<char>) -> Option<Seq<Seq<char>>> {
    if method == "update_project"@ {
        Some(seq!["name"@, "description"@])
    } else if method == "update_module"@ {
        Some(seq!["name"@, "description"@, "notes"@])
    } else if method == "update_submodule"@ {
        Some(seq!["name"@, "description"@, "notes"@])
    } else if method == "update_file"@ {
        Some(seq!["name"@, "path"@, "description"@, "notes"@])
    } else if method == "update_user_story"@ {
        Some(seq!["title"@, "description"@])
    } else if method == "update_epic"@ {
        Some(seq!["title"@, "description"@])
    } else if method == "update_persona"@ {
        Some(seq!["name"@, "content"@])
    } else if method == "update_workflow"@ {
        Some(seq!["name"@, "content"@])
    } else if method == "update_task"@ {
        Some(seq!["name"@, "description"@, "status"@])
    } else if method == "update_todo"@ {
        Some(seq!["content"@])
    } else {
        None
    }
}

/// The fields that the interface's update of a record takes, in order;
/// none for another operation.
pub fn update_fields(method: &str) -> (r: Option<Vec<&'static str>>)
    ensures
        match update_fields_spec(method@) {
            Some(fs) => r matches Some(v) && v@.map_values(|f: &'static str| f@) == fs,
            None => r is None,
        },
{
    if str_eq(method, "update_project") {
        let v = vec!["name", "description"];
        assert(v@.map_values(|f: &'static str| f@) =~= seq!["name"@, "description"@]);
        Some(v)
    } else if str_eq(method, "update_module") {
        let v = vec!["name", "description", "notes"];
        assert(v@.map_values(|f: &'static str| f@) =~= seq!["name"@, "description"@, "notes"@]);
        Some(v)
    } else if str_eq(method, "update_submodule") {
        let v = vec!["name", "description", "notes"];
        assert(v@.map_values(|f: &'static str| f@) =~= seq!["name"@, "description"@, "notes"@]);
        Some(v)
    } else if str_eq(method, "update_file") {
        let v = vec!["name", "path", "description", "notes"];
        assert(v@.map_values(|f: &'static str| f@) =~= seq!["name"@, "path"@, "description"@, "notes"@]);
        Some(v)
    } else if str_eq(method, "update_user_story") {
        let v = vec!["title", "description"];
        assert(v@.map_values(|f: &'static str| f@) =~= seq!["title"@, "description"@]);
        Some(v)
    } else if str_eq(method, "update_epic") {
        let v = vec!["title", "description"];
        assert(v@.map_values(|f: &'static str| f@) =~= seq!["title"@, "description"@]);
        Some(v)
    } else if str_eq(method, "update_persona") {
        let v = vec!["name", "content"];
        assert(v@.map_values(|f: &'static str| f@) =~= seq!["name"@, "content"@]);
        Some(v)
    } else if str_eq(method, "update_workflow") {
        let v = vec!["name", "content"];
        assert(v@.map_values(|f: &'static str| f@) =~= seq!["name"@, "content"@]);
        Some(v)
    } else if str_eq(method, "update_task") {
        let v = vec!["name", "description", "status"];
        assert(v@.map_values(|f: &'static str| f@) =~= seq!["name"@, "description"@, "status"@]);
        Some(v)
    } else if str_eq(method, "update_todo") {
        let v = vec!["content"];
        assert(v@.map_values(|f: &'static str| f@) =~= seq!["content"@]);
        Some(v)
    } else {
        None
    }
}

/// The statement that reads the ends of every relation of an edge table.
pub fn edge_rows_statement(table: &str) -> (r: String)
    ensures
        r@ == "SELECT in, out FROM "@ + table@,
{
    concat("SELECT in, out FROM ", table)
}

// ---------------------------------------------------------------------------
// Laws
// ---------------------------------------------------------------------------

/// A record id whose key is a string is given as `table:key`, the key
/// without the quotes that its `Debug` form puts around it.
pub proof fn lemma_string_keys_unquoted(key: Seq<char>)
    ensures
        key_text("String(\""@ + key + "\")"@) == key,
{
    let p = "String(\""@;
    let q = "\")"@;
    let s = p + key + q;
    assert(s.take(p.len() as int) =~= p);
    assert(strip_prefix(s, p) == Some(key + q)) by {
        assert(s.skip(p.len() as int) =~= key + q);
    }
    let rest = key + q;
    assert(rest.skip(rest.len() - q.len()) =~= q);
    assert(rest.take(rest.len() - q.len()) =~= key);
}

/// Every relation that a creation makes has the new record at one end.
pub proof fn lemma_creation_links_touch_created(
    method: Seq<char>,
    created: Seq<char>,
    project: Option<Seq<char>>,
    parent: Option<Seq<char>>,
)
    ensures
        creation_links_spec(method, created, project, parent) matches Ok(rs) ==> forall|i: int|
            0 <= i < rs.len() ==> (#[trigger] rs[i]).0 == created || rs[i].2 == created,
{
}

/// Linking two records makes the edge down and the edge back up: the
/// second relation runs between the same records the other way.
pub proof fn lemma_pair_links_go_both_ways(method: Seq<char>, a: Seq<char>, b: Seq<char>)
    ensures
        pair_links_spec(method, a, b).len() == 0 || (pair_links_spec(method, a, b).len() == 2 && pair_links_spec(
            method,
            a,
            b,
        )[0].0 == b && pair_links_spec(method, a, b)[0].2 == a && pair_links_spec(method, a, b)[1].0 == a
            && pair_links_spec(method, a, b)[1].2 == b),
{
}

/// A record is never among the records above it whose knowledge a full
/// context gathers.
pub proof fn lemma_ancestors_exclude_record(h: HierarchyView, from: Seq<char>)
    ensures
        !ancestors_spec(h, from).contains(from),
{
    let s = ancestors_spec(h, from);
    if s.contains(from) {
        let i = choose|i: int| 0 <= i < s.len() && s[i] == from;
        assert(s[i] == from);
    }
}

/// An update changes only fields that were given: each member of its patch
/// is a given field with its value, and there are as many as were given.
pub proof fn lemma_patch_only_given(fields: Seq<(Seq<char>, Option<Seq<char>>)>)
    ensures
        patch_spec(fields).len() == fields.filter(|f: (Seq<char>, Option<Seq<char>>)| f.1 is Some).len(),
        forall|i: int|
            0 <= i < patch_spec(fields).len() ==> exists|j: int|
                0 <= j < fields.len() && fields[j].0 == (#[trigger] patch_spec(fields)[i]).0 && fields[j].1 is Some
                    && patch_spec(fields)[i].1 == JsonView::Str(fields[j].1->Some_0),
    decreases fields.len(),
{
    let pred = |f: (Seq<char>, Option<Seq<char>>)| f.1 is Some;
    if fields.len() > 0 {
        let init = fields.drop_last();
        lemma_patch_only_given(init);
        assert(fields =~= init.push(fields.last()));
        init.lemma_filter_push(fields.last(), pred);
        let ps = patch_spec(fields);
        let pi = patch_spec(init);
        assert forall|i: int| 0 <= i < ps.len() implies exists|j: int|
            0 <= j < fields.len() && fields[j].0 == (#[trigger] ps[i]).0 && fields[j].1 is Some
                && ps[i].1 == JsonView::Str(fields[j].1->Some_0) by {
            if i < pi.len() {
                assert(ps[i] == pi[i]);
                let j = choose|j: int|
                    0 <= j < init.len() && init[j].0 == (#[trigger] pi[i]).0 && init[j].1 is Some
                        && pi[i].1 == JsonView::Str(init[j].1->Some_0);
                assert(fields[j] == init[j]);
            } else {
                let j = fields.len() - 1;
                assert(fields[j] == fields.last());
            }
        }
    }
}

// ---------------------------------------------------------------------------
// New records
// ---------------------------------------------------------------------------

/// Argument `i` as text: the text given there, or empty where none is.
pub open spec fn arg_text(a: Seq<ArgView>, i: int) -> Seq<char> {
    if 0 <= i < a.len() {
        match a[i] {
            ArgView::Text(s) => s,
            ArgView::MaybeText(Some(s)) => s,
            _ => Seq::empty(),
        }
    } else {
        Seq::empty()
    }
}

/// Argument `i` as an optional text.
pub open spec fn arg_maybe(a: Seq<ArgView>, i: int) -> Option<Seq<char>> {
    if 0 <= i < a.len() {
        match a[i] {
            ArgView::Text(s) => Some(s),
            ArgView::MaybeText(o) => o,
            _ => None,
        }
    } else {
        None
    }
}

/// The fields that a creation stores, before the store adds the id: the
/// texts at their argument positions, the optional ones only where given,
/// and the status that a new task or issue starts with. `None` for an
/// operation that creates no record.
pub open spec fn record_fields_spec(method: Seq<char>, a: Seq<ArgView>) -> Option<Seq<(Seq<char>, JsonView)>> {
    if method == "create_project"@ {
        Some(patch_spec(seq![("name"@, Some(arg_text(a, 0))), ("description"@, Some(arg_text(a, 1)))]))
    } else if method == "create_module"@ {
        Some(patch_spec(seq![
            ("name"@, Some(arg_text(a, 0))),
            ("description"@, Some(arg_text(a, 1))),
            ("notes"@, arg_maybe(a, 2)),
        ]))
    } else if method == "create_submodule"@ {
        Some(patch_spec(seq![
            ("name"@, Some(arg_text(a, 0))),
            ("description"@, Some(arg_text(a, 1))),
            ("notes"@, arg_maybe(a, 3)),
        ]))
    } else if method == "create_file"@ {
        Some(patch_spec(seq![
            ("name"@, Some(arg_text(a, 0))),
            ("path"@, Some(arg_text(a, 1))),
            ("description"@, arg_maybe(a, 2)),
            ("notes"@, arg_maybe(a, 3)),
        ]))
    } else if method == "create_task"@ {
        Some(patch_spec(seq![
            ("name"@, Some(arg_text(a, 0))),
            ("description"@, Some(arg_text(a, 1))),
            ("status"@, Some("not_started"@)),
        ]))
    } else if method == "create_user_story"@ || method == "create_epic"@ {
        Some(patch_spec(seq![("title"@, Some(arg_text(a, 0))), ("description"@, Some(arg_text(a, 1)))]))
    } else if method == "create_persona"@ || method == "create_workflow"@ {
        Some(patch_spec(seq![("name"@, Some(arg_text(a, 0))), ("content"@, Some(arg_text(a, 1)))]))
    } else if method == "create_todo"@ {
        Some(patch_spec(seq![("content"@, Some(arg_text(a, 0)))]))
    } else if method == "create_issue"@ {
        Some(patch_spec(seq![
            ("description"@, Some(arg_text(a, 0))),
            ("plan"@, arg_maybe(a, 2)),
            ("verification"@, arg_maybe(a, 4)),
            ("status"@, Some("pending"@)),
        ]))
    } else {
        None
    }
}

/// Where a creation links its record: the project argument and the parent
/// argument, each as an optional text.
pub open spec fn record_owners_spec(method: Seq<char>, a: Seq<ArgView>) -> (Option<Seq<char>>, Option<Seq<char>>) {
    if method == "create_module"@ {
        (arg_maybe(a, 3), arg_maybe(a, 4))
    } else if method == "create_submodule"@ {
        (None, arg_maybe(a, 2))
    } else if method == "create_file"@ {
        (arg_maybe(a, 4), arg_maybe(a, 5))
    } else if method == "create_task"@ {
        (arg_maybe(a, 3), arg_maybe(a, 2))
    } else if method == "create_user_story"@ || method == "create_epic"@ || method == "create_persona"@
        || method == "create_workflow"@ {
        (arg_maybe(a, 2), None)
    } else if method == "create_todo"@ {
        (arg_maybe(a, 1), None)
    } else if method == "create_issue"@ {
        (arg_maybe(a, 3), arg_maybe(a, 1))
    } else {
        (None, None)
    }
}

fn text_arg(a: &[Arg], i: usize) -> (r: String)
    ensures
        r@ == arg_text(arg_views(a@), i as int),
{
    if i < a.len() {
        match &a[i] {
            Arg::Text(s) => crate::cli::clone_string(s),
            Arg::MaybeText(Some(s)) => crate::cli::clone_string(s),
            _ => String::new(),
        }
    } else {
        String::new()
    }
}

fn maybe_arg(a: &[Arg], i: usize) -> (r: Option<String>)
    ensures
        crate::cli::opt_string_view(r) == arg_maybe(arg_views(a@), i as int),
{
    if i < a.len() {
        match &a[i] {
            Arg::Text(s) => Some(crate::cli::clone_string(s)),
            Arg::MaybeText(Some(s)) => Some(crate::cli::clone_string(s)),
            _ => None,
        }
    } else {
        None
    }
}

/// The fields that the creation `method` stores for the arguments `a`;
/// `None` where `method` creates no record.
pub fn record_fields(method: &str, a: &[Arg]) -> (r: Option<Vec<(String, Json)>>)
    ensures
        match r {
            Some(f) => record_fields_spec(method@, arg_views(a@)) == Some(members_view(f@)),
            None => record_fields_spec(method@, arg_views(a@)) is None,
        },
{
    let ghost av = arg_views(a@);
    let fields: Vec<(&'static str, Option<String>)> = if str_eq(method, "create_project") {
        let f = vec![("name", Some(text_arg(a, 0))), ("description", Some(text_arg(a, 1)))];
        assert(fields_view(f@) =~= seq![("name"@, Some(arg_text(av, 0))), ("description"@, Some(arg_text(av, 1)))]);
        f
    } else if str_eq(method, "create_module") {
        let f = vec![("name", Some(text_arg(a, 0))), ("description", Some(text_arg(a, 1))), ("notes", maybe_arg(a, 2))];
        assert(fields_view(f@) =~= seq![
            ("name"@, Some(arg_text(av, 0))),
            ("description"@, Some(arg_text(av, 1))),
            ("notes"@, arg_maybe(av, 2)),
        ]);
        f
    } else if str_eq(method, "create_submodule") {
        let f = vec![("name", Some(text_arg(a, 0))), ("description", Some(text_arg(a, 1))), ("notes", maybe_arg(a, 3))];
        assert(fields_view(f@) =~= seq![
            ("name"@, Some(arg_text(av, 0))),
            ("description"@, Some(arg_text(av, 1))),
            ("notes"@, arg_maybe(av, 3)),
        ]);
        f
    } else if str_eq(method, "create_file") {
        let f = vec![
            ("name", Some(text_arg(a, 0))),
            ("path", Some(text_arg(a, 1))),
            ("description", maybe_arg(a, 2)),
            ("notes", maybe_arg(a, 3)),
        ];
        assert(fields_view(f@) =~= seq![
            ("name"@, Some(arg_text(av, 0))),
            ("path"@, Some(arg_text(av, 1))),
            ("description"@, arg_maybe(av, 2)),
            ("notes"@, arg_maybe(av, 3)),
        ]);
        f
    } else if str_eq(method, "create_task") {
        let f = vec![
            ("name", Some(text_arg(a, 0))),
            ("description", Some(text_arg(a, 1))),
            ("status", Some(owned("not_started"))),
        ];
        assert(fields_view(f@) =~= seq![
            ("name"@, Some(arg_text(av, 0))),
            ("description"@, Some(arg_text(av, 1))),
            ("status"@, Some("not_started"@)),
        ]);
        f
    } else if str_eq(method, "create_user_story") || str_eq(method, "create_epic") {
        let f = vec![("title", Some(text_arg(a, 0))), ("description", Some(text_arg(a, 1)))];
        assert(fields_view(f@) =~= seq![("title"@, Some(arg_text(av, 0))), ("description"@, Some(arg_text(av, 1)))]);
        f
    } else if str_eq(method, "create_persona") || str_eq(method, "create_workflow") {
        let f = vec![("name", Some(text_arg(a, 0))), ("content", Some(text_arg(a, 1)))];
        assert(fields_view(f@) =~= seq![("name"@, Some(arg_text(av, 0))), ("content"@, Some(arg_text(av, 1)))]);
        f
    } else if str_eq(method, "create_todo") {
        let f = vec![("content", Some(text_arg(a, 0)))];
        assert(fields_view(f@) =~= seq![("content"@, Some(arg_text(av, 0)))]);
        f
    } else if str_eq(method, "create_issue") {
        let f = vec![
            ("description", Some(text_arg(a, 0))),
            ("plan", maybe_arg(a, 2)),
            ("verification", maybe_arg(a, 4)),
            ("status", Some(owned("pending"))),
        ];
        assert(fields_view(f@) =~= seq![
            ("description"@, Some(arg_text(av, 0))),
            ("plan"@, arg_maybe(av, 2)),
            ("verification"@, arg_maybe(av, 4)),
            ("status"@, Some("pending"@)),
        ]);
        f
    } else {
        return None;
    };
    assert(record_fields_spec(method@, av) == Some(patch_spec(fields_view(fields@))));
    let out = patch_members(fields);
    Some(out)
}

/// The project and the parent that the creation `method` links its record
/// to, read from the arguments `a`.
pub fn record_owners(method: &str, a: &[Arg]) -> (r: (Option<String>, Option<String>))
    ensures
        (crate::cli::opt_string_view(r.0), crate::cli::opt_string_view(r.1)) == record_owners_spec(method@, arg_views(a@)),
{
    if str_eq(method, "create_module") {
        (maybe_arg(a, 3), maybe_arg(a, 4))
    } else if str_eq(method, "create_submodule") {
        (None, maybe_arg(a, 2))
    } else if str_eq(method, "create_file") {
        (maybe_arg(a, 4), maybe_arg(a, 5))
    } else if str_eq(method, "create_task") {
        (maybe_arg(a, 3), maybe_arg(a, 2))
    } else if str_eq(method, "create_user_story") || str_eq(method, "create_epic") || str_eq(method, "create_persona")
        || str_eq(method, "create_workflow") {
        (maybe_arg(a, 2), None)
    } else if str_eq(method, "create_todo") {
        (maybe_arg(a, 1), None)
    } else if str_eq(method, "create_issue") {
        (maybe_arg(a, 3), maybe_arg(a, 1))
    } else {
        (None, None)
    }
}

/// The fields that an update of a task, a todo item or an issue changes:
/// each field whose argument, after the record's id, was given. `None` for
/// another operation.
pub open spec fn update_patch_spec(method: Seq<char>, a: Seq<ArgView>) -> Option<Seq<(Seq<char>, JsonView)>> {
    if method == "update_task"@ {
        Some(patch_spec(seq![
            ("name"@, arg_maybe(a, 1)),
            ("description"@, arg_maybe(a, 2)),
            ("status"@, arg_maybe(a, 3)),
        ]))
    } else if method == "update_todo"@ {
        Some(patch_spec(seq![("content"@, arg_maybe(a, 1)), ("status"@, arg_maybe(a, 2))]))
    } else if method == "update_issue"@ {
        Some(patch_spec(seq![
            ("description"@, arg_maybe(a, 1)),
            ("status"@, arg_maybe(a, 2)),
            ("plan"@, arg_maybe(a, 3)),
            ("verification"@, arg_maybe(a, 4)),
        ]))
    } else {
        None
    }
}

/// The fields that the update `method` changes for the arguments `a`;
/// `None` where `method` is no such update.
pub fn update_patch(method: &str, a: &[Arg]) -> (r: Option<Vec<(String, Json)>>)
    ensures
        match r {
            Some(f) => update_patch_spec(method@, arg_views(a@)) == Some(members_view(f@)),
            None => update_patch_spec(method@, arg_views(a@)) is None,
        },
{
    let ghost av = arg_views(a@);
    let fields: Vec<(&'static str, Option<String>)> = if str_eq(method, "update_task") {
        let f = vec![("name", maybe_arg(a, 1)), ("description", maybe_arg(a, 2)), ("status", maybe_arg(a, 3))];
        assert(fields_view(f@) =~= seq![
            ("name"@, arg_maybe(av, 1)),
            ("description"@, arg_maybe(av, 2)),
            ("status"@, arg_maybe(av, 3)),
        ]);
        f
    } else if str_eq(method, "update_todo") {
        let f = vec![("content", maybe_arg(a, 1)), ("status", maybe_arg(a, 2))];
        assert(fields_view(f@) =~= seq![("content"@, arg_maybe(av, 1)), ("status"@, arg_maybe(av, 2))]);
        f
    } else if str_eq(method, "update_issue") {
        let f = vec![
            ("description", maybe_arg(a, 1)),
            ("status", maybe_arg(a, 2)),
            ("plan", maybe_arg(a, 3)),
            ("verification", maybe_arg(a, 4)),
        ];
        assert(fields_view(f@) =~= seq![
            ("description"@, arg_maybe(av, 1)),
            ("status"@, arg_maybe(av, 2)),
            ("plan"@, arg_maybe(av, 3)),
            ("verification"@, arg_maybe(av, 4)),
        ]);
        f
    } else {
        return None;
    };
    assert(update_patch_spec(method@, av) == Some(patch_spec(fields_view(fields@))));
    Some(patch_members(fields))
}

} // verus!
