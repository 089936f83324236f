//! The whole knowledge graph, or the part of it that belongs to one project,
//! as elements for a graph view: a node for every record, an edge for every
//! relation whose two ends are nodes.

use vstd::prelude::*;
use crate::json::{Json, JsonView, members_view, member, member_text, values_view, lemma_array_view, lemma_object_view, member_text_of};
use crate::records::strings_view;
use crate::text;
use crate::text::{concat, owned, str_eq};

verus! {

/// The tables whose records are nodes, each with the member that labels them.
pub open spec fn node_tables_spec() -> Seq<(Seq<char>, Seq<char>)> {
    seq![
        ("project"@, "name"@),
        ("module"@, "name"@),
        ("submodule"@, "name"@),
        ("file"@, "name"@),
        ("task"@, "name"@),
        ("todo_item"@, "content"@),
        ("context"@, "type"@),
        ("user_story"@, "title"@),
        ("epic"@, "title"@),
        ("persona"@, "name"@),
        ("workflow"@, "name"@),
    ]
}

/// The tables of relations that are edges.
pub open spec fn edge_tables_spec() -> Seq<Seq<char>> {
    seq![
        "contains"@,
        "has_task"@,
        "belongs_to_project"@,
        "belongs_to_module"@,
        "belongs_to_submodule"@,
        "has_context"@,
        "has_todo"@,
        "has_user_story"@,
        "belongs_to_story"@,
        "has_module"@,
        "has_submodule"@,
        "belongs_to_user_story"@,
        "has_epic"@,
        "belongs_to_epic"@,
        "has_persona"@,
        "has_workflow"@,
    ]
}

/// The tables whose records are nodes, each with the member that labels them.
pub fn node_tables() -> (r: Vec<(&'static str, &'static str)>)
    ensures
        r@.map_values(|p: (&'static str, &'static str)| (p.0@, p.1@)) == node_tables_spec(),
{
    let r = vec![
        ("project", "name"),
        ("module", "name"),
        ("submodule", "name"),
        ("file", "name"),
        ("task", "name"),
        ("todo_item", "content"),
        ("context", "type"),
        ("user_story", "title"),
        ("epic", "title"),
        ("persona", "name"),
        ("workflow", "name"),
    ];
    assert(r@.map_values(|p: (&'static str, &'static str)| (p.0@, p.1@)) =~= node_tables_spec());
    r
}

/// The tables of relations that are edges.
pub fn edge_tables() -> (r: Vec<&'static str>)
    ensures
        r@.map_values(|p: &'static str| p@) == edge_tables_spec(),
{
    let r = vec![
        "contains",
        "has_task",
        "belongs_to_project",
        "belongs_to_module",
        "belongs_to_submodule",
        "has_context",
        "has_todo",
        "has_user_story",
        "belongs_to_story",
        "has_module",
        "has_submodule",
        "belongs_to_user_story",
        "has_epic",
        "belongs_to_epic",
        "has_persona",
        "has_workflow",
    ];
    assert(r@.map_values(|p: &'static str| p@) =~= edge_tables_spec());
    r
}

/// The members of a record that is an object (none otherwise).
pub open spec fn rec_members(v: JsonView) -> Seq<(Seq<char>, JsonView)> {
    match v {
        JsonView::Object(m) => m,
        _ => Seq::empty(),
    }
}

/// The text of a member of a record, or nothing where it is not a string.
pub open spec fn rec_text(v: JsonView, key: Seq<char>) -> Seq<char> {
    match member_text(rec_members(v), key) {
        Some(t) => t,
        None => Seq::empty(),
    }
}

/// The label of a record: its labelling member where that is a string, else its id.
pub open spec fn rec_label(v: JsonView, label_field: Seq<char>) -> Seq<char> {
    match member_text(rec_members(v), label_field) {
        Some(t) => t,
        None => rec_text(v, "id"@),
    }
}

/// `acc` followed by the members of `rest` other than `id` whose name is not
/// taken yet, in order.
pub open spec fn extra_members(
    acc: Seq<(Seq<char>, JsonView)>,
    rest: Seq<(Seq<char>, JsonView)>,
) -> Seq<(Seq<char>, JsonView)>
    decreases rest.len(),
{
    if rest.len() == 0 {
        acc
    } else {
        let e = rest[0];
        let acc2 = if e.0 != "id"@ && member(acc, e.0) is None {
            acc.push(e)
        } else {
            acc
        };
        extra_members(acc2, rest.drop_first())
    }
}

/// The data of a node: its id, label and table, then the other members of
/// the record.
pub open spec fn node_data(table: Seq<char>, label_field: Seq<char>, v: JsonView) -> Seq<(Seq<char>, JsonView)> {
    extra_members(
        seq![
            ("id"@, JsonView::Str(rec_text(v, "id"@))),
            ("label"@, JsonView::Str(rec_label(v, label_field))),
            ("node_type"@, JsonView::Str(table)),
        ],
        rec_members(v),
    )
}

/// A graph element: an object with its data under `data`.
pub open spec fn element(data: Seq<(Seq<char>, JsonView)>) -> JsonView {
    JsonView::Object(seq![("data"@, JsonView::Object(data))])
}

/// Whether a record with this id is in the part of the graph asked for.
pub open spec fn in_scope(scope: Option<Seq<Seq<char>>>, id: Seq<char>) -> bool {
    match scope {
        None => true,
        Some(s) => s.contains(id),
    }
}

/// The nodes of one table, in order.
pub open spec fn table_nodes(
    table: Seq<char>,
    label_field: Seq<char>,
    recs: Seq<JsonView>,
    scope: Option<Seq<Seq<char>>>,
) -> Seq<JsonView>
    decreases recs.len(),
{
    if recs.len() == 0 {
        Seq::empty()
    } else {
        let v = recs.last();
        table_nodes(table, label_field, recs.drop_last(), scope) + if in_scope(scope, rec_text(v, "id"@)) {
            seq![element(node_data(table, label_field, v))]
        } else {
            Seq::empty()
        }
    }
}

/// The ids of the nodes of one table, in order.
pub open spec fn table_ids(recs: Seq<JsonView>, scope: Option<Seq<Seq<char>>>) -> Seq<Seq<char>>
    decreases recs.len(),
{
    if recs.len() == 0 {
        Seq::empty()
    } else {
        let id = rec_text(recs.last(), "id"@);
        table_ids(recs.drop_last(), scope) + if in_scope(scope, id) {
            seq![id]
        } else {
            Seq::empty()
        }
    }
}

/// The nodes of the first `n` node tables.
pub open spec fn nodes_upto(recs: Seq<Seq<JsonView>>, scope: Option<Seq<Seq<char>>>, n: int) -> Seq<JsonView>
    decreases n,
{
    if n <= 0 {
        Seq::empty()
    } else {
        nodes_upto(recs, scope, n - 1) + table_nodes(
            node_tables_spec()[n - 1].0,
            node_tables_spec()[n - 1].1,
            recs[n - 1],
            scope,
        )
    }
}

/// The ids of the nodes of the first `n` node tables.
pub open spec fn ids_upto(recs: Seq<Seq<JsonView>>, scope: Option<Seq<Seq<char>>>, n: int) -> Seq<Seq<char>>
    decreases n,
{
    if n <= 0 {
        Seq::empty()
    } else {
        ids_upto(recs, scope, n - 1) + table_ids(recs[n - 1], scope)
    }
}

/// The id of an edge: its table, source and target joined by `_`.
pub open spec fn edge_id(table: Seq<char>, source: Seq<char>, target: Seq<char>) -> Seq<char> {
    table + "_"@ + source + "_"@ + target
}

/// The element of an edge.
pub open spec fn edge_element(table: Seq<char>, source: Seq<char>, target: Seq<char>) -> JsonView {
    element(
        seq![
            ("id"@, JsonView::Str(edge_id(table, source, target))),
            ("source"@, JsonView::Str(source)),
            ("target"@, JsonView::Str(target)),
            ("edge_type"@, JsonView::Str(table)),
        ],
    )
}

/// Whether a relation row is an edge: both ends given and both are nodes.
pub open spec fn edge_kept(row: JsonView, ids: Seq<Seq<char>>) -> bool {
    let s = rec_text(row, "in"@);
    let t = rec_text(row, "out"@);
    s.len() > 0 && t.len() > 0 && ids.contains(s) && ids.contains(t)
}

/// The edges of one relation table, in order.
pub open spec fn table_edges(table: Seq<char>, rows: Seq<JsonView>, ids: Seq<Seq<char>>) -> Seq<JsonView>
    decreases rows.len(),
{
    if rows.len() == 0 {
        Seq::empty()
    } else {
        let row = rows.last();
        table_edges(table, rows.drop_last(), ids) + if edge_kept(row, ids) {
            seq![edge_element(table, rec_text(row, "in"@), rec_text(row, "out"@))]
        } else {
            Seq::empty()
        }
    }
}

/// The edges of the first `n` relation tables.
pub open spec fn edges_upto(rows: Seq<Seq<JsonView>>, ids: Seq<Seq<char>>, n: int) -> Seq<JsonView>
    decreases n,
{
    if n <= 0 {
        Seq::empty()
    } else {
        edges_upto(rows, ids, n - 1) + table_edges(edge_tables_spec()[n - 1], rows[n - 1], ids)
    }
}

/// The graph: the nodes of the records of the node tables that are in
/// scope, then the edges among them, under `elements`.
pub open spec fn graph_spec(
    recs: Seq<Seq<JsonView>>,
    rows: Seq<Seq<JsonView>>,
    scope: Option<Seq<Seq<char>>>,
) -> JsonView {
    let ids = ids_upto(recs, scope, 11);
    JsonView::Object(seq![("elements"@, JsonView::Array(nodes_upto(recs, scope, 11) + edges_upto(rows, ids, 16)))])
}

/// The views of a list of lists of values.
pub open spec fn tables_view(v: Seq<Vec<Json>>) -> Seq<Seq<JsonView>> {
    Seq::new(v.len(), |i: int| values_view(v[i]@))
}

fn rec_text_of(v: &Json, key: &str) -> (r: String)
    ensures
        r@ == rec_text(v@, key@),
{
    match v {
        Json::Object(m) => {
            proof {
                lemma_object_view(*m);
            }
            match member_text_of(m, key) {
                Some(t) => t,
                None => String::new(),
            }
        },
        _ => String::new(),
    }
}

fn has_member(m: &Vec<(String, Json)>, key: &str) -> (r: bool)
    ensures
        r == (member(members_view(m@), key@) is Some),
{
    let ghost mv = members_view(m@);
    let mut i: usize = 0;
    assert(mv.skip(0) =~= mv);
    while i < m.len()
        invariant
            i <= m@.len(),
            mv == members_view(m@),
            member(mv, key@) == member(mv.skip(i as int), key@),
        decreases m@.len() - i,
    {
        assert(mv.skip(i as int)[0] == mv[i as int]);
        assert(mv.skip(i as int).drop_first() =~= mv.skip(i + 1));
        if str_eq(m[i].0.as_str(), key) {
            return true;
        }
        i = i + 1;
    }
    assert(mv.skip(i as int) =~= Seq::<(Seq<char>, JsonView)>::empty());
    false
}

/// Whether `s` is among `v`.
pub fn contains_string(v: &Vec<String>, s: &str) -> (r: bool)
    ensures
        r == strings_view(v@).contains(s@),
{
    let ghost sv = strings_view(v@);
    let mut i: usize = 0;
    while i < v.len()
        invariant
            i <= v@.len(),
            sv == strings_view(v@),
            forall|j: int| 0 <= j < i ==> sv[j] != s@,
        decreases v@.len() - i,
    {
        if str_eq(v[i].as_str(), s) {
            assert(sv[i as int] == s@);
            return true;
        }
        i = i + 1;
    }
    false
}

fn node_element_of(table: &str, label_field: &str, rec: Json) -> (r: (Json, String))
    ensures
        r.0@ == element(node_data(table@, label_field@, rec@)),
        r.1@ == rec_text(rec@, "id"@),
{
    let id = rec_text_of(&rec, "id");
    let label = match &rec {
        Json::Object(m) => {
            proof {
                lemma_object_view(*m);
            }
            match member_text_of(m, label_field) {
                Some(l) => l,
                None => id.clone(),
            }
        },
        _ => id.clone(),
    };
    let mut data: Vec<(String, Json)> = vec![
        (owned("id"), Json::Str(id.clone())),
        (owned("label"), Json::Str(label)),
        (owned("node_type"), Json::Str(owned(table))),
    ];
    let ghost first = members_view(data@);
    assert(first =~= seq![
        ("id"@, JsonView::Str(rec_text(rec@, "id"@))),
        ("label"@, JsonView::Str(rec_label(rec@, label_field@))),
        ("node_type"@, JsonView::Str(table@)),
    ]);
    match rec {
        Json::Object(members) => {
            proof {
                lemma_object_view(members);
            }
            let ghost all = members_view(members@);
            let mut rest = members;
            let total: usize = rest.len();
            let mut k: usize = 0;
            assert(all.skip(0) =~= all);
            while rest.len() > 0
                invariant
                    k <= all.len(),
                    all.len() == total,
                    k + rest@.len() == all.len(),
                    members_view(rest@) =~= all.skip(k as int),
                    extra_members(members_view(data@), all.skip(k as int)) == extra_members(first, all),
                decreases rest@.len(),
            {
                let ghost rs = rest@;
                let (key, val) = rest.remove(0);
                proof {
                    assert(members_view(rs)[0] == all.skip(k as int)[0]);
                    assert forall|i: int| 0 <= i < rest@.len() implies members_view(rest@)[i] == all.skip(
                        k + 1,
                    )[i] by {
                        assert(rest@[i] == rs[i + 1]);
                        assert(members_view(rs)[i + 1] == all.skip(k as int)[i + 1]);
                    }
                    assert(all.skip(k as int).drop_first() =~= all.skip(k + 1));
                }
                if !str_eq(key.as_str(), "id") && !has_member(&data, key.as_str()) {
                    let ghost before = members_view(data@);
                    data.push((key, val));
                    assert(members_view(data@) =~= before.push(all[k as int]));
                }
                k = k + 1;
            }
            assert(all.skip(k as int) =~= Seq::<(Seq<char>, JsonView)>::empty());
        },
        _ => {},
    }
    proof {
        lemma_object_view(data);
    }
    let d = Json::Object(data);
    let out = vec![(owned("data"), d)];
    proof {
        lemma_object_view(out);
        assert(members_view(out@) =~= seq![("data"@, d@)]);
    }
    (Json::Object(out), id)
}

fn edge_element_of(table: &str, source: String, target: String) -> (r: Json)
    ensures
        r@ == edge_element(table@, source@, target@),
{
    let mut id = concat(table, "_");
    id.append(source.as_str());
    id.append("_");
    id.append(target.as_str());
    let data = vec![
        (owned("id"), Json::Str(id)),
        (owned("source"), Json::Str(source)),
        (owned("target"), Json::Str(target)),
        (owned("edge_type"), Json::Str(owned(table))),
    ];
    proof {
        lemma_object_view(data);
    }
    let d = Json::Object(data);
    let out = vec![(owned("data"), d)];
    proof {
        lemma_object_view(out);
        assert(members_view(data@) =~= seq![
            ("id"@, JsonView::Str(edge_id(table@, source@, target@))),
            ("source"@, JsonView::Str(source@)),
            ("target"@, JsonView::Str(target@)),
            ("edge_type"@, JsonView::Str(table@)),
        ]);
        assert(members_view(out@) =~= seq![("data"@, d@)]);
    }
    Json::Object(out)
}

/// The optional view of an optional list of strings.
pub open spec fn scope_view(scope: Option<&Vec<String>>) -> Option<Seq<Seq<char>>> {
    match scope {
        Some(s) => Some(strings_view(s@)),
        None => None,
    }
}

fn in_scope_exec(scope: Option<&Vec<String>>, id: &str) -> (r: bool)
    ensures
        r == in_scope(scope_view(scope), id@),
{
    match scope {
        None => true,
        Some(s) => contains_string(s, id),
    }
}

fn push_table_nodes(
    out: &mut Vec<Json>,
    ids: &mut Vec<String>,
    table: &str,
    label_field: &str,
    recs: Vec<Json>,
    scope: Option<&Vec<String>>,
)
    ensures
        values_view(final(out)@) == values_view(old(out)@) + table_nodes(
            table@,
            label_field@,
            values_view(recs@),
            scope_view(scope),
        ),
        strings_view(final(ids)@) == strings_view(old(ids)@) + table_ids(values_view(recs@), scope_view(scope)),
{
    let ghost all = values_view(recs@);
    let ghost start = values_view(out@);
    let ghost start_ids = strings_view(ids@);
    let mut rest = recs;
    let total: usize = rest.len();
    let mut k: usize = 0;
    assert(all.take(0) =~= Seq::<JsonView>::empty());
    while rest.len() > 0
        invariant
            k <= all.len(),
            all.len() == total,
            k + rest@.len() == all.len(),
            values_view(rest@) =~= all.skip(k as int),
            values_view(out@) == start + table_nodes(table@, label_field@, all.take(k as int), scope_view(scope)),
            strings_view(ids@) == start_ids + table_ids(all.take(k as int), scope_view(scope)),
        decreases rest@.len(),
    {
        let ghost rs = rest@;
        let rec = rest.remove(0);
        proof {
            assert(values_view(rs)[0] == all.skip(k as int)[0]);
            assert forall|i: int| 0 <= i < rest@.len() implies values_view(rest@)[i] == all.skip(k + 1)[i] by {
                assert(rest@[i] == rs[i + 1]);
                assert(values_view(rs)[i + 1] == all.skip(k as int)[i + 1]);
            }
            assert(all.take(k + 1).drop_last() =~= all.take(k as int));
            assert(all.take(k + 1).last() == all[k as int]);
        }
        let id = rec_text_of(&rec, "id");
        if in_scope_exec(scope, id.as_str()) {
            let (node, nid) = node_element_of(table, label_field, rec);
            let ghost before = out@;
            out.push(node);
            assert(values_view(out@) =~= values_view(before).push(node@));
            let ghost before_ids = ids@;
            ids.push(nid);
            assert(strings_view(ids@) =~= strings_view(before_ids).push(nid@));
        }
        assert(values_view(out@) =~= start + table_nodes(table@, label_field@, all.take(k + 1), scope_view(scope)));
        assert(strings_view(ids@) =~= start_ids + table_ids(all.take(k + 1), scope_view(scope)));
        k = k + 1;
    }
    assert(all.take(k as int) =~= all);
}

fn push_table_edges(out: &mut Vec<Json>, table: &str, rows: &Vec<Json>, ids: &Vec<String>)
    ensures
        values_view(final(out)@) == values_view(old(out)@) + table_edges(
            table@,
            values_view(rows@),
            strings_view(ids@),
        ),
{
    let ghost all = values_view(rows@);
    let ghost start = values_view(out@);
    let ghost iv = strings_view(ids@);
    let mut k: usize = 0;
    assert(all.take(0) =~= Seq::<JsonView>::empty());
    while k < rows.len()
        invariant
            k <= all.len(),
            all == values_view(rows@),
            iv == strings_view(ids@),
            values_view(out@) == start + table_edges(table@, all.take(k as int), iv),
        decreases rows@.len() - k,
    {
        proof {
            assert(all.take(k + 1).drop_last() =~= all.take(k as int));
            assert(all.take(k + 1).last() == all[k as int]);
        }
        let row = &rows[k];
        let s = rec_text_of(row, "in");
        let t = rec_text_of(row, "out");
        let ghost sv = s@;
        let ghost tv = t@;
        if s.unicode_len() > 0 && t.unicode_len() > 0 && contains_string(ids, s.as_str()) && contains_string(
            ids,
            t.as_str(),
        ) {
            let e = edge_element_of(table, s, t);
            let ghost before = out@;
            out.push(e);
            assert(values_view(out@) =~= values_view(before).push(e@));
            assert(e@ == edge_element(table@, sv, tv));
        }
        assert(values_view(out@) =~= start + table_edges(table@, all.take(k + 1), iv));
        k = k + 1;
    }
    assert(all.take(k as int) =~= all);
}

/// The graph built from the records of the node tables (in the order of
/// `node_tables`) and the relation rows of the edge tables (in the order of
/// `edge_tables`), keeping only the records whose id is in `scope` where one
/// is given: a node per record, labelled by its labelling member (or its id),
/// carrying its table and its other members; then an edge per relation
/// whose ends are both nodes.
pub fn graph_elements(records: Vec<Vec<Json>>, rows: &Vec<Vec<Json>>, scope: Option<&Vec<String>>) -> (r: Json)
    requires
        records@.len() == 11,
        rows@.len() == 16,
    ensures
        r@ == graph_spec(tables_view(records@), tables_view(rows@), scope_view(scope)),
{
    let tables = node_tables();
    let etables = edge_tables();
    let ghost recs = tables_view(records@);
    let ghost rv = tables_view(rows@);
    let ghost sc = scope_view(scope);
    let mut out: Vec<Json> = Vec::new();
    let mut ids: Vec<String> = Vec::new();
    let mut rest = records;
    let mut i: usize = 0;
    assert(tables@.len() == 11) by {
        assert(tables@.map_values(|p: (&'static str, &'static str)| (p.0@, p.1@)).len() == tables@.len());
    }
    assert(etables@.len() == 16) by {
        assert(etables@.map_values(|p: &'static str| p@).len() == etables@.len());
    }
    assert(values_view(out@) =~= Seq::<JsonView>::empty());
    assert(strings_view(ids@) =~= Seq::<Seq<char>>::empty());
    while rest.len() > 0
        invariant
            i <= 11,
            i + rest@.len() == 11,
            recs.len() == 11,
            sc == scope_view(scope),
            tables@.len() == 11,
            tables@.map_values(|p: (&'static str, &'static str)| (p.0@, p.1@)) == node_tables_spec(),
            forall|j: int| 0 <= j < rest@.len() ==> values_view(#[trigger] rest@[j]@) == recs[i + j],
            values_view(out@) == nodes_upto(recs, sc, i as int),
            strings_view(ids@) == ids_upto(recs, sc, i as int),
        decreases rest@.len(),
    {
        let ghost rs = rest@;
        let recs_i = rest.remove(0);
        assert(values_view(recs_i@) == recs[i as int]) by {
            assert(values_view(rs[0]@) == recs[i + 0]);
        }
        assert forall|j: int| 0 <= j < rest@.len() implies values_view(#[trigger] rest@[j]@) == recs[i + 1 + j] by {
            assert(rest@[j] == rs[j + 1]);
            assert(values_view(rs[j + 1]@) == recs[i + (j + 1)]);
        }
        let (table, label_field) = tables[i];
        assert(table@ == node_tables_spec()[i as int].0 && label_field@ == node_tables_spec()[i as int].1) by {
            assert(tables@.map_values(|p: (&'static str, &'static str)| (p.0@, p.1@))[i as int] == (
            tables@[i as int].0@, tables@[i as int].1@));
        }
        push_table_nodes(&mut out, &mut ids, table, label_field, recs_i, scope);
        assert(values_view(out@) == nodes_upto(recs, sc, i + 1));
        assert(strings_view(ids@) == ids_upto(recs, sc, i + 1));
        i = i + 1;
    }
    let ghost idv = ids_upto(recs, sc, 11);
    assert(strings_view(ids@) == idv);
    let mut edges: Vec<Json> = Vec::new();
    let mut j: usize = 0;
    assert(values_view(edges@) =~= Seq::<JsonView>::empty());
    while j < 16
        invariant
            j <= 16,
            rows@.len() == 16,
            rv == tables_view(rows@),
            etables@.len() == 16,
            etables@.map_values(|p: &'static str| p@) == edge_tables_spec(),
            strings_view(ids@) == idv,
            values_view(edges@) == edges_upto(rv, idv, j as int),
        decreases 16 - j,
    {
        let table = etables[j];
        assert(table@ == edge_tables_spec()[j as int]) by {
            assert(etables@.map_values(|p: &'static str| p@)[j as int] == etables@[j as int]@);
        }
        assert(values_view(rows@[j as int]@) == rv[j as int]);
        push_table_edges(&mut edges, table, &rows[j], &ids);
        j = j + 1;
    }
    let ghost nv = values_view(out@);
    let ghost ev = values_view(edges@);
    let mut all = out;
    let mut e = edges;
    all.append(&mut e);
    assert(values_view(all@) =~= nv + ev);
    proof {
        lemma_array_view(all);
    }
    let arr = Json::Array(all);
    let top = vec![(owned("elements"), arr)];
    proof {
        lemma_object_view(top);
        assert(members_view(top@) =~= seq![("elements"@, arr@)]);
    }
    Json::Object(top)
}

// ---------------------------------------------------------------------------
// The part of the graph that belongs to a project
// ---------------------------------------------------------------------------

/// Ids joined by `, `.
pub open spec fn join_ids(s: Seq<Seq<char>>) -> Seq<char>
    decreases s.len(),
{
    if s.len() == 0 {
        Seq::empty()
    } else if s.len() == 1 {
        s[0]
    } else {
        join_ids(s.drop_last()) + ", "@ + s.last()
    }
}

/// The ids among `s` that name submodules.
pub open spec fn submodule_ids(s: Seq<Seq<char>>) -> Seq<Seq<char>>
    decreases s.len(),
{
    if s.len() == 0 {
        Seq::empty()
    } else {
        submodule_ids(s.drop_last()) + if crate::records::in_table("submodule"@, s.last()) {
            seq![s.last()]
        } else {
            Seq::empty()
        }
    }
}

/// Where the collection of a project's records stands.
pub struct ScopeView {
    pub project_id: Seq<char>,
    pub stage: nat,
    pub relevant: Seq<Seq<char>>,
    pub modules: Seq<Seq<char>>,
    pub submodules: Seq<Seq<char>>,
}

/// The collection of the records that belong to a project, one query at a
/// time: the records that belong to it, its todo items, the records it
/// contains, what those modules contain, and what those submodules contain.
pub struct ProjectScope {
    project_id: String,
    stage: u8,
    relevant: Vec<String>,
    modules: Vec<String>,
    submodules: Vec<String>,
}

impl View for ProjectScope {
    type V = ScopeView;

    closed spec fn view(&self) -> ScopeView {
        ScopeView {
            project_id: self.project_id@,
            stage: self.stage as nat,
            relevant: strings_view(self.relevant@),
            modules: strings_view(self.modules@),
            submodules: strings_view(self.submodules@),
        }
    }
}

/// A query of the collection: its text, and the column of its rows that
/// holds the ids.
pub struct ScopeQuery {
    pub sql: String,
    pub column: &'static str,
}

/// The stage that follows `stage`, skipping the queries that have no ids to ask about.
pub open spec fn next_stage(stage: nat, modules: Seq<Seq<char>>, submodules: Seq<Seq<char>>) -> nat {
    let n = stage + 1;
    if n == 3 && modules.len() == 0 {
        if submodules.len() == 0 {
            5
        } else {
            4
        }
    } else if n == 4 && submodules.len() == 0 {
        5
    } else {
        n
    }
}

/// The collection after the ids of the current query came back.
pub open spec fn scope_after(v: ScopeView, ids: Seq<Seq<char>>) -> ScopeView {
    let modules = if v.stage == 2 {
        ids
    } else {
        v.modules
    };
    let submodules = if v.stage == 3 {
        submodule_ids(ids)
    } else {
        v.submodules
    };
    ScopeView {
        project_id: v.project_id,
        stage: next_stage(v.stage, modules, submodules),
        relevant: v.relevant + ids,
        modules,
        submodules,
    }
}

/// The query of the current stage, if any is left: its text and its column.
pub open spec fn scope_query(v: ScopeView) -> Option<(Seq<char>, Seq<char>)> {
    if v.stage == 0 {
        Some(("SELECT in FROM belongs_to_project WHERE out = "@ + v.project_id, "in"@))
    } else if v.stage == 1 {
        Some(("SELECT out FROM has_todo WHERE in = "@ + v.project_id, "out"@))
    } else if v.stage == 2 {
        Some(("SELECT out FROM contains WHERE in = "@ + v.project_id, "out"@))
    } else if v.stage == 3 {
        Some(("SELECT out FROM contains WHERE in IN ["@ + join_ids(v.modules) + "]"@, "out"@))
    } else if v.stage == 4 {
        Some(("SELECT out FROM contains WHERE in IN ["@ + join_ids(v.submodules) + "]"@, "out"@))
    } else {
        None
    }
}

/// The ids that a column of query rows holds, where they are strings.
pub open spec fn column_ids_spec(rows: Seq<JsonView>, column: Seq<char>) -> Seq<Seq<char>>
    decreases rows.len(),
{
    if rows.len() == 0 {
        Seq::empty()
    } else {
        column_ids_spec(rows.drop_last(), column) + match member_text(rec_members(rows.last()), column) {
            Some(id) => seq![id],
            None => Seq::empty(),
        }
    }
}

/// The ids that a column of query rows holds, where they are strings.
pub fn column_ids(rows: &Vec<Json>, column: &str) -> (r: Vec<String>)
    ensures
        strings_view(r@) == column_ids_spec(values_view(rows@), column@),
{
    let ghost all = values_view(rows@);
    let mut out: Vec<String> = Vec::new();
    let mut k: usize = 0;
    assert(all.take(0) =~= Seq::<JsonView>::empty());
    assert(strings_view(out@) =~= Seq::<Seq<char>>::empty());
    while k < rows.len()
        invariant
            k <= all.len(),
            all == values_view(rows@),
            strings_view(out@) == column_ids_spec(all.take(k as int), column@),
        decreases rows@.len() - k,
    {
        proof {
            assert(all.take(k + 1).drop_last() =~= all.take(k as int));
            assert(all.take(k + 1).last() == all[k as int]);
        }
        match &rows[k] {
            Json::Object(m) => {
                proof {
                    lemma_object_view(*m);
                }
                if let Some(id) = member_text_of(m, column) {
                    let ghost before = out@;
                    out.push(id);
                    assert(strings_view(out@) =~= strings_view(before).push(id@));
                }
            },
            _ => {},
        }
        assert(strings_view(out@) =~= column_ids_spec(all.take(k + 1), column@));
        k = k + 1;
    }
    assert(all.take(k as int) =~= all);
    out
}

fn join_strings(v: &Vec<String>) -> (r: String)
    ensures
        r@ == join_ids(strings_view(v@)),
{
    let ghost sv = strings_view(v@);
    let mut out = String::new();
    let mut i: usize = 0;
    assert(sv.take(0) =~= Seq::<Seq<char>>::empty());
    while i < v.len()
        invariant
            i <= v@.len(),
            sv == strings_view(v@),
            out@ == join_ids(sv.take(i as int)),
        decreases v@.len() - i,
    {
        proof {
            assert(sv.take(i + 1).drop_last() =~= sv.take(i as int));
            assert(sv.take(i + 1).last() == sv[i as int]);
        }
        if i > 0 {
            out.append(", ");
        }
        out.append(v[i].as_str());
        proof {
            if i == 0 {
                assert(out@ =~= join_ids(sv.take(1)));
            }
        }
        i = i + 1;
    }
    assert(sv.take(i as int) =~= sv);
    out
}

fn submodules_of(ids: &Vec<String>) -> (r: Vec<String>)
    ensures
        strings_view(r@) == submodule_ids(strings_view(ids@)),
{
    let ghost sv = strings_view(ids@);
    let mut out: Vec<String> = Vec::new();
    let mut i: usize = 0;
    assert(sv.take(0) =~= Seq::<Seq<char>>::empty());
    assert(strings_view(out@) =~= Seq::<Seq<char>>::empty());
    while i < ids.len()
        invariant
            i <= ids@.len(),
            sv == strings_view(ids@),
            strings_view(out@) == submodule_ids(sv.take(i as int)),
        decreases ids@.len() - i,
    {
        proof {
            assert(sv.take(i + 1).drop_last() =~= sv.take(i as int));
            assert(sv.take(i + 1).last() == sv[i as int]);
        }
        if crate::records::has_table_prefix("submodule", ids[i].as_str()) {
            let ghost before = out@;
            out.push(ids[i].clone());
            assert(strings_view(out@) =~= strings_view(before).push(sv[i as int]));
        }
        assert(strings_view(out@) =~= submodule_ids(sv.take(i + 1)));
        i = i + 1;
    }
    assert(sv.take(i as int) =~= sv);
    out
}

fn clone_all(v: &Vec<String>) -> (r: Vec<String>)
    ensures
        strings_view(r@) == strings_view(v@),
{
    let mut out: Vec<String> = Vec::new();
    let mut i: usize = 0;
    while i < v.len()
        invariant
            i <= v@.len(),
            strings_view(out@) =~= strings_view(v@).take(i as int),
        decreases v@.len() - i,
    {
        let ghost before = out@;
        out.push(v[i].clone());
        assert(strings_view(out@) =~= strings_view(before).push(v@[i as int]@));
        assert(strings_view(v@).take(i + 1) =~= strings_view(v@).take(i as int).push(v@[i as int]@));
        i = i + 1;
    }
    assert(strings_view(v@).take(i as int) =~= strings_view(v@));
    out
}

impl ProjectScope {
    /// The collection never goes past its last stage.
    #[verifier::type_invariant]
    spec fn scope_wf(self) -> bool {
        self.stage <= 5
    }

    /// The collection for the project `project_id`, before any query: the
    /// project itself is in scope.
    pub fn new(project_id: &str) -> (r: ProjectScope)
        ensures
            r@ == (ScopeView {
                project_id: project_id@,
                stage: 0,
                relevant: seq![project_id@],
                modules: Seq::empty(),
                submodules: Seq::empty(),
            }),
    {
        let relevant = vec![owned(project_id)];
        let r = ProjectScope {
            project_id: owned(project_id),
            stage: 0,
            relevant,
            modules: Vec::new(),
            submodules: Vec::new(),
        };
        assert(strings_view(r.relevant@) =~= seq![project_id@]);
        assert(strings_view(r.modules@) =~= Seq::<Seq<char>>::empty());
        assert(strings_view(r.submodules@) =~= Seq::<Seq<char>>::empty());
        r
    }

    /// The next query to make, if any is left.
    pub fn next_query(&self) -> (r: Option<ScopeQuery>)
        ensures
            match scope_query(self@) {
                Some((sql, column)) => r matches Some(q) && q.sql@ == sql && q.column@ == column,
                None => r is None,
            },
    {
        proof {
            use_type_invariant(self);
        }
        if self.stage == 0 {
            Some(ScopeQuery { sql: concat("SELECT in FROM belongs_to_project WHERE out = ", self.project_id.as_str()), column: "in" })
        } else if self.stage == 1 {
            Some(ScopeQuery { sql: concat("SELECT out FROM has_todo WHERE in = ", self.project_id.as_str()), column: "out" })
        } else if self.stage == 2 {
            Some(ScopeQuery { sql: concat("SELECT out FROM contains WHERE in = ", self.project_id.as_str()), column: "out" })
        } else if self.stage == 3 || self.stage == 4 {
            let list = if self.stage == 3 {
                join_strings(&self.modules)
            } else {
                join_strings(&self.submodules)
            };
            let mut sql = concat("SELECT out FROM contains WHERE in IN [", list.as_str());
            sql.append("]");
            Some(ScopeQuery { sql, column: "out" })
        } else {
            None
        }
    }

    /// Takes in the ids that the current query gave.
    pub fn record(&mut self, ids: Vec<String>)
        requires
            old(self)@.stage < 5,
        ensures
            final(self)@ == scope_after(old(self)@, strings_view(ids@)),
    {
        let ghost old_rel = strings_view(self.relevant@);
        if self.stage == 2 {
            self.modules = clone_all(&ids);
        }
        if self.stage == 3 {
            self.submodules = submodules_of(&ids);
        }
        let mut next: u8 = self.stage + 1;
        if next == 3 && self.modules.len() == 0 {
            next = 4;
        }
        if next == 4 && self.submodules.len() == 0 {
            next = 5;
        }
        self.stage = next;
        let mut more = ids;
        let mut rel: Vec<String> = Vec::new();
        std::mem::swap(&mut rel, &mut self.relevant);
        rel.append(&mut more);
        self.relevant = rel;
        assert(strings_view(self.relevant@) =~= old_rel + strings_view(ids@));
    }

    /// Whether every query was made.
    pub fn is_done(&self) -> (r: bool)
        ensures
            r == (self@.stage >= 5),
            self@.stage <= 5,
    {
        proof {
            use_type_invariant(self);
        }
        self.stage >= 5
    }

    /// The ids of the records in scope so far.
    pub fn relevant(&self) -> (r: &Vec<String>)
        ensures
            strings_view(r@) == self@.relevant,
    {
        &self.relevant
    }
}

/// The project itself stays in scope whatever the queries give, and the
/// collection ends after five queries at most.
pub proof fn lemma_scope_keeps_project(v: ScopeView, ids: Seq<Seq<char>>)
    requires
        v.stage < 5,
        v.relevant.len() > 0,
        v.relevant[0] == v.project_id,
    ensures
        scope_after(v, ids).relevant[0] == v.project_id,
        scope_after(v, ids).project_id == v.project_id,
        v.stage < scope_after(v, ids).stage <= 5,
{
}

/// A run of the collection: each answer is taken in while queries are left.
pub open spec fn scope_run(v: ScopeView, answers: Seq<Seq<Seq<char>>>) -> ScopeView
    decreases answers.len(),
{
    if answers.len() == 0 || v.stage >= 5 {
        v
    } else {
        scope_run(scope_after(v, answers[0]), answers.drop_first())
    }
}

/// How many of the answers a run takes in.
pub open spec fn scope_taken(v: ScopeView, answers: Seq<Seq<Seq<char>>>) -> nat
    decreases answers.len(),
{
    if answers.len() == 0 || v.stage >= 5 {
        0
    } else {
        1 + scope_taken(scope_after(v, answers[0]), answers.drop_first())
    }
}

proof fn lemma_scope_run_from(v: ScopeView, answers: Seq<Seq<Seq<char>>>)
    requires
        v.stage <= 5,
    ensures
        scope_taken(v, answers) <= answers.len(),
        scope_taken(v, answers) + v.stage <= 5,
        scope_run(v, answers).relevant == v.relevant + answers.take(scope_taken(v, answers) as int).flatten(),
        scope_run(v, answers).project_id == v.project_id,
        scope_run(v, answers).stage <= 5,
        scope_run(v, answers).stage == 5 || scope_taken(v, answers) == answers.len(),
        scope_run(v, answers).stage >= v.stage + scope_taken(v, answers),
    decreases answers.len(),
{
    if answers.len() == 0 || v.stage >= 5 {
        assert(answers.take(0) =~= Seq::<Seq<Seq<char>>>::empty());
        assert(v.relevant + Seq::<Seq<char>>::empty() =~= v.relevant);
    } else {
        let w = scope_after(v, answers[0]);
        let rest = answers.drop_first();
        lemma_scope_run_from(w, rest);
        let k = scope_taken(w, rest);
        let taken = answers.take((k + 1) as int);
        assert(taken.first() == answers[0]);
        assert(taken.drop_first() =~= rest.take(k as int));
        assert(taken.flatten() == answers[0] + rest.take(k as int).flatten());
        assert(v.relevant + answers[0] + rest.take(k as int).flatten() =~= v.relevant + (answers[0]
            + rest.take(k as int).flatten()));
    }
}

/// A run of the collection for a project, whatever the store answers: the
/// project comes first, then exactly the ids of each query that was made,
/// in order; at most five queries are made, and once five answers came
/// back the collection is complete.
pub proof fn lemma_scope_run(project_id: Seq<char>, answers: Seq<Seq<Seq<char>>>)
    ensures
        ({
            let start = ScopeView {
                project_id,
                stage: 0,
                relevant: seq![project_id],
                modules: Seq::empty(),
                submodules: Seq::empty(),
            };
            let n = scope_taken(start, answers);
            &&& n <= 5
            &&& n <= answers.len()
            &&& scope_run(start, answers).relevant == seq![project_id] + answers.take(n as int).flatten()
            &&& answers.len() >= 5 ==> scope_run(start, answers).stage == 5
        }),
{
    let start = ScopeView {
        project_id,
        stage: 0,
        relevant: seq![project_id],
        modules: Seq::empty(),
        submodules: Seq::empty(),
    };
    lemma_scope_run_from(start, answers);
}

// ---------------------------------------------------------------------------
// Laws of the graph
// ---------------------------------------------------------------------------

/// An element that is an edge between two nodes whose ids are among `ids`.
pub open spec fn joins_nodes(e: JsonView, ids: Seq<Seq<char>>) -> bool {
    exists|t: Seq<char>, s: Seq<char>, u: Seq<char>|
        #[trigger] edge_element(t, s, u) == e && s.len() > 0 && u.len() > 0 && ids.contains(s) && ids.contains(u)
}

proof fn lemma_table_edges_join(table: Seq<char>, rows: Seq<JsonView>, ids: Seq<Seq<char>>)
    ensures
        forall|k: int| 0 <= k < table_edges(table, rows, ids).len() ==> joins_nodes(#[trigger] table_edges(table, rows, ids)[k], ids),
    decreases rows.len(),
{
    if rows.len() > 0 {
        lemma_table_edges_join(table, rows.drop_last(), ids);
        let row = rows.last();
        let prev = table_edges(table, rows.drop_last(), ids);
        let all = table_edges(table, rows, ids);
        assert forall|k: int| 0 <= k < all.len() implies joins_nodes(#[trigger] all[k], ids) by {
            if k < prev.len() {
                assert(all[k] == prev[k]);
            } else {
                let s = rec_text(row, "in"@);
                let u = rec_text(row, "out"@);
                assert(all[k] == edge_element(table, s, u));
            }
        }
    }
}

/// No edge dangles: every edge of the graph joins two nodes of it.
pub proof fn lemma_edges_join_nodes(
    recs: Seq<Seq<JsonView>>,
    rows: Seq<Seq<JsonView>>,
    scope: Option<Seq<Seq<char>>>,
    n: int,
)
    requires
        0 <= n <= 16,
    ensures
        forall|k: int|
            0 <= k < edges_upto(rows, ids_upto(recs, scope, 11), n).len() ==> joins_nodes(
                #[trigger] edges_upto(rows, ids_upto(recs, scope, 11), n)[k],
                ids_upto(recs, scope, 11),
            ),
    decreases n,
{
    let ids = ids_upto(recs, scope, 11);
    if n > 0 {
        lemma_edges_join_nodes(recs, rows, scope, n - 1);
        lemma_table_edges_join(edge_tables_spec()[n - 1], rows[n - 1], ids);
        let prev = edges_upto(rows, ids, n - 1);
        let last = table_edges(edge_tables_spec()[n - 1], rows[n - 1], ids);
        let all = edges_upto(rows, ids, n);
        assert forall|k: int| 0 <= k < all.len() implies joins_nodes(#[trigger] all[k], ids) by {
            if k < prev.len() {
                assert(all[k] == prev[k]);
            } else {
                assert(all[k] == last[k - prev.len()]);
            }
        }
    }
}


/// The data of a graph element (nothing where it has none).
pub open spec fn data_of(e: JsonView) -> Seq<(Seq<char>, JsonView)> {
    match e {
        JsonView::Object(m) => match member(m, "data"@) {
            Some(JsonView::Object(d)) => d,
            _ => Seq::empty(),
        },
        _ => Seq::empty(),
    }
}

/// The `data.id` of a graph element, where it is a string.
pub open spec fn data_id(e: JsonView) -> Option<Seq<char>> {
    member_text(data_of(e), "id"@)
}

/// The elements of a graph document.
pub open spec fn elements_of(g: JsonView) -> Seq<JsonView> {
    match g {
        JsonView::Object(m) => match member(m, "elements"@) {
            Some(JsonView::Array(a)) => a,
            _ => Seq::empty(),
        },
        _ => Seq::empty(),
    }
}

proof fn lemma_contains_concat<A>(a: Seq<A>, b: Seq<A>, x: A)
    ensures
        (a.contains(x) || b.contains(x)) ==> (a + b).contains(x),
{
    if a.contains(x) {
        let j = choose|j: int| 0 <= j < a.len() && a[j] == x;
        assert((a + b)[j] == x);
    } else if b.contains(x) {
        let j = choose|j: int| 0 <= j < b.len() && b[j] == x;
        assert((a + b)[a.len() + j] == x);
    }
}

proof fn lemma_extra_members_prefix(acc: Seq<(Seq<char>, JsonView)>, rest: Seq<(Seq<char>, JsonView)>)
    ensures
        extra_members(acc, rest).len() >= acc.len(),
        forall|i: int| 0 <= i < acc.len() ==> #[trigger] extra_members(acc, rest)[i] == acc[i],
    decreases rest.len(),
{
    if rest.len() > 0 {
        let e = rest[0];
        let acc2 = if e.0 != "id"@ && member(acc, e.0) is None {
            acc.push(e)
        } else {
            acc
        };
        lemma_extra_members_prefix(acc2, rest.drop_first());
        assert forall|i: int| 0 <= i < acc.len() implies #[trigger] extra_members(acc, rest)[i] == acc[i] by {
            assert(acc2[i] == acc[i]);
        }
    }
}

/// The `data.id` of a node is the id of its record.
proof fn lemma_node_id(table: Seq<char>, label_field: Seq<char>, v: JsonView)
    ensures
        data_id(element(node_data(table, label_field, v))) == Some(rec_text(v, "id"@)),
{
    let acc = seq![
        ("id"@, JsonView::Str(rec_text(v, "id"@))),
        ("label"@, JsonView::Str(rec_label(v, label_field))),
        ("node_type"@, JsonView::Str(table)),
    ];
    lemma_extra_members_prefix(acc, rec_members(v));
    let d = node_data(table, label_field, v);
    assert(d[0] == acc[0]);
    let m = seq![("data"@, JsonView::Object(d))];
    assert(m[0].0 == "data"@);
    assert(data_of(element(d)) == d);
}

/// The nodes of a table line up with its ids: node `k` has id `k`.
proof fn lemma_table_nodes_ids(table: Seq<char>, label_field: Seq<char>, recs: Seq<JsonView>, scope: Option<Seq<Seq<char>>>)
    ensures
        table_nodes(table, label_field, recs, scope).len() == table_ids(recs, scope).len(),
        forall|k: int|
            0 <= k < table_ids(recs, scope).len() ==> data_id(#[trigger] table_nodes(table, label_field, recs, scope)[k])
                == Some(table_ids(recs, scope)[k]),
    decreases recs.len(),
{
    if recs.len() > 0 {
        let v = recs.last();
        lemma_table_nodes_ids(table, label_field, recs.drop_last(), scope);
        lemma_node_id(table, label_field, v);
        let pn = table_nodes(table, label_field, recs.drop_last(), scope);
        let pi = table_ids(recs.drop_last(), scope);
        let an = table_nodes(table, label_field, recs, scope);
        let ai = table_ids(recs, scope);
        assert forall|k: int| 0 <= k < ai.len() implies data_id(#[trigger] an[k]) == Some(ai[k]) by {
            if k < pi.len() {
                assert(an[k] == pn[k]);
                assert(ai[k] == pi[k]);
            }
        }
    }
}

/// The nodes of the first `n` tables line up with their ids.
proof fn lemma_nodes_ids(recs: Seq<Seq<JsonView>>, scope: Option<Seq<Seq<char>>>, n: int)
    requires
        0 <= n <= 11,
    ensures
        nodes_upto(recs, scope, n).len() == ids_upto(recs, scope, n).len(),
        forall|k: int|
            0 <= k < ids_upto(recs, scope, n).len() ==> data_id(#[trigger] nodes_upto(recs, scope, n)[k]) == Some(
                ids_upto(recs, scope, n)[k],
            ),
    decreases n,
{
    if n > 0 {
        lemma_nodes_ids(recs, scope, n - 1);
        let t = node_tables_spec()[n - 1];
        lemma_table_nodes_ids(t.0, t.1, recs[n - 1], scope);
        let pn = nodes_upto(recs, scope, n - 1);
        let pi = ids_upto(recs, scope, n - 1);
        let tn = table_nodes(t.0, t.1, recs[n - 1], scope);
        let ti = table_ids(recs[n - 1], scope);
        let an = nodes_upto(recs, scope, n);
        let ai = ids_upto(recs, scope, n);
        assert forall|k: int| 0 <= k < ai.len() implies data_id(#[trigger] an[k]) == Some(ai[k]) by {
            if k < pi.len() {
                assert(an[k] == pn[k]);
                assert(ai[k] == pi[k]);
            } else {
                assert(an[k] == tn[k - pn.len()]);
                assert(ai[k] == ti[k - pi.len()]);
            }
        }
    }
}

proof fn lemma_table_nodes_sub(table: Seq<char>, label_field: Seq<char>, recs: Seq<JsonView>, s: Seq<Seq<char>>)
    ensures
        forall|k: int|
            0 <= k < table_nodes(table, label_field, recs, Some(s)).len() ==> table_nodes(table, label_field, recs, None).contains(
                #[trigger] table_nodes(table, label_field, recs, Some(s))[k],
            ),
    decreases recs.len(),
{
    if recs.len() > 0 {
        let v = recs.last();
        lemma_table_nodes_sub(table, label_field, recs.drop_last(), s);
        let p = table_nodes(table, label_field, recs.drop_last(), Some(s));
        let pw = table_nodes(table, label_field, recs.drop_last(), None);
        let a = table_nodes(table, label_field, recs, Some(s));
        let aw = table_nodes(table, label_field, recs, None);
        let e = element(node_data(table, label_field, v));
        assert(aw == pw + seq![e]);
        assert forall|k: int| 0 <= k < a.len() implies aw.contains(#[trigger] a[k]) by {
            if k < p.len() {
                assert(a[k] == p[k]);
                lemma_contains_concat(pw, seq![e], p[k]);
            } else {
                assert(a[k] == e);
                assert(aw[aw.len() - 1] == e);
            }
        }
    }
}

proof fn lemma_nodes_sub(recs: Seq<Seq<JsonView>>, s: Seq<Seq<char>>, n: int)
    requires
        0 <= n <= 11,
    ensures
        forall|k: int|
            0 <= k < nodes_upto(recs, Some(s), n).len() ==> nodes_upto(recs, None, n).contains(
                #[trigger] nodes_upto(recs, Some(s), n)[k],
            ),
    decreases n,
{
    if n > 0 {
        lemma_nodes_sub(recs, s, n - 1);
        let t = node_tables_spec()[n - 1];
        lemma_table_nodes_sub(t.0, t.1, recs[n - 1], s);
        let p = nodes_upto(recs, Some(s), n - 1);
        let pw = nodes_upto(recs, None, n - 1);
        let tn = table_nodes(t.0, t.1, recs[n - 1], Some(s));
        let tw = table_nodes(t.0, t.1, recs[n - 1], None);
        let a = nodes_upto(recs, Some(s), n);
        assert forall|k: int| 0 <= k < a.len() implies nodes_upto(recs, None, n).contains(#[trigger] a[k]) by {
            if k < p.len() {
                assert(a[k] == p[k]);
                lemma_contains_concat(pw, tw, p[k]);
            } else {
                assert(a[k] == tn[k - p.len()]);
                lemma_contains_concat(pw, tw, tn[k - p.len()]);
            }
        }
    }
}

proof fn lemma_table_ids_sub(recs: Seq<JsonView>, s: Seq<Seq<char>>)
    ensures
        forall|x: Seq<char>| table_ids(recs, Some(s)).contains(x) ==> #[trigger] table_ids(recs, None).contains(x),
    decreases recs.len(),
{
    if recs.len() > 0 {
        lemma_table_ids_sub(recs.drop_last(), s);
        let id = rec_text(recs.last(), "id"@);
        let p = table_ids(recs.drop_last(), Some(s));
        let pw = table_ids(recs.drop_last(), None);
        let extra = if in_scope(Some(s), id) {
            seq![id]
        } else {
            Seq::empty()
        };
        assert forall|x: Seq<char>| table_ids(recs, Some(s)).contains(x) implies #[trigger] table_ids(recs, None).contains(
            x,
        ) by {
            let a = table_ids(recs, Some(s));
            let j = choose|j: int| 0 <= j < a.len() && a[j] == x;
            if j < p.len() {
                assert(a[j] == p[j]);
                assert(p.contains(x));
                lemma_contains_concat(pw, seq![id], x);
            } else {
                assert(a[j] == extra[j - p.len()]);
                assert(seq![id][0] == x);
                lemma_contains_concat(pw, seq![id], x);
            }
        }
    }
}

proof fn lemma_ids_sub(recs: Seq<Seq<JsonView>>, s: Seq<Seq<char>>, n: int)
    requires
        0 <= n <= 11,
    ensures
        forall|x: Seq<char>| ids_upto(recs, Some(s), n).contains(x) ==> #[trigger] ids_upto(recs, None, n).contains(x),
    decreases n,
{
    if n > 0 {
        lemma_ids_sub(recs, s, n - 1);
        lemma_table_ids_sub(recs[n - 1], s);
        let p = ids_upto(recs, Some(s), n - 1);
        let pw = ids_upto(recs, None, n - 1);
        let t = table_ids(recs[n - 1], Some(s));
        let tw = table_ids(recs[n - 1], None);
        assert forall|x: Seq<char>| ids_upto(recs, Some(s), n).contains(x) implies #[trigger] ids_upto(
            recs,
            None,
            n,
        ).contains(x) by {
            let a = ids_upto(recs, Some(s), n);
            let j = choose|j: int| 0 <= j < a.len() && a[j] == x;
            if j < p.len() {
                assert(a[j] == p[j]);
                assert(p.contains(x));
            } else {
                assert(a[j] == t[j - p.len()]);
                assert(t.contains(x));
            }
            lemma_contains_concat(pw, tw, x);
        }
    }
}

proof fn lemma_table_edges_sub(table: Seq<char>, rows: Seq<JsonView>, ids: Seq<Seq<char>>, more: Seq<Seq<char>>)
    requires
        forall|x: Seq<char>| ids.contains(x) ==> #[trigger] more.contains(x),
    ensures
        forall|k: int|
            0 <= k < table_edges(table, rows, ids).len() ==> table_edges(table, rows, more).contains(
                #[trigger] table_edges(table, rows, ids)[k],
            ),
    decreases rows.len(),
{
    if rows.len() > 0 {
        lemma_table_edges_sub(table, rows.drop_last(), ids, more);
        let row = rows.last();
        let p = table_edges(table, rows.drop_last(), ids);
        let pw = table_edges(table, rows.drop_last(), more);
        let a = table_edges(table, rows, ids);
        let aw = table_edges(table, rows, more);
        let e = edge_element(table, rec_text(row, "in"@), rec_text(row, "out"@));
        assert forall|k: int| 0 <= k < a.len() implies aw.contains(#[trigger] a[k]) by {
            if k < p.len() {
                assert(a[k] == p[k]);
                let ex = if edge_kept(row, more) {
                    seq![e]
                } else {
                    Seq::empty()
                };
                assert(aw == pw + ex);
                lemma_contains_concat(pw, ex, p[k]);
            } else {
                assert(edge_kept(row, ids));
                assert(edge_kept(row, more));
                assert(a[k] == e);
                assert(aw[aw.len() - 1] == e);
            }
        }
    }
}

proof fn lemma_edges_sub(rows: Seq<Seq<JsonView>>, ids: Seq<Seq<char>>, more: Seq<Seq<char>>, n: int)
    requires
        0 <= n <= 16,
        forall|x: Seq<char>| ids.contains(x) ==> #[trigger] more.contains(x),
    ensures
        forall|k: int|
            0 <= k < edges_upto(rows, ids, n).len() ==> edges_upto(rows, more, n).contains(
                #[trigger] edges_upto(rows, ids, n)[k],
            ),
    decreases n,
{
    if n > 0 {
        lemma_edges_sub(rows, ids, more, n - 1);
        let t = edge_tables_spec()[n - 1];
        lemma_table_edges_sub(t, rows[n - 1], ids, more);
        let p = edges_upto(rows, ids, n - 1);
        let pw = edges_upto(rows, more, n - 1);
        let te = table_edges(t, rows[n - 1], ids);
        let tw = table_edges(t, rows[n - 1], more);
        let a = edges_upto(rows, ids, n);
        assert forall|k: int| 0 <= k < a.len() implies edges_upto(rows, more, n).contains(#[trigger] a[k]) by {
            if k < p.len() {
                assert(a[k] == p[k]);
                lemma_contains_concat(pw, tw, p[k]);
            } else {
                assert(a[k] == te[k - p.len()]);
                lemma_contains_concat(pw, tw, te[k - p.len()]);
            }
        }
    }
}

/// The graph of a project is part of the whole graph: every element of the
/// graph restricted to the records `s` is an element of the graph of all
/// records, from the same records and relation rows.
pub proof fn lemma_project_graph_in_whole(recs: Seq<Seq<JsonView>>, rows: Seq<Seq<JsonView>>, s: Seq<Seq<char>>)
    ensures
        forall|k: int|
            0 <= k < elements_of(graph_spec(recs, rows, Some(s))).len() ==> elements_of(
                graph_spec(recs, rows, None),
            ).contains(#[trigger] elements_of(graph_spec(recs, rows, Some(s)))[k]),
{
    let ids = ids_upto(recs, Some(s), 11);
    let idw = ids_upto(recs, None, 11);
    let ns = nodes_upto(recs, Some(s), 11);
    let nw = nodes_upto(recs, None, 11);
    let es = edges_upto(rows, ids, 16);
    let ew = edges_upto(rows, idw, 16);
    lemma_nodes_sub(recs, s, 11);
    lemma_ids_sub(recs, s, 11);
    lemma_edges_sub(rows, ids, idw, 16);
    let gs = graph_spec(recs, rows, Some(s));
    let gw = graph_spec(recs, rows, None);
    assert(elements_of(gs) == ns + es);
    assert(elements_of(gw) == nw + ew);
    assert forall|k: int| 0 <= k < (ns + es).len() implies (nw + ew).contains(#[trigger] (ns + es)[k]) by {
        if k < ns.len() {
            assert((ns + es)[k] == ns[k]);
            lemma_contains_concat(nw, ew, ns[k]);
        } else {
            assert((ns + es)[k] == es[k - ns.len()]);
            lemma_contains_concat(nw, ew, es[k - ns.len()]);
        }
    }
}

/// Every edge of a graph, whole or of one project, runs between two of its
/// nodes: its source and its target are the `data.id` of node elements of
/// the same graph.
pub proof fn lemma_edges_end_at_nodes(
    recs: Seq<Seq<JsonView>>,
    rows: Seq<Seq<JsonView>>,
    scope: Option<Seq<Seq<char>>>,
)
    ensures
        elements_of(graph_spec(recs, rows, scope)) == nodes_upto(recs, scope, 11) + edges_upto(
            rows,
            ids_upto(recs, scope, 11),
            16,
        ),
        forall|k: int|
            0 <= k < edges_upto(rows, ids_upto(recs, scope, 11), 16).len() ==> exists|
                t: Seq<char>,
                src: Seq<char>,
                tgt: Seq<char>,
                i: int,
                j: int,
            |
                #![trigger edge_element(t, src, tgt), nodes_upto(recs, scope, 11)[i], nodes_upto(recs, scope, 11)[j]]
                #[trigger] edges_upto(rows, ids_upto(recs, scope, 11), 16)[k] == edge_element(t, src, tgt) && 0 <= i
                    < nodes_upto(recs, scope, 11).len() && 0 <= j < nodes_upto(recs, scope, 11).len() && data_id(
                    nodes_upto(recs, scope, 11)[i],
                ) == Some(src) && data_id(nodes_upto(recs, scope, 11)[j]) == Some(tgt),
{
    let ids = ids_upto(recs, scope, 11);
    let ns = nodes_upto(recs, scope, 11);
    let es = edges_upto(rows, ids, 16);
    lemma_edges_join_nodes(recs, rows, scope, 16);
    lemma_nodes_ids(recs, scope, 11);
    assert forall|k: int| 0 <= k < es.len() implies exists|
        t: Seq<char>,
        src: Seq<char>,
        tgt: Seq<char>,
        i: int,
        j: int,
    |
        #![trigger edge_element(t, src, tgt), ns[i], ns[j]]
        #[trigger] es[k] == edge_element(t, src, tgt) && 0 <= i < ns.len() && 0 <= j < ns.len() && data_id(ns[i])
            == Some(src) && data_id(ns[j]) == Some(tgt) by {
        assert(joins_nodes(es[k], ids));
        let (t, src, tgt) = choose|t: Seq<char>, src: Seq<char>, tgt: Seq<char>|
            #[trigger] edge_element(t, src, tgt) == es[k] && src.len() > 0 && tgt.len() > 0 && ids.contains(src)
                && ids.contains(tgt);
        let i = choose|i: int| 0 <= i < ids.len() && ids[i] == src;
        let j = choose|j: int| 0 <= j < ids.len() && ids[j] == tgt;
        assert(data_id(ns[i]) == Some(ids[i]));
        assert(data_id(ns[j]) == Some(ids[j]));
    }
}

} // verus!
