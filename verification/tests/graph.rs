use dunno::graph::{column_ids, graph_elements, node_tables, edge_tables, ProjectScope};
use dunno::json::Json;

fn text(s: &str) -> Json {
    Json::Str(s.to_string())
}

fn obj(members: Vec<(&str, Json)>) -> Json {
    Json::Object(members.into_iter().map(|(k, v)| (k.to_string(), v)).collect())
}

fn get<'a>(v: &'a Json, key: &str) -> Option<&'a Json> {
    match v {
        Json::Object(m) => m.iter().find(|(k, _)| k == key).map(|(_, v)| v),
        _ => None,
    }
}

fn get_text<'a>(v: &'a Json, key: &str) -> Option<&'a str> {
    match get(v, key) {
        Some(Json::Str(s)) => Some(s.as_str()),
        _ => None,
    }
}

fn elements(graph: &Json) -> &Vec<Json> {
    match get(graph, "elements") {
        Some(Json::Array(a)) => a,
        _ => panic!("no elements"),
    }
}

fn data(e: &Json) -> &Json {
    get(e, "data").expect("data")
}

fn sample() -> (Vec<Vec<Json>>, Vec<Vec<Json>>) {
    let mut records: Vec<Vec<Json>> = (0..11).map(|_| Vec::new()).collect();
    records[0].push(obj(vec![("id", text("project:p")), ("name", text("Proj")), ("description", text("d"))]));
    records[1].push(obj(vec![("id", text("module:m")), ("name", text("Core")), ("label", text("ignored"))]));
    records[4].push(obj(vec![("id", text("task:t")), ("status", text("started"))]));
    records[5].push(obj(vec![("id", text("todo_item:x")), ("content", text("Buy milk"))]));
    let mut rows: Vec<Vec<Json>> = (0..16).map(|_| Vec::new()).collect();
    rows[0].push(obj(vec![("in", text("project:p")), ("out", text("module:m"))]));
    rows[0].push(obj(vec![("in", text("project:p")), ("out", text("module:gone"))]));
    rows[1].push(obj(vec![("in", text("module:m")), ("out", text("task:t"))]));
    rows[6].push(obj(vec![("in", text("project:p")), ("out", text("todo_item:x"))]));
    rows[6].push(obj(vec![("in", text("")), ("out", text("todo_item:x"))]));
    (records, rows)
}

#[test]
fn graph_has_nodes_then_edges_between_nodes() {
    let (records, rows) = sample();
    let graph = graph_elements(records, &rows, None);
    let els = elements(&graph);
    assert_eq!(els.len(), 4 + 3);
    let p = data(&els[0]);
    assert_eq!(get_text(p, "id"), Some("project:p"));
    assert_eq!(get_text(p, "label"), Some("Proj"));
    assert_eq!(get_text(p, "node_type"), Some("project"));
    assert_eq!(get_text(p, "description"), Some("d"));
    let m = data(&els[1]);
    assert_eq!(get_text(m, "label"), Some("Core"));
    // The computed label wins over a member of the same name.
    if let Json::Object(members) = m {
        assert_eq!(members.iter().filter(|(k, _)| k == "label").count(), 1);
    }
    let t = data(&els[2]);
    assert_eq!(get_text(t, "label"), Some("task:t"), "no name: the id labels the node");
    assert_eq!(get_text(data(&els[3]), "label"), Some("Buy milk"));
    let e = data(&els[4]);
    assert_eq!(get_text(e, "id"), Some("contains_project:p_module:m"));
    assert_eq!(get_text(e, "source"), Some("project:p"));
    assert_eq!(get_text(e, "target"), Some("module:m"));
    assert_eq!(get_text(e, "edge_type"), Some("contains"));
    assert_eq!(get_text(data(&els[5]), "edge_type"), Some("has_task"));
    assert_eq!(get_text(data(&els[6]), "edge_type"), Some("has_todo"));
}

#[test]
fn graph_in_scope_keeps_only_relevant_records() {
    let (records, rows) = sample();
    let scope = vec!["project:p".to_string(), "task:t".to_string()];
    let graph = graph_elements(records, &rows, Some(&scope));
    let els = elements(&graph);
    assert_eq!(els.len(), 2, "two nodes and no edge between them");
    assert_eq!(get_text(data(&els[0]), "id"), Some("project:p"));
    assert_eq!(get_text(data(&els[1]), "id"), Some("task:t"));
}

#[test]
fn table_lists_match_the_store() {
    assert_eq!(node_tables().len(), 11);
    assert_eq!(node_tables()[5], ("todo_item", "content"));
    assert_eq!(edge_tables().len(), 16);
    assert_eq!(edge_tables()[0], "contains");
}

#[test]
fn project_scope_walks_the_structure() {
    let mut scope = ProjectScope::new("project:p");
    let q = scope.next_query().unwrap();
    assert_eq!(q.sql, "SELECT in FROM belongs_to_project WHERE out = project:p");
    assert_eq!(q.column, "in");
    scope.record(vec!["task:t".to_string()]);
    let q = scope.next_query().unwrap();
    assert_eq!(q.sql, "SELECT out FROM has_todo WHERE in = project:p");
    scope.record(vec![]);
    let q = scope.next_query().unwrap();
    assert_eq!(q.sql, "SELECT out FROM contains WHERE in = project:p");
    scope.record(vec!["module:a".to_string(), "module:b".to_string()]);
    let q = scope.next_query().unwrap();
    assert_eq!(q.sql, "SELECT out FROM contains WHERE in IN [module:a, module:b]");
    scope.record(vec!["submodule:s".to_string(), "file:f".to_string()]);
    let q = scope.next_query().unwrap();
    assert_eq!(q.sql, "SELECT out FROM contains WHERE in IN [submodule:s]");
    scope.record(vec!["file:g".to_string()]);
    assert!(scope.is_done());
    assert!(scope.next_query().is_none());
    assert_eq!(
        scope.relevant(),
        &vec![
            "project:p".to_string(),
            "task:t".to_string(),
            "module:a".to_string(),
            "module:b".to_string(),
            "submodule:s".to_string(),
            "file:f".to_string(),
            "file:g".to_string()
        ]
    );
}

#[test]
fn project_scope_skips_empty_levels() {
    let mut scope = ProjectScope::new("project:p");
    scope.record(vec![]);
    scope.record(vec![]);
    scope.record(vec![]);
    assert!(scope.is_done());
    let mut scope = ProjectScope::new("project:p");
    scope.record(vec![]);
    scope.record(vec![]);
    scope.record(vec!["module:a".to_string()]);
    scope.record(vec!["file:only".to_string()]);
    assert!(scope.is_done(), "no submodule under the modules: no last query");
}

#[test]
fn column_ids_take_string_ids() {
    let rows = vec![
        obj(vec![("out", text("module:a"))]),
        obj(vec![("out", Json::Null)]),
        obj(vec![("in", text("x"))]),
        text("not a row"),
        obj(vec![("out", text("module:b"))]),
    ];
    assert_eq!(column_ids(&rows, "out"), vec!["module:a".to_string(), "module:b".to_string()]);
}

#[test]
fn project_graph_is_part_of_the_whole_graph() {
    let (records, rows) = sample();
    let whole = graph_elements(records, &rows, None);
    let (records, rows) = sample();
    let scope = vec!["project:p".to_string(), "module:m".to_string()];
    let part = graph_elements(records, &rows, Some(&scope));
    let part_els = elements(&part);
    assert_eq!(part_els.len(), 3);
    for e in part_els {
        assert!(elements(&whole).contains(e));
    }
    let node_ids: Vec<&str> = part_els.iter().filter_map(|e| get_text(data(e), "node_type").and(get_text(data(e), "id"))).collect();
    for e in part_els {
        if let Some(src) = get_text(data(e), "source") {
            assert!(node_ids.contains(&src));
            assert!(node_ids.contains(&get_text(data(e), "target").unwrap()));
        }
    }
}
