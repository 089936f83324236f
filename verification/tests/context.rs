use dunno::context::flatten_context_result;
use dunno::json::Json;

fn text(s: &str) -> Json {
    Json::Str(s.to_string())
}

fn obj(members: Vec<(&str, Json)>) -> Json {
    Json::Object(members.into_iter().map(|(k, v)| (k.to_string(), v)).collect())
}

fn get<'a>(v: &'a Json, key: &str) -> Option<&'a Json> {
    match v {
        Json::Object(m) => m.iter().find(|(k, _)| k == key).map(|(_, v)| v),
        _ => None,
    }
}

fn get_text<'a>(v: &'a Json, key: &str) -> Option<&'a str> {
    match get(v, key) {
        Some(Json::Str(s)) => Some(s.as_str()),
        _ => None,
    }
}

#[test]
fn test_flatten_context_result_unified() {
    let raw = Json::Array(vec![
        obj(vec![(
            "context",
            Json::Array(vec![Json::Array(vec![obj(vec![
                ("id", text("context:1")),
                ("type", text("mistake")),
                ("content", text("Avoid unwrap")),
            ])])]),
        )]),
        obj(vec![(
            "context",
            Json::Array(vec![Json::Array(vec![obj(vec![
                ("id", text("context:2")),
                ("type", text("style_rule")),
                ("description", text("Use match")),
                ("example", text("match x {}")),
            ])])]),
        )]),
        obj(vec![(
            "context",
            Json::Array(vec![Json::Array(vec![obj(vec![
                ("id", text("context:1")),
                ("type", text("mistake")),
                ("content", text("Avoid unwrap")),
            ])])]),
        )]),
    ]);
    let nodes = flatten_context_result(raw);
    assert_eq!(nodes.len(), 2, "dedup by id should yield 2 unique nodes");
    let mistake_node = nodes
        .iter()
        .find(|n| get_text(n, "node_type") == Some("mistake"))
        .expect("one mistake node");
    assert_eq!(get_text(mistake_node, "content"), Some("Avoid unwrap"));
    assert_eq!(get_text(mistake_node, "id"), Some("context:1"));
    let style_node = nodes
        .iter()
        .find(|n| get_text(n, "node_type") == Some("style_rule"))
        .expect("one style_rule node");
    assert_eq!(get_text(style_node, "description"), Some("Use match"));
    assert_eq!(get_text(style_node, "id"), Some("context:2"));
}

#[test]
fn flatten_orders_by_id_keeps_first_and_tags_untyped_entries() {
    let raw = Json::Array(vec![
        obj(vec![
            ("other", Json::Array(vec![obj(vec![("id", text("context:0"))])])),
            (
                "has_context",
                Json::Array(vec![
                    obj(vec![("id", text("context:9")), ("content", text("first"))]),
                    obj(vec![("id", text("context:3")), ("type", Json::Number("1".to_string()))]),
                    Json::Null,
                ]),
            ),
        ]),
        obj(vec![(
            "context",
            Json::Array(vec![Json::Array(vec![
                obj(vec![("id", text("context:9")), ("content", text("second"))]),
                text("not an object"),
            ])]),
        )]),
        text("not a level"),
    ]);
    let nodes = flatten_context_result(raw);
    assert_eq!(nodes.len(), 2);
    assert_eq!(get_text(&nodes[0], "id"), Some("context:3"));
    assert_eq!(get_text(&nodes[0], "node_type"), Some("context"));
    assert_eq!(get_text(&nodes[1], "id"), Some("context:9"));
    assert_eq!(get_text(&nodes[1], "content"), Some("first"));
    assert_eq!(get_text(&nodes[1], "node_type"), Some("context"));
    assert!(flatten_context_result(obj(vec![])).is_empty());
}
