use dunno::json::Json;
use dunno::api::{deletion_answer, failure_answer, link_answer, asset_next, asset_path, dispatch, routes, split_segments, AssetStep, Dispatch, Method};

#[test]
fn requests_reach_their_handlers() {
    assert_eq!(
        dispatch(Method::Get, "/api/projects"),
        Dispatch::Handler { handler: "list_projects", params: vec![] }
    );
    assert_eq!(
        dispatch(Method::Delete, "/api/projects/project:1"),
        Dispatch::Handler {
            handler: "delete_project",
            params: vec![("id".to_string(), "project:1".to_string())]
        }
    );
    assert_eq!(
        dispatch(Method::Get, "/api/projects/p1/graph"),
        Dispatch::Handler {
            handler: "get_project_graph",
            params: vec![("pid".to_string(), "p1".to_string())]
        }
    );
    assert_eq!(dispatch(Method::Get, "/api/projects/p1"), Dispatch::MethodNotAllowed);
    assert_eq!(dispatch(Method::Get, "/index.html"), Dispatch::Fallback);
    assert_eq!(dispatch(Method::Get, "/api/projects/"), Dispatch::Fallback);
    assert_eq!(dispatch(Method::Get, "/api/projects//graph"), Dispatch::Fallback);
    assert_eq!(routes().len(), 50);
}

#[test]
fn segments_split_at_every_slash() {
    assert_eq!(split_segments("/a/b"), vec!["", "a", "b"]);
    assert_eq!(split_segments(""), vec![""]);
    assert_eq!(split_segments("a//"), vec!["a", "", ""]);
}

#[test]
fn browser_interface_files() {
    assert_eq!(asset_path("/"), "index.html");
    assert_eq!(asset_path("//assets/app.js"), "assets/app.js");
    match asset_next("assets/app.js", true, false) {
        AssetStep::Serve { path, mime } => {
            assert_eq!(path, "assets/app.js");
            assert_eq!(mime, "text/javascript");
        }
        other => panic!("unexpected {other:?}"),
    }
    assert_eq!(
        asset_next("x.bin", false, false),
        AssetStep::Fetch { path: "index.html".to_string() }
    );
    assert_eq!(
        asset_next("index.html", false, true),
        AssetStep::NotFound { body: "UI not built \u{2014} run `make ui-build`".to_string() }
    );
}

#[test]
fn answers_of_the_interface() {
    assert_eq!(deletion_answer(true), (204, None));
    assert_eq!(
        deletion_answer(false),
        (404, Some(Json::Object(vec![("error".to_string(), Json::Str("not found".to_string()))])))
    );
    let (code, doc) = failure_answer("boom".to_string());
    assert_eq!(code, 500);
    assert_eq!(doc, Json::Object(vec![("error".to_string(), Json::Str("boom".to_string()))]));
    assert_eq!(link_answer(), Json::Object(vec![("ok".to_string(), Json::Bool(true))]));
}
