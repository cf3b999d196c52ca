use rustgram::builder::{
    handle_group, handle_nodes, handle_route, start_routes_build, Config, Document, Endpoint, Route,
    G,
};
use rustgram::render::{build_routes, compile, DocumentError};

fn names(list: &[&str]) -> Option<Vec<String>> {
    Some(list.iter().map(|s| s.to_string()).collect())
}

fn endpoint(p: &str, s: &str, mw: Option<Vec<String>>) -> Endpoint {
    Endpoint { p: p.to_string(), s: s.to_string(), mw }
}

fn group(p: &str, mw: Option<Vec<String>>, gr: Vec<Config>) -> Config {
    Config::G(G { p: p.to_string(), mw, gr })
}

fn document(prefix: &str, mw: Option<Vec<String>>, routes: Vec<Config>) -> Document {
    Document {
        base_handler: "test_handler".to_string(),
        base_mw: "test_mw".to_string(),
        prefix: prefix.to_string(),
        handler_404: Some("crate::not_found_handler".to_string()),
        mw,
        routes,
    }
}

fn summary(route: &Route) -> (String, String, String, Vec<String>) {
    (
        route.method.to_string(),
        route.path.clone(),
        route.handler.clone(),
        route.middleware.clone(),
    )
}

fn expect(method: &str, path: &str, handler: &str, mw: &[&str]) -> (String, String, String, Vec<String>) {
    (
        method.to_string(),
        path.to_string(),
        handler.to_string(),
        mw.iter().map(|s| s.to_string()).collect(),
    )
}

#[test]
fn route_middleware_comes_before_group_middleware() {
    let node = Config::Put(endpoint("/many", "h", names(&["m1", "m2"])));
    let route = handle_route(&node, "/admin".to_string(), &names(&["m3", "m4"]));
    assert_eq!(summary(&route), expect("put", "/admin/many", "h", &["m1", "m2", "m3", "m4"]));
    assert_eq!(route.expression(), "r(h).add(m1).add(m2).add(m3).add(m4)");
}

#[test]
fn each_method_has_its_name() {
    let cases: Vec<(Config, &str)> = vec![
        (Config::Get(endpoint("/a", "h", None)), "get"),
        (Config::Post(endpoint("/a", "h", None)), "post"),
        (Config::Put(endpoint("/a", "h", None)), "put"),
        (Config::Delete(endpoint("/a", "h", None)), "delete"),
        (Config::Options(endpoint("/a", "h", None)), "options"),
        (Config::Head(endpoint("/a", "h", None)), "head"),
        (Config::Patch(endpoint("/a", "h", None)), "patch"),
    ];
    for (node, method) in cases {
        let route = handle_route(&node, String::new(), &None);
        assert_eq!(summary(&route), expect(method, "/a", "h", &[]));
        assert_eq!(route.expression(), "r(h)");
    }
}

#[test]
fn a_route_without_middleware_takes_the_groups() {
    let node = Config::Get(endpoint("", "h", None));
    let route = handle_route(&node, "/".to_string(), &names(&["g"]));
    assert_eq!(summary(&route), expect("get", "/", "h", &["g"]));
    let route = handle_route(&node, "/".to_string(), &None);
    assert_eq!(summary(&route), expect("get", "/", "h", &[]));
}

#[test]
fn nested_groups_join_paths_and_order_middleware() {
    let inner = group(
        "/users",
        names(&["c1", "c2"]),
        vec![Config::Get(endpoint("/:id", "show", names(&["r1"])))],
    );
    let outer = G { p: "/admin".to_string(), mw: names(&["o1", "o2"]), gr: vec![inner] };
    let routes = handle_group(&outer, String::new(), &None);
    assert_eq!(routes.len(), 1);
    assert_eq!(
        summary(&routes[0]),
        expect("get", "/admin/users/:id", "show", &["r1", "c1", "c2", "o1", "o2"])
    );

    let inner = group("/users", None, vec![Config::Get(endpoint("", "list", None))]);
    let outer = G { p: "/admin".to_string(), mw: None, gr: vec![inner] };
    let routes = handle_group(&outer, String::new(), &None);
    assert_eq!(summary(&routes[0]), expect("get", "/admin/users", "list", &[]));
}

#[test]
fn a_document_is_flattened_in_order() {
    let doc = document(
        "/",
        None,
        vec![
            Config::Get(endpoint("", "test_handler::test_handler", None)),
            Config::Put(endpoint(
                "",
                "test_handler::test_handler",
                names(&["mw1_transform", "mw_transform"]),
            )),
            group(
                "admin",
                names(&["mw1_transform", "mw_transform"]),
                vec![
                    Config::Get(endpoint("", "test_handler_db::test_handler_db_to_json", None)),
                    Config::Get(endpoint("/user/:id", "test_handler::test_handler", None)),
                    Config::Put(endpoint(
                        "/many_mw",
                        "test_handler::test_handler",
                        names(&["mw3_transform", "mw2_transform"]),
                    )),
                ],
            ),
            group(
                "nested",
                names(&["mw1_transform", "mw_transform"]),
                vec![group(
                    "/management",
                    names(&["mw3_transform", "mw2_transform"]),
                    vec![Config::Put(endpoint(
                        "/put",
                        "test_handler::test_handler",
                        names(&["mw5_transform", "mw4_transform"]),
                    ))],
                )],
            ),
        ],
    );
    let routes = start_routes_build(&doc);
    let got: Vec<_> = routes.iter().map(summary).collect();
    let h = "test_handler::test_handler";
    assert_eq!(
        got,
        vec![
            expect("get", "/", h, &[]),
            expect("put", "/", h, &["mw1_transform", "mw_transform"]),
            expect(
                "get",
                "/admin",
                "test_handler_db::test_handler_db_to_json",
                &["mw1_transform", "mw_transform"]
            ),
            expect("get", "/admin/user/:id", h, &["mw1_transform", "mw_transform"]),
            expect(
                "put",
                "/admin/many_mw",
                h,
                &["mw3_transform", "mw2_transform", "mw1_transform", "mw_transform"]
            ),
            expect(
                "put",
                "/nested/management/put",
                h,
                &[
                    "mw5_transform",
                    "mw4_transform",
                    "mw3_transform",
                    "mw2_transform",
                    "mw1_transform",
                    "mw_transform"
                ]
            ),
        ]
    );
    assert_eq!(
        routes[5].expression(),
        "r(test_handler::test_handler).add(mw5_transform).add(mw4_transform).add(mw3_transform).add(mw2_transform).add(mw1_transform).add(mw_transform)"
    );
}

#[test]
fn document_middleware_is_outermost() {
    let doc = document(
        "/api",
        names(&["d"]),
        vec![
            group("/v1", names(&["g"]), vec![Config::Post(endpoint("/x", "h", names(&["r"])))]),
            Config::Head(endpoint("/y", "k", None)),
        ],
    );
    let routes = start_routes_build(&doc);
    let got: Vec<_> = routes.iter().map(summary).collect();
    assert_eq!(
        got,
        vec![expect("post", "/api/v1/x", "h", &["r", "g", "d"]), expect("head", "/api/y", "k", &["d"])]
    );
}

#[test]
fn empty_groups_and_documents_give_no_routes() {
    assert_eq!(start_routes_build(&document("/", names(&["d"]), vec![])).len(), 0);
    let empty = G { p: "/a".to_string(), mw: None, gr: vec![] };
    assert_eq!(handle_group(&empty, "/".to_string(), &None).len(), 0);
    let nodes = vec![group("/a", None, vec![group("/b", None, vec![])])];
    assert_eq!(handle_nodes(&nodes, &"/".to_string(), &None).len(), 0);
}

#[test]
fn an_empty_fragment_and_a_slash_are_not_the_same() {
    let with_slash = G {
        p: "/".to_string(),
        mw: None,
        gr: vec![Config::Get(endpoint("/a", "h", None))],
    };
    let routes = handle_group(&with_slash, String::new(), &None);
    assert_eq!(routes[0].path, "//a");
    let with_nothing = G {
        p: String::new(),
        mw: None,
        gr: vec![Config::Get(endpoint("/a", "h", None))],
    };
    let routes = handle_group(&with_nothing, String::new(), &None);
    assert_eq!(routes[0].path, "/a");
}

#[test]
fn the_call_of_a_registration() {
    let node = Config::Delete(endpoint("/item/:id", "remove", names(&["auth"])));
    let route = handle_route(&node, "/api".to_string(), &None);
    assert_eq!(route.call(), "router.delete(\"/api/item/:id\",r(remove).add(auth)); ");
}

#[test]
fn the_routes_file() {
    let routes = vec![
        handle_route(&Config::Get(endpoint("/", "index", None)), String::new(), &None),
        handle_route(&Config::Put(endpoint("/x", "put_x", names(&["a", "b"]))), String::new(), &None),
    ];
    let text = build_routes(routes, Some("handlers".to_string()), Some("mw".to_string()));
    let expected = "/**\n# Generated route files by rustgram route builder.\n\nPlease do not modify this file. Any changes will be overridden by the next route build.\nUse the returned router instead\n */\nuse rustgram::{r, Router};\nuse crate::handlers::*;\nuse crate::mw::*;\n\npub(crate) fn routes(router: &mut Router)\n{\n\trouter.get(\"/\",r(index)); router.put(\"/x\",r(put_x).add(a).add(b)); \n}\n\t";
    assert_eq!(text, expected);
}

#[test]
fn the_routes_file_without_namespaces() {
    let text = build_routes(Vec::new(), None, None);
    let expected = "/**\n# Generated route files by rustgram route builder.\n\nPlease do not modify this file. Any changes will be overridden by the next route build.\nUse the returned router instead\n */\nuse rustgram::{r, Router};\n\n\n\npub(crate) fn routes(router: &mut Router)\n{\n\t\n}\n\t";
    assert_eq!(text, expected);
}

#[test]
fn a_document_is_compiled_to_its_routes_file() {
    let doc = document(
        "/",
        names(&["d"]),
        vec![group("admin", names(&["g"]), vec![Config::Get(endpoint("/u", "show", names(&["r"])))])],
    );
    let expected = "/**\n# Generated route files by rustgram route builder.\n\nPlease do not modify this file. Any changes will be overridden by the next route build.\nUse the returned router instead\n */\nuse rustgram::{r, Router};\nuse crate::test_handler::*;\nuse crate::test_mw::*;\n\npub(crate) fn routes(router: &mut Router)\n{\n\trouter.get(\"/admin/u\",r(show).add(r).add(g).add(d)); \n}\n\t";
    assert_eq!(compile(&doc), Ok(expected.to_string()));
}

#[test]
fn a_document_without_fallback_handler_is_refused() {
    let mut doc = document("/", None, vec![Config::Get(endpoint("", "h", None))]);
    doc.handler_404 = None;
    assert_eq!(compile(&doc), Err(DocumentError::MissingFallback));
}
