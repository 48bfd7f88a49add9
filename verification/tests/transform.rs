use rocket_z::transform::{
    auto_route, delete, get, parse_mount_from_args, patch, post, put, route_with_method, ArgExpr,
    Method, TransformError,
};

fn lit(s: &str) -> ArgExpr {
    ArgExpr::StrLit(s.to_string())
}

fn expr(s: &str) -> ArgExpr {
    ArgExpr::Other(s.to_string())
}

#[test]
fn get_literal_path() {
    let t = get(vec![lit("/a")], "list_a".to_string()).unwrap();
    assert_eq!(t.decl.method, Method::Get);
    assert_eq!(t.decl.path, "/a");
    assert!(t.decl.modifiers.is_empty());
    assert_eq!(t.decl.handler, "list_a");
    assert_eq!(t.mount, "/");
}

#[test]
fn contribution_wraps_exactly_the_declaration() {
    let t = get(vec![lit("/a")], "list_a".to_string()).unwrap();
    let g = t.into_group();
    assert_eq!(g.mount, "/");
    assert_eq!(g.routes.len(), 1);
    assert_eq!(g.routes[0].method, Method::Get);
    assert_eq!(g.routes[0].path, "/a");
    assert_eq!(g.routes[0].handler, "list_a");
}

#[test]
fn post_modifiers_forwarded_verbatim() {
    let t = post(
        vec![lit("/b"), expr("data = \"<x>\"")],
        "create_b".to_string(),
    )
    .unwrap();
    assert_eq!(t.decl.method, Method::Post);
    assert_eq!(t.decl.path, "/b");
    assert_eq!(t.decl.modifiers.len(), 1);
    match &t.decl.modifiers[0] {
        ArgExpr::Other(text) => assert_eq!(text, "data = \"<x>\""),
        ArgExpr::StrLit(_) => panic!("modifier was reinterpreted"),
    }
}

#[test]
fn several_modifiers_keep_their_order() {
    let t = put(
        vec![lit("/c"), expr("format = \"json\""), expr("data = \"<body>\"")],
        "update_c".to_string(),
    )
    .unwrap();
    assert_eq!(t.decl.modifiers.len(), 2);
    match (&t.decl.modifiers[0], &t.decl.modifiers[1]) {
        (ArgExpr::Other(a), ArgExpr::Other(b)) => {
            assert_eq!(a, "format = \"json\"");
            assert_eq!(b, "data = \"<body>\"");
        }
        _ => panic!("modifiers were reinterpreted"),
    }
}

#[test]
fn non_literal_first_argument_is_a_definition_error() {
    let err = get(vec![expr("path_var")], "h".to_string()).unwrap_err();
    match &err {
        TransformError::NotAStringLiteral { offending } => assert_eq!(offending, "path_var"),
        other => panic!("unexpected error: {:?}", other),
    }
    assert_eq!(err.offending_text(), "path_var");
    assert_eq!(err.expected_form(), "a string literal route, e.g. \"/path\"");
}

#[test]
fn empty_argument_list_defaults_to_root() {
    let t = auto_route(vec![], "h".to_string()).unwrap();
    assert_eq!(t.decl.method, Method::Any);
    assert_eq!(t.decl.path, "/");
    assert!(t.decl.modifiers.is_empty());
    assert_eq!(t.mount, "/");

    let t = route_with_method(Method::Delete, vec![], "h".to_string()).unwrap();
    assert_eq!(t.decl.path, "/");
    assert_eq!(t.mount, "/");
}

#[test]
fn auto_route_takes_a_single_literal() {
    let t = auto_route(vec![lit("/c")], "any_c".to_string()).unwrap();
    assert_eq!(t.decl.method, Method::Any);
    assert_eq!(t.decl.path, "/c");
    assert_eq!(t.mount, "/");
}

#[test]
fn auto_route_rejects_extra_arguments() {
    let err = auto_route(vec![lit("/c"), expr("rank = 2")], "h".to_string()).unwrap_err();
    match &err {
        TransformError::UnexpectedArgument { offending } => assert_eq!(offending, "rank = 2"),
        other => panic!("unexpected error: {:?}", other),
    }
}

#[test]
fn auto_route_rejects_non_literal_argument() {
    let err = auto_route(vec![expr("some_var")], "h".to_string()).unwrap_err();
    match &err {
        TransformError::NotAStringLiteral { offending } => assert_eq!(offending, "some_var"),
        other => panic!("unexpected error: {:?}", other),
    }
}

#[test]
fn every_method_form_tags_its_method() {
    let cases: Vec<(Method, rocket_z::transform::Transformed)> = vec![
        (Method::Get, get(vec![lit("/m")], "h".to_string()).unwrap()),
        (Method::Post, post(vec![lit("/m")], "h".to_string()).unwrap()),
        (Method::Put, put(vec![lit("/m")], "h".to_string()).unwrap()),
        (Method::Delete, delete(vec![lit("/m")], "h".to_string()).unwrap()),
        (Method::Patch, patch(vec![lit("/m")], "h".to_string()).unwrap()),
    ];
    for (method, t) in cases {
        assert_eq!(t.decl.method, method);
        assert_eq!(t.decl.path, "/m");
        assert_eq!(t.mount, "/");
    }
}

#[test]
fn parse_mount_literal_or_default() {
    assert_eq!(parse_mount_from_args(&vec![]).unwrap(), "/");
    assert_eq!(parse_mount_from_args(&vec![lit("/users/<id>")]).unwrap(), "/users/<id>");
    assert_eq!(
        parse_mount_from_args(&vec![lit("/x"), expr("rank = 2")]).unwrap(),
        "/x"
    );
    match parse_mount_from_args(&vec![expr("my_path")]).unwrap_err() {
        TransformError::NotAStringLiteral { offending } => assert_eq!(offending, "my_path"),
        other => panic!("unexpected error: {:?}", other),
    }
}

#[test]
fn three_declaration_sites() {
    let a = get(vec![lit("/a")], "handler_a".to_string()).unwrap();
    let b = post(vec![lit("/b"), expr("data = \"<x>\"")], "handler_b".to_string()).unwrap();
    let c = auto_route(vec![lit("/c")], "handler_c".to_string()).unwrap();
    let groups = vec![a.into_group(), b.into_group(), c.into_group()];
    assert_eq!(groups.len(), 3);
    for g in &groups {
        assert_eq!(g.mount, "/");
        assert_eq!(g.routes.len(), 1);
    }
    assert_eq!(groups[0].routes[0].path, "/a");
    assert_eq!(groups[1].routes[0].path, "/b");
    assert_eq!(groups[2].routes[0].path, "/c");
    assert_eq!(groups[2].routes[0].method, Method::Any);
}
