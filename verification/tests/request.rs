use nickel::path::strip_query_str;
use nickel::request::{HttpVersion, Method, Request, RequestOrigin};
use nickel::server::Server;
use nickel::router::RouteResult;
use nickel::text::str_eq;

fn get(target: &str, path: &str) -> RequestOrigin {
    RequestOrigin::new(
        Method::Get,
        target.to_string(),
        path.to_string(),
        HttpVersion::Http11,
        Vec::new(),
        Vec::new(),
    )
}

fn pairs(list: &[(&str, &str)]) -> Vec<(String, String)> {
    list.iter().map(|(k, v)| (k.to_string(), v.to_string())).collect()
}

#[test]
fn strips_the_query_string() {
    assert_eq!(strip_query_str("/users/42?format=json"), "/users/42");
}

#[test]
fn keeps_a_path_without_query() {
    assert_eq!(strip_query_str("/users/42"), "/users/42");
}

#[test]
fn cuts_at_the_first_question_mark() {
    assert_eq!(strip_query_str("/a?b?c"), "/a");
}

#[test]
fn empty_path_and_bare_query() {
    assert_eq!(strip_query_str(""), "");
    assert_eq!(strip_query_str("?x=1"), "");
    assert_eq!(strip_query_str("/x?"), "/x");
}

#[test]
fn stripping_is_idempotent() {
    let once = strip_query_str("/foo-barrrr/baz?q=1");
    assert_eq!(strip_query_str(once), once);
}

#[test]
fn non_ascii_paths() {
    assert_eq!(strip_query_str("/héllo/wörld?ä=ö"), "/héllo/wörld");
    assert_eq!(strip_query_str("/日本?語"), "/日本");
}

#[test]
fn string_equality() {
    assert!(str_eq("abc", "abc"));
    assert!(!str_eq("abc", "abd"));
    assert!(!str_eq("abc", "ab"));
    assert!(str_eq("", ""));
    assert!(!str_eq("é", "e"));
}

#[test]
fn route_params_are_found_by_name() {
    let rr = RouteResult::new(pairs(&[("user", "alice"), ("id", "7")]));
    assert_eq!(rr.param("user"), Some("alice"));
    assert_eq!(rr.param("id"), Some("7"));
    assert_eq!(rr.param("missing"), None);
}

#[test]
fn first_binding_of_a_name_wins() {
    let rr = RouteResult::new(pairs(&[("id", "1"), ("id", "2")]));
    assert_eq!(rr.param("id"), Some("1"));
}

#[test]
fn no_params_no_value() {
    let rr = RouteResult::new(Vec::new());
    assert_eq!(rr.param("id"), None);
}

#[test]
fn fresh_request_is_unrouted_and_shares_data() {
    let origin = get("/bar.html?x=y", "/bar.html?x=y");
    let data = 17u32;
    let req = Request::from_internal(&origin, &data);
    assert!(req.route_result.is_none());
    assert_eq!(*req.server_data(), 17);
    assert_eq!(req.origin.path(), "/bar.html?x=y");
    assert_eq!(req.path_without_query(), Some("/bar.html"));
}

#[test]
fn request_params_after_routing() {
    let origin = get("/users/42", "/users/42");
    let data = ();
    let mut req: Request = Request::from_internal(&origin, &data);
    req.route_result = Some(RouteResult::new(pairs(&[("userid", "42")])));
    assert_eq!(req.param("userid"), Some("42"));
    assert_eq!(req.param("other"), None);
}

#[test]
fn path_without_query_of_plain_paths() {
    for path in ["", "foo", "bar.html", "foo-barrrr/baz"] {
        let origin = get(&format!("/{}", path), &format!("/{}", path));
        let req = Request::from_internal(&origin, &());
        assert_eq!(req.path_without_query(), Some(format!("/{}", path).as_str()));
    }
}

#[test]
fn request_keeps_method_target_headers_and_body() {
    let origin = RequestOrigin::new(
        Method::Post,
        "/users?id=1".to_string(),
        "/users".to_string(),
        HttpVersion::Http10,
        pairs(&[("Content-Type", "application/json")]),
        b"{}".to_vec(),
    );
    let data = 7u32;
    let req = Request::from_internal(&origin, &data);
    assert!(matches!(req.origin.method(), Method::Post));
    assert_eq!(req.origin.uri(), "/users?id=1");
    assert_eq!(req.origin.path(), "/users");
    assert_eq!(req.origin.version, HttpVersion::Http10);
    assert_eq!(req.origin.headers, pairs(&[("Content-Type", "application/json")]));
    assert_eq!(req.origin.body(), b"{}");
    assert_eq!(req.path_without_query(), Some("/users"));
    assert!(req.route_result.is_none());
    assert_eq!(*req.server_data(), 7);
}

#[test]
fn extension_method_keeps_its_name() {
    let origin = RequestOrigin::new(
        Method::Extension("PURGE".to_string()),
        "/".to_string(),
        "/".to_string(),
        HttpVersion::Http11,
        Vec::new(),
        Vec::new(),
    );
    match origin.method() {
        Method::Extension(name) => assert_eq!(name, "PURGE"),
        other => panic!("unexpected method {:?}", other),
    }
}

#[test]
fn fresh_request_has_no_extensions() {
    let origin = get("/", "/");
    let mut req = Request::from_internal(&origin, &());
    assert_eq!(req.extensions().map.len(), 0);
    assert!(req.extensions_mut().map.is_empty());
}

#[test]
fn server_keeps_stack_and_data() {
    let server = Server::new(vec!["logger", "router"], 3u8);
    assert_eq!(server.middleware_stack, vec!["logger", "router"]);
    assert_eq!(server.shared_data, 3);
    let templates = server.templates.templates.read().unwrap();
    assert!(templates.is_empty());
}
