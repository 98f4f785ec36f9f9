use sparkles::server::{CallStep, Outcome, RequestHead, RouteError, Server};

fn request(path: &str) -> RequestHead {
    RequestHead { forwarded_proto: None, host: Some("example.com".to_string()), path: path.to_string() }
}

fn proxied(path: &str, proto: &[&[u8]]) -> RequestHead {
    RequestHead {
        forwarded_proto: Some(proto.iter().map(|l| l.to_vec()).collect()),
        host: Some("example.com:8080".to_string()),
        path: path.to_string(),
    }
}

#[test]
fn empty_server_asks_for_file_then_not_found() {
    let s = Server::new();
    match s.call(&request("/index.html")) {
        CallStep::CheckFile { fs_path } => assert_eq!(fs_path, "public/index.html"),
        other => panic!("unexpected {:?}", other),
    }
    assert!(matches!(s.resolve(&request("/index.html"), false), Outcome::NotFound));
    match s.resolve(&request("/index.html"), true) {
        Outcome::ServeFile { fs_path } => assert_eq!(fs_path, "public/index.html"),
        other => panic!("unexpected {:?}", other),
    }
}

#[test]
fn plain_http_behind_proxy_is_redirected() {
    let s = Server::new();
    let req = proxied("/a/b", &[b"http"]);
    match s.call(&req) {
        CallStep::Done(Outcome::Redirect { location }) => assert_eq!(location, "https://example.com:8080/a/b"),
        other => panic!("unexpected {:?}", other),
    }
    match s.resolve(&req, true) {
        Outcome::Redirect { location } => assert_eq!(location, "https://example.com:8080/a/b"),
        other => panic!("unexpected {:?}", other),
    }
}

#[test]
fn https_behind_proxy_is_not_redirected() {
    let s = Server::new();
    assert!(matches!(s.call(&proxied("/a", &[b"https"])), CallStep::CheckFile { .. }));
}

#[test]
fn repeated_proto_header_is_redirected() {
    let s = Server::new();
    assert!(matches!(s.call(&proxied("/a", &[b"https", b"https"])), CallStep::Done(Outcome::Redirect { .. })));
    assert!(matches!(s.call(&proxied("/a", &[b"HTTPS"])), CallStep::Done(Outcome::Redirect { .. })));
}

#[test]
fn dot_paths_are_refused() {
    let mut s = Server::new();
    s.add_catch_all_route(9);
    assert!(matches!(s.call(&request("/../etc/passwd")), CallStep::Done(Outcome::NotFound)));
    assert!(matches!(s.call(&request("/a/./b")), CallStep::Done(Outcome::NotFound)));
    assert!(matches!(s.resolve(&request("/a/./b"), true), Outcome::NotFound));
    assert!(matches!(s.resolve(&request("/a.b/c"), false), Outcome::CatchAll { handler: 9 }));
}

#[test]
fn literal_route_and_file_priority() {
    let mut s = Server::new();
    s.add_route("/hello", 1);
    assert_eq!(s.route_count(), 1);
    assert!(matches!(s.resolve(&request("/hello"), false), Outcome::Route { index: 0, handler: 1 }));
    assert!(matches!(s.resolve(&request("/hello"), true), Outcome::ServeFile { .. }));
    assert!(matches!(s.resolve(&request("/hello/"), false), Outcome::NotFound));
}

#[test]
fn first_matching_route_wins() {
    let mut s = Server::new();
    s.add_route("/x", 1);
    s.add_route("/y", 2);
    s.add_route("/y", 3);
    assert!(matches!(s.resolve(&request("/y"), false), Outcome::Route { index: 1, handler: 2 }));
    assert_eq!(s.find_route("/y"), Some(1));
    assert_eq!(s.find_route("/z"), None);
}

#[test]
fn regex_routes_search_the_path() {
    let mut s = Server::new();
    assert_eq!(s.try_add_regex_route("^/user/[0-9]+$", 4), Ok(()));
    s.add_regex_route("post", 5);
    assert!(matches!(s.resolve(&request("/user/42"), false), Outcome::Route { index: 0, handler: 4 }));
    assert!(matches!(s.resolve(&request("/user/x"), false), Outcome::NotFound));
    assert!(matches!(s.resolve(&request("/blog/posts"), false), Outcome::Route { index: 1, handler: 5 }));
}

#[test]
fn invalid_regex_is_reported() {
    let mut s = Server::new();
    s.add_route("/a", 1);
    assert_eq!(s.try_add_regex_route("user/(", 2), Err(RouteError::InvalidRegex));
    assert_eq!(s.route_count(), 1);
}

#[test]
fn catch_all_after_routes() {
    let mut s = Server::new();
    s.add_route("/a", 1);
    s.add_catch_all_route(7);
    assert!(matches!(s.resolve(&request("/a"), false), Outcome::Route { index: 0, handler: 1 }));
    assert!(matches!(s.resolve(&request("/b"), false), Outcome::CatchAll { handler: 7 }));
    s.add_catch_all_route(8);
    assert!(matches!(s.resolve(&request("/b"), false), Outcome::CatchAll { handler: 8 }));
}

#[test]
fn adding_route_keeps_earlier_answers() {
    let mut s = Server::new();
    s.add_route("/a", 1);
    s.add_route("/a", 2);
    s.add_route("/b", 3);
    assert!(matches!(s.resolve(&request("/a"), false), Outcome::Route { index: 0, handler: 1 }));
    assert!(matches!(s.resolve(&request("/b"), false), Outcome::Route { index: 2, handler: 3 }));
}

#[test]
fn redirect_writes_host_as_hyper_does() {
    let s = Server::new();
    let cases = [
        ("example.com:80", "https://example.com/p"),
        ("example.com:443", "https://example.com/p"),
        (" example.com:0080 ", "https://example.com/p"),
        ("example.com:+8080", "https://example.com:8080/p"),
        ("example.com:08080", "https://example.com:8080/p"),
        ("example.com:99999", "https://example.com:99999/p"),
        ("example.com:abc", "https://example.com:abc/p"),
        ("[::1]", "https://[::1]/p"),
        ("[::1]:80", "https://[::1]/p"),
        ("example.com", "https://example.com/p"),
    ];
    for (host, expected) in cases {
        let req = RequestHead {
            forwarded_proto: Some(vec![b"http".to_vec()]),
            host: Some(host.to_string()),
            path: "/p".to_string(),
        };
        assert!(req.is_well_formed());
        match s.resolve(&req, false) {
            Outcome::Redirect { location } => assert_eq!(location, expected, "{}", host),
            other => panic!("unexpected {:?}", other),
        }
    }
}

#[test]
fn request_well_formedness() {
    let missing = RequestHead { forwarded_proto: Some(vec![b"http".to_vec()]), host: None, path: "/".to_string() };
    assert!(!missing.is_well_formed());
    let empty = RequestHead { forwarded_proto: Some(vec![b"http".to_vec()]), host: Some(String::new()), path: "/".to_string() };
    assert!(!empty.is_well_formed());
    let direct = RequestHead { forwarded_proto: None, host: None, path: "/".to_string() };
    assert!(direct.is_well_formed());
    let https = RequestHead { forwarded_proto: Some(vec![b"https".to_vec()]), host: None, path: "/".to_string() };
    assert!(https.is_well_formed());
}

#[test]
fn route_captures_follow_matches() {
    let mut s = Server::new();
    s.add_route("/user/1", 1);
    assert_eq!(s.try_add_regex_route("^/user/([0-9]+)$", 2), Ok(()));
    assert!(s.route_captures(0, "/user/1").is_none());
    let caps = s.route_captures(1, "/user/42").unwrap();
    assert_eq!(&caps[1], "42");
    assert!(s.route_captures(1, "/user/x").is_none());
}
