use sparkles::application::App;
use sparkles::pages::{four_oh_four, hello, route};
use sparkles::response::Status;
use sparkles::response_builder::ResponseBuilder;
use sparkles::routing::{parse_route_attr, AttrToken, Dispatch, MacroError, MacroItem, Method, RouteTable};
use sparkles::templates::template_name;
use sparkles::host::{decimal_string, host_text_of, trim_str};
use sparkles::text::{bytes_eq, chars_of, contains_chars, str_eq};

fn attr(tokens: Vec<AttrToken>) -> Vec<AttrToken> {
    tokens
}

fn get_hello() -> Vec<AttrToken> {
    attr(vec![AttrToken::Ident("GET".to_string()), AttrToken::Punct(','), AttrToken::Literal("/hello".to_string())])
}

#[test]
fn route_attribute_is_read() {
    match parse_route_attr(&get_hello()) {
        Ok((m, p)) => {
            assert_eq!(m, Method::Get);
            assert_eq!(p, "/hello");
        }
        Err(e) => panic!("unexpected {:?}", e),
    }
}

#[test]
fn route_attribute_errors() {
    assert!(matches!(parse_route_attr(&vec![]), Err(MacroError::MissingMethod)));
    assert!(matches!(parse_route_attr(&vec![AttrToken::Punct(',')]), Err(MacroError::MethodNotIdent)));
    match parse_route_attr(&vec![AttrToken::Ident("POST".to_string()), AttrToken::Punct(','), AttrToken::Literal("/x".to_string())]) {
        Err(MacroError::UnsupportedMethod(m)) => assert_eq!(m, "POST"),
        other => panic!("unexpected {:?}", other),
    }
    assert!(matches!(parse_route_attr(&vec![AttrToken::Ident("GET".to_string()), AttrToken::Punct(',')]), Err(MacroError::MissingPath)));
    assert!(matches!(
        parse_route_attr(&vec![AttrToken::Ident("GET".to_string()), AttrToken::Punct(','), AttrToken::Group]),
        Err(MacroError::PathNotLiteral)
    ));
}

#[test]
fn route_table_dispatch() {
    let mut t = RouteTable::new();
    assert!(matches!(t.dispatch(Method::Get, "/hello"), Dispatch::DefaultNotFound));
    assert!(t.try_route(&MacroItem::Function("hello".to_string()), &get_hello()).is_ok());
    assert!(t.try_route(&MacroItem::Function("again".to_string()), &get_hello()).is_ok());
    assert!(matches!(t.try_route(&MacroItem::Other, &get_hello()), Err(MacroError::NotAFunction)));
    match t.dispatch(Method::Get, "/hello") {
        Dispatch::Handler(n) => assert_eq!(n, "hello"),
        other => panic!("unexpected {:?}", other),
    }
    assert!(matches!(t.dispatch(Method::Post, "/hello"), Dispatch::DefaultNotFound));
    assert!(t.try_not_found(&vec![], &MacroItem::Function("four_oh_four".to_string())).is_ok());
    assert!(matches!(t.try_not_found(&vec![], &MacroItem::Other), Err(MacroError::NotAFunction)));
    match t.dispatch(Method::Get, "/other") {
        Dispatch::NotFound(n) => assert_eq!(n, "four_oh_four"),
        other => panic!("unexpected {:?}", other),
    }
}

#[test]
fn bad_attribute_leaves_table_unchanged() {
    let mut t = RouteTable::new();
    let bad = vec![AttrToken::Ident("PUT".to_string())];
    assert!(t.try_route(&MacroItem::Function("f".to_string()), &bad).is_err());
    assert!(matches!(t.dispatch(Method::Put, "/"), Dispatch::DefaultNotFound));
}

#[test]
fn pages() {
    let h = hello();
    assert_eq!(h.status, 200);
    assert_eq!(h.body, "<h1>Hi!</h1><p>Hello Rust!</p>");
    let n = four_oh_four();
    assert_eq!(n.status, 404);
    assert_eq!(n.body, "<h1>404</h1><p>Not found!<p>");
    assert_eq!(route(Method::Get, "/hello").unwrap().body, h.body);
    assert!(route(Method::Post, "/hello").is_none());
    assert!(route(Method::Get, "/").is_none());
}

#[test]
fn app_keeps_last_handler() {
    let mut a = App::new();
    a.get("/", 3);
    a.get("/elsewhere", 5);
    assert_eq!(a.listen(), Some(5));
    assert_eq!(App::new().listen(), None);
}

#[test]
fn response_builder_flow() {
    let mut b = ResponseBuilder::new();
    assert!(b.data.is_empty());
    assert!(!b.is_complete());
    b.with_template("index");
    assert!(!b.is_complete());
    b.with_status(Status { code: 200 });
    b.with_template("page");
    assert!(b.is_complete());
    b.insert("title".to_string(), serde_json::Value::String("Home".to_string()));
    b.insert("title".to_string(), serde_json::Value::String("Start".to_string()));
    assert_eq!(b.data().len(), 1);
    assert_eq!(b.data()["title"], serde_json::Value::String("Start".to_string()));
    let r = b.to_response();
    assert_eq!(r.template, "page");
    assert_eq!(r.status, Status { code: 200 });
    assert_eq!(r.data.len(), 1);
}

#[test]
fn template_names_are_file_stems() {
    for name in ["index.hbs", "a.tar.gz", ".bashrc", "noext", "foo.", "", "x.y", ".a.b", "..", "héllo.html"] {
        let expected = std::path::Path::new(name).file_stem().map(|s| s.to_str().unwrap().to_string());
        let got = template_name(name);
        match expected {
            Some(e) => assert_eq!(got, e, "{}", name),
            None => assert!(name.is_empty() || name == "..", "{}", name),
        }
    }
    assert_eq!(template_name("index.hbs"), "index");
    assert_eq!(template_name(".bashrc"), ".bashrc");
    assert_eq!(template_name("foo."), "foo");
    assert_eq!(template_name(".."), "..");
}

#[test]
fn text_helpers() {
    assert_eq!(chars_of("añb"), vec!['a', 'ñ', 'b']);
    assert!(contains_chars(&vec!['a', '.', '/'], &vec!['.', '/']));
    assert!(!contains_chars(&vec!['a', '/', '.'], &vec!['.', '/']));
    assert!(contains_chars(&vec![], &vec![]));
    assert!(str_eq("abc", "abc"));
    assert!(!str_eq("abc", "abd"));
    assert!(bytes_eq(&b"https".to_vec(), b"https"));
    assert!(!bytes_eq(&b"http".to_vec(), b"https"));
}

#[test]
fn unparsable_item_is_not_an_item() {
    let mut t = RouteTable::new();
    assert!(matches!(t.try_route(&MacroItem::Unparsable, &get_hello()), Err(MacroError::NotAnItem)));
    assert!(matches!(t.try_not_found(&vec![], &MacroItem::Unparsable), Err(MacroError::NotAnItem)));
    assert!(matches!(t.dispatch(Method::Get, "/hello"), Dispatch::DefaultNotFound));
}

fn get(path: &str) -> Vec<AttrToken> {
    vec![AttrToken::Ident("GET".to_string()), AttrToken::Punct(','), AttrToken::Literal(path.to_string())]
}

#[test]
fn declarations_keep_their_order() {
    let mut t = RouteTable::new();
    for (name, path) in [("a", "/x"), ("b", "/y"), ("c", "/x"), ("d", "/z")] {
        t.route(&MacroItem::Function(name.to_string()), &get(path));
    }
    for (path, expected) in [("/x", "a"), ("/y", "b"), ("/z", "d")] {
        match t.dispatch(Method::Get, path) {
            Dispatch::Handler(n) => assert_eq!(n, expected),
            other => panic!("unexpected {:?}", other),
        }
    }
}

#[test]
fn latest_not_found_wins() {
    let mut t = RouteTable::new();
    t.not_found(&vec![], &MacroItem::Function("first".to_string()));
    t.route(&MacroItem::Function("a".to_string()), &get("/a"));
    t.not_found(&vec![AttrToken::Group], &MacroItem::Function("second".to_string()));
    t.route(&MacroItem::Function("b".to_string()), &get("/b"));
    match t.dispatch(Method::Get, "/c") {
        Dispatch::NotFound(n) => assert_eq!(n, "second"),
        other => panic!("unexpected {:?}", other),
    }
}

#[test]
fn host_helpers() {
    assert_eq!(trim_str("  a b \t\n"), "a b");
    assert_eq!(trim_str("\u{3000}x\u{2009}"), "x");
    assert_eq!(decimal_string(0), "0");
    assert_eq!(decimal_string(65535), "65535");
    assert_eq!(host_text_of("a:1"), "a:1");
    assert_eq!(host_text_of("a:"), "a:");
    assert_eq!(host_text_of("a:+"), "a:+");
    assert_eq!(host_text_of("a:65536"), "a:65536");
    assert_eq!(host_text_of("a:443"), "a");
}

#[test]
fn host_text_agrees_with_hyper() {
    let samples = [
        "example.com", "example.com:80", "example.com:443", "example.com:8080", " example.com:0443 ",
        "x:+80", "x:-80", "x:", "x:+", "x:65535", "x:65536", "[::1]", "[::1]:443", "[::1]:9",
        "a:b:80", "a:b:c", "\u{a0}h:1\u{3000}", "", ":80", "h:00000000000000080",
    ];
    for raw in samples {
        let via_hyper = raw.trim().parse::<hyper::header::Host>().unwrap().to_string();
        assert_eq!(host_text_of(raw), via_hyper, "{:?}", raw);
    }
}

#[test]
fn try_route_errors_leave_table_unchanged() {
    let mut t = RouteTable::new();
    t.route(&MacroItem::Function("h".to_string()), &get("/h"));
    let cases: Vec<(MacroItem, Vec<AttrToken>)> = vec![
        (MacroItem::Function("f".to_string()), vec![AttrToken::Ident("POST".to_string()), AttrToken::Punct(','), AttrToken::Literal("/h".to_string())]),
        (MacroItem::Function("f".to_string()), vec![AttrToken::Literal("GET".to_string()), AttrToken::Punct(','), AttrToken::Literal("/h".to_string())]),
        (MacroItem::Function("f".to_string()), vec![AttrToken::Ident("GET".to_string()), AttrToken::Punct(','), AttrToken::Ident("hello".to_string())]),
        (MacroItem::Function("f".to_string()), vec![]),
        (MacroItem::Other, vec![AttrToken::Ident("POST".to_string()), AttrToken::Punct(','), AttrToken::Literal("1".to_string())]),
    ];
    for (item, attr) in cases {
        assert!(t.try_route(&item, &attr).is_err());
        match t.dispatch(Method::Get, "/h") {
            Dispatch::Handler(n) => assert_eq!(n, "h"),
            other => panic!("unexpected {:?}", other),
        }
    }
    assert!(matches!(t.try_not_found(&vec![], &MacroItem::Other), Err(MacroError::NotAFunction)));
    assert!(matches!(t.dispatch(Method::Get, "/x"), Dispatch::DefaultNotFound));
}
