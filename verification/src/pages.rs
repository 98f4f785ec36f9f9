//! The pages of the example service: its greeting, and the "404" page that
//! is also the built-in answer when no route and no not-found method apply.

use vstd::prelude::*;
use crate::routing::Method;
use crate::text::str_eq;

verus! {

/// A page to send: a status code and an HTML body.
#[derive(Debug)]
pub struct Page {
    pub status: u16,
    pub body: String,
}

/// The greeting: status 200 and a short HTML body.
pub fn hello() -> (p: Page)
    ensures
        p.status == 200,
        p.body@ == "<h1>Hi!</h1><p>Hello Rust!</p>"@,
{
    Page { status: 200, body: String::from_str("<h1>Hi!</h1><p>Hello Rust!</p>") }
}

/// The "404" page: status 404 and a short HTML body.
pub fn four_oh_four() -> (p: Page)
    ensures
        p.status == 404,
        p.body@ == "<h1>404</h1><p>Not found!<p>"@,
{
    Page { status: 404, body: String::from_str("<h1>404</h1><p>Not found!<p>") }
}

/// The example service's routing: the greeting for `GET /hello`, and no
/// page for anything else.
pub fn route(method: Method, path: &str) -> (p: Option<Page>)
    ensures
        p is Some <==> (method == Method::Get && path@ == "/hello"@),
        p matches Some(page) ==> page.status == 200 && page.body@ == "<h1>Hi!</h1><p>Hello Rust!</p>"@,
{
    if method == Method::Get && str_eq(path, "/hello") {
        Some(hello())
    } else {
        None
    }
}

} // verus!
