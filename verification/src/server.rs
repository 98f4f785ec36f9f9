//! The request-handling decisions of the server: the route table, and for
//! each request whether it is redirected to HTTPS, refused, served from the
//! static file tree, handed to a route's handler, or answered "not found".
//!
//! The server itself (sockets, the thread pool, reading files, rendering
//! templates) lives outside this library; it asks [`Server::call`] whether a
//! request needs a look at the disk, and [`Server::resolve`] what to do.

use vstd::prelude::*;
use crate::pattern::{CompiledPattern, captures, compile, is_match, regex_compiles, regex_is_match};
use crate::search::{first_index, lemma_first_index, lemma_first_index_prefix};
use crate::host::{host_text, host_text_of};
use crate::text::{seq_contains, chars_of, contains_chars, bytes_eq, str_eq};

verus! {

/// Names a request handler; the server keeps the handlers themselves and
/// looks them up by this number.
pub type HandlerId = usize;

/// A route of the table: an exact path, or a regular expression searched
/// for in the path.
pub enum Route {
    Literal { path: String, handler: HandlerId },
    Regex { regex: CompiledPattern, handler: HandlerId },
}

/// What a route is, as values.
pub enum RouteSpec {
    Literal { path: Seq<char>, handler: HandlerId },
    Regex { pattern: Seq<char>, handler: HandlerId },
}

impl View for Route {
    type V = RouteSpec;

    open spec fn view(&self) -> RouteSpec {
        match self {
            Route::Literal { path, handler } => RouteSpec::Literal { path: path@, handler: *handler },
            Route::Regex { regex, handler } => RouteSpec::Regex { pattern: regex@, handler: *handler },
        }
    }
}

/// Whether `route` accepts the request path `path`: a literal route when the
/// path is exactly its own, a regex route when its pattern matches somewhere
/// in the path.
pub open spec fn route_matches(route: RouteSpec, path: Seq<char>) -> bool {
    match route {
        RouteSpec::Literal { path: p, .. } => p == path,
        RouteSpec::Regex { pattern, .. } => regex_is_match(pattern, path),
    }
}

pub open spec fn route_handler(route: RouteSpec) -> HandlerId {
    match route {
        RouteSpec::Literal { handler, .. } => handler,
        RouteSpec::Regex { handler, .. } => handler,
    }
}

/// The index of the first route of `routes` that accepts `path`.
pub open spec fn first_match(routes: Seq<RouteSpec>, path: Seq<char>) -> Option<int> {
    first_index(routes, |r: RouteSpec| route_matches(r, path))
}

impl Route {
    /// Whether this route accepts the request path `path`.
    pub fn matches(&self, path: &str) -> (res: bool)
        ensures
            res == route_matches(self@, path@),
            match self@ {
                RouteSpec::Literal { path: p, .. } => res == (p == path@),
                RouteSpec::Regex { pattern, .. } => res == regex_is_match(pattern, path@),
            },
    {
        match self {
            Route::Literal { path: p, .. } => str_eq(p.as_str(), path),
            Route::Regex { regex, .. } => is_match(regex, path),
        }
    }

    /// The groups that this route's regular expression finds in `path`: some
    /// exactly when this is a regex route that accepts the path.
    pub fn captures<'a>(&self, path: &'a str) -> (res: Option<regex::Captures<'a>>)
        ensures
            res is Some == (self@ is Regex && route_matches(self@, path@)),
    {
        match self {
            Route::Literal { .. } => None,
            Route::Regex { regex, .. } => captures(regex, path),
        }
    }

    pub fn handler(&self) -> (h: HandlerId)
        ensures
            h == route_handler(self@),
    {
        match self {
            Route::Literal { handler, .. } => *handler,
            Route::Regex { handler, .. } => *handler,
        }
    }
}

/// Why a route could not be added.
#[derive(PartialEq, Eq, Structural, Debug, Clone, Copy)]
pub enum RouteError {
    /// The regular expression does not compile.
    InvalidRegex,
}

/// The route table of a server: routes tried in the order they were added,
/// then an optional catch-all handler.
pub struct Server {
    routes: Vec<Route>,
    catch_all_route: Option<HandlerId>,
}

/// What a server is, as values.
pub struct ServerSpec {
    pub routes: Seq<RouteSpec>,
    pub catch_all: Option<HandlerId>,
}

impl View for Server {
    type V = ServerSpec;

    closed spec fn view(&self) -> ServerSpec {
        ServerSpec { routes: self.routes@.map_values(|r: Route| r@), catch_all: self.catch_all_route }
    }
}

/// The parts of a request that the decisions read.
pub struct RequestHead {
    /// The lines of the `X-Forwarded-Proto` header, if the header is present.
    pub forwarded_proto: Option<Vec<Vec<u8>>>,
    /// The request's `Host` header when it has exactly one such line that
    /// is valid UTF-8, as that text; `None` otherwise.
    pub host: Option<String>,
    /// The path of the request URI.
    pub path: String,
}

pub struct RequestSpec {
    pub forwarded_proto: Option<Seq<Seq<u8>>>,
    pub host: Option<Seq<char>>,
    pub path: Seq<char>,
}

impl View for RequestHead {
    type V = RequestSpec;

    open spec fn view(&self) -> RequestSpec {
        RequestSpec {
            forwarded_proto: match self.forwarded_proto {
                Some(lines) => Some(lines@.map_values(|l: Vec<u8>| l@)),
                None => None,
            },
            host: match self.host {
                Some(h) => Some(h@),
                None => None,
            },
            path: self.path@,
        }
    }
}

pub open spec fn https_bytes() -> Seq<u8> {
    seq![104u8, 116u8, 116u8, 112u8, 115u8]
}

pub open spec fn https_scheme() -> Seq<char> {
    seq!['h', 't', 't', 'p', 's', ':', '/', '/']
}

pub open spec fn static_root() -> Seq<char> {
    seq!['p', 'u', 'b', 'l', 'i', 'c']
}

/// The request came through a proxy that says it was not HTTPS: the header
/// is there and is not exactly the single line `https`.
pub open spec fn needs_https_redirect(forwarded_proto: Option<Seq<Seq<u8>>>) -> bool {
    match forwarded_proto {
        Some(lines) => !(lines.len() == 1 && lines[0] == https_bytes()),
        None => false,
    }
}

/// Where the static file for `path` would be.
pub open spec fn static_path(path: Seq<char>) -> Seq<char> {
    static_root() + path
}

/// A static path that could climb out of the static tree.
pub open spec fn escapes_static_root(fs_path: Seq<char>) -> bool {
    seq_contains(fs_path, seq!['.', '/']) || seq_contains(fs_path, seq!['.', '.', '/'])
}

/// The request may be answered without a look at the disk.
pub open spec fn decided_without_disk(r: RequestSpec) -> bool {
    needs_https_redirect(r.forwarded_proto) || escapes_static_root(static_path(r.path))
}

/// What the server does with a request.
#[derive(Debug)]
pub enum Outcome {
    /// Answer "moved permanently" with this location.
    Redirect { location: String },
    /// Answer "not found" (an HTML response with no body).
    NotFound,
    /// Answer with the content of this file.
    ServeFile { fs_path: String },
    /// Hand the request to the route at `index` of the table.
    Route { index: usize, handler: HandlerId },
    /// Hand the request to the catch-all handler.
    CatchAll { handler: HandlerId },
}

pub enum OutcomeSpec {
    Redirect { location: Seq<char> },
    NotFound,
    ServeFile { fs_path: Seq<char> },
    Route { index: int, handler: HandlerId },
    CatchAll { handler: HandlerId },
}

impl View for Outcome {
    type V = OutcomeSpec;

    open spec fn view(&self) -> OutcomeSpec {
        match self {
            Outcome::Redirect { location } => OutcomeSpec::Redirect { location: location@ },
            Outcome::NotFound => OutcomeSpec::NotFound,
            Outcome::ServeFile { fs_path } => OutcomeSpec::ServeFile { fs_path: fs_path@ },
            Outcome::Route { index, handler } => OutcomeSpec::Route { index: *index as int, handler: *handler },
            Outcome::CatchAll { handler } => OutcomeSpec::CatchAll { handler: *handler },
        }
    }
}

/// What the server does with request `r`, when `is_file` tells whether the
/// static path of the request names a regular file: redirect to HTTPS when a
/// proxy says the request was plain HTTP (to the host as hyper's `Host`
/// header writes it, see [`host_text`]); refuse static paths holding `./` or
/// `../`; serve an existing static file; else the first matching route; else
/// the catch-all handler; else "not found".
pub open spec fn decide(s: ServerSpec, r: RequestSpec, is_file: bool) -> OutcomeSpec {
    if needs_https_redirect(r.forwarded_proto) {
        OutcomeSpec::Redirect { location: https_scheme() + host_text(r.host.unwrap()) + r.path }
    } else if escapes_static_root(static_path(r.path)) {
        OutcomeSpec::NotFound
    } else if is_file {
        OutcomeSpec::ServeFile { fs_path: static_path(r.path) }
    } else {
        match first_match(s.routes, r.path) {
            Some(i) => OutcomeSpec::Route { index: i, handler: route_handler(s.routes[i]) },
            None => match s.catch_all {
                Some(h) => OutcomeSpec::CatchAll { handler: h },
                None => OutcomeSpec::NotFound,
            },
        }
    }
}

/// The first step of handling a request.
#[derive(Debug)]
pub enum CallStep {
    /// The answer is known.
    Done(Outcome),
    /// Look whether this path names a regular file, then call
    /// [`Server::resolve`].
    CheckFile { fs_path: String },
}

/// A request whose proxy header asks for a redirect must carry a `Host`
/// header that hyper can read: one non-empty line of UTF-8.
pub open spec fn well_formed_request(r: RequestSpec) -> bool {
    needs_https_redirect(r.forwarded_proto) ==> (r.host matches Some(h) && h.len() > 0)
}

impl RequestHead {
    /// Whether the request meets [`well_formed_request`], which
    /// [`Server::call`] and [`Server::resolve`] require.
    pub fn is_well_formed(&self) -> (b: bool)
        ensures
            b == well_formed_request(self@),
    {
        if redirect_needed(&self.forwarded_proto) {
            match &self.host {
                Some(h) => h.as_str().unicode_len() > 0,
                None => false,
            }
        } else {
            true
        }
    }
}

fn redirect_needed(forwarded_proto: &Option<Vec<Vec<u8>>>) -> (res: bool)
    ensures
        res == needs_https_redirect(
            match forwarded_proto {
                Some(lines) => Some(lines@.map_values(|l: Vec<u8>| l@)),
                None => None,
            },
        ),
{
    match forwarded_proto {
        Some(lines) => {
            if lines.len() == 1 {
                let https: [u8; 5] = [104u8, 116u8, 116u8, 112u8, 115u8];
                let same = bytes_eq(&lines[0], https.as_slice());
                assert(https@ =~= https_bytes());
                !same
            } else {
                true
            }
        },
        None => false,
    }
}

fn static_path_of(path: &str) -> (res: String)
    ensures
        res@ == static_path(path@),
{
    let mut s = String::from_str("public");
    proof {
        reveal_strlit("public");
    }
    assert(s@ =~= static_root());
    s.append(path);
    s
}

fn escapes(fs_path: &String) -> (res: bool)
    ensures
        res == escapes_static_root(fs_path@),
{
    let chars = chars_of(fs_path.as_str());
    let dot_slash: Vec<char> = vec!['.', '/'];
    let dot_dot_slash: Vec<char> = vec!['.', '.', '/'];
    assert(dot_slash@ =~= seq!['.', '/']);
    assert(dot_dot_slash@ =~= seq!['.', '.', '/']);
    contains_chars(&chars, &dot_slash) || contains_chars(&chars, &dot_dot_slash)
}

fn redirect_location(host: &String, path: &String) -> (res: String)
    ensures
        res@ == https_scheme() + host_text(host@) + path@,
{
    let mut s = String::from_str("https://");
    proof {
        reveal_strlit("https://");
    }
    assert(s@ =~= https_scheme());
    let host = host_text_of(host.as_str());
    s.append(host.as_str());
    s.append(path.as_str());
    s
}

impl Server {
    /// An empty table: no routes and no catch-all handler.
    pub fn new() -> (s: Server)
        ensures
            s@.routes == Seq::<RouteSpec>::empty(),
            s@.catch_all is None,
    {
        let s = Server { routes: Vec::new(), catch_all_route: None };
        assert(s@.routes =~= Seq::<RouteSpec>::empty());
        s
    }

    /// Adds a route that accepts exactly the path `path`, after the others.
    pub fn add_route(&mut self, path: &str, handler: HandlerId)
        ensures
            final(self)@.routes == old(self)@.routes.push(RouteSpec::Literal { path: path@, handler }),
            final(self)@.catch_all == old(self)@.catch_all,
    {
        let r = Route::Literal { path: path.to_owned(), handler };
        self.routes.push(r);
        assert(self@.routes =~= old(self)@.routes.push(RouteSpec::Literal { path: path@, handler }));
    }

    /// Adds a route that accepts the paths in which the regular expression
    /// `regex` finds a match, after the others. The expression must compile.
    pub fn add_regex_route(&mut self, regex: &str, handler: HandlerId)
        requires
            regex_compiles(regex@),
        ensures
            final(self)@.routes == old(self)@.routes.push(RouteSpec::Regex { pattern: regex@, handler }),
            final(self)@.catch_all == old(self)@.catch_all,
    {
        match compile(regex) {
            Ok(compiled) => {
                let r = Route::Regex { regex: compiled, handler };
                self.routes.push(r);
                assert(self@.routes =~= old(self)@.routes.push(RouteSpec::Regex { pattern: regex@, handler }));
            },
            Err(_) => {
                assert(false);
            },
        }
    }

    /// Adds a regex route when `regex` compiles; otherwise leaves the table
    /// as it was and reports the error.
    pub fn try_add_regex_route(&mut self, regex: &str, handler: HandlerId) -> (res: Result<(), RouteError>)
        ensures
            res is Ok <==> regex_compiles(regex@),
            res is Ok ==> final(self)@.routes == old(self)@.routes.push(RouteSpec::Regex { pattern: regex@, handler }),
            res is Err ==> final(self)@ == old(self)@,
            res is Err ==> res == Err::<(), RouteError>(RouteError::InvalidRegex),
            final(self)@.catch_all == old(self)@.catch_all,
    {
        match compile(regex) {
            Ok(_) => {
                self.add_regex_route(regex, handler);
                Ok(())
            },
            Err(_) => Err(RouteError::InvalidRegex),
        }
    }

    /// Sets the handler for requests that no route accepts.
    pub fn add_catch_all_route(&mut self, handler: HandlerId)
        ensures
            final(self)@.routes == old(self)@.routes,
            final(self)@.catch_all == Some(handler),
    {
        self.catch_all_route = Some(handler);
    }

    /// The groups that the regex route at `index` finds in `path`: some
    /// exactly when that route is a regex route that accepts the path.
    pub fn route_captures<'a>(&self, index: usize, path: &'a str) -> (res: Option<regex::Captures<'a>>)
        requires
            index < self@.routes.len(),
        ensures
            res is Some == (self@.routes[index as int] is Regex && route_matches(self@.routes[index as int], path@)),
    {
        assert(self.routes@[index as int]@ == self@.routes[index as int]);
        self.routes[index].captures(path)
    }

    /// The number of routes in the table.
    pub fn route_count(&self) -> (n: usize)
        ensures
            n == self@.routes.len(),
    {
        self.routes.len()
    }

    /// The index of the first route that accepts `path`.
    pub fn find_route(&self, path: &str) -> (res: Option<usize>)
        ensures
            match res {
                Some(i) => first_match(self@.routes, path@) == Some(i as int) && i < self@.routes.len(),
                None => first_match(self@.routes, path@) is None,
            },
            res matches Some(i) ==> match self@.routes[i as int] {
                RouteSpec::Literal { path: p, .. } => p == path@,
                RouteSpec::Regex { pattern, .. } => regex_is_match(pattern, path@),
            },
    {
        let n = self.routes.len();
        let mut i: usize = 0;
        while i < n
            invariant
                n == self.routes.len(),
                i <= n,
                first_match(self@.routes.take(i as int), path@) is None,
            decreases n - i,
        {
            let ghost rs = self@.routes;
            assert(rs.take(i + 1).drop_last() =~= rs.take(i as int));
            if self.routes[i].matches(path) {
                assert(first_match(rs.take(i + 1), path@) == Some(i as int));
                proof {
                    lemma_first_index_prefix(rs, i + 1, |r: RouteSpec| route_matches(r, path@));
                }
                assert(rs.len() == n);
                return Some(i);
            }
            i = i + 1;
        }
        assert(self@.routes.take(n as int) =~= self@.routes);
        None
    }

    /// The first step for a request: answers it at once when it is to be
    /// redirected or its static path climbs out of the static tree, and
    /// otherwise asks for a look at the disk.
    pub fn call(&self, req: &RequestHead) -> (step: CallStep)
        requires
            well_formed_request(req@),
        ensures
            match step {
                CallStep::Done(o) => decided_without_disk(req@)
                    && o@ == decide(self@, req@, false) && o@ == decide(self@, req@, true),
                CallStep::CheckFile { fs_path } => !decided_without_disk(req@)
                    && fs_path@ == static_path(req@.path),
            },
            step is CheckFile <==> !needs_https_redirect(req@.forwarded_proto)
                && !has_dot_slash(seq!['p', 'u', 'b', 'l', 'i', 'c'] + req@.path),
            step matches CallStep::CheckFile { fs_path } ==> fs_path@ == seq!['p', 'u', 'b', 'l', 'i', 'c'] + req@.path,
    {
        proof {
            law_refusal_exact(req@);
        }
        if redirect_needed(&req.forwarded_proto) {
            let host = match &req.host {
                Some(h) => h,
                None => {
                    assert(false);
                    return CallStep::Done(Outcome::NotFound);
                },
            };
            return CallStep::Done(Outcome::Redirect { location: redirect_location(host, &req.path) });
        }
        let fs_path = static_path_of(req.path.as_str());
        if escapes(&fs_path) {
            return CallStep::Done(Outcome::NotFound);
        }
        CallStep::CheckFile { fs_path }
    }

    /// What to do with request `req`, where `is_file` tells whether its
    /// static path names a regular file.
    pub fn resolve(&self, req: &RequestHead, is_file: bool) -> (o: Outcome)
        requires
            well_formed_request(req@),
        ensures
            o@ == decide(self@, req@, is_file),
    {
        match self.call(req) {
            CallStep::Done(o) => o,
            CallStep::CheckFile { fs_path } => {
                if is_file {
                    Outcome::ServeFile { fs_path }
                } else {
                    match self.find_route(req.path.as_str()) {
                        Some(i) => {
                            assert(self.routes@[i as int]@ == self@.routes[i as int]);
                            let h = self.routes[i].handler();
                            Outcome::Route { index: i, handler: h }
                        },
                        None => match self.catch_all_route {
                            Some(h) => Outcome::CatchAll { handler: h },
                            None => Outcome::NotFound,
                        },
                    }
                }
            },
        }
    }
}

/// The first route for a path is the lowest-numbered route that accepts
/// it; when there is none, no route accepts the path.
pub proof fn lemma_first_match(rs: Seq<RouteSpec>, path: Seq<char>)
    ensures
        match first_match(rs, path) {
            Some(i) => 0 <= i < rs.len() && route_matches(rs[i], path)
                && forall|j: int| 0 <= j < i ==> !route_matches(#[trigger] rs[j], path),
            None => forall|j: int| 0 <= j < rs.len() ==> !route_matches(#[trigger] rs[j], path),
        },
{
    let p = |r: RouteSpec| route_matches(r, path);
    lemma_first_index(rs, p);
    if first_match(rs, path) is None {
        assert forall|j: int| 0 <= j < rs.len() implies !route_matches(#[trigger] rs[j], path) by {
            assert(!p(rs[j]));
        }
    } else {
        let i = first_match(rs, path).unwrap();
        assert forall|j: int| 0 <= j < i implies !route_matches(#[trigger] rs[j], path) by {
            assert(!p(rs[j]));
        }
    }
}

/// A run of characters found in `s` is also found in `prefix + s`.
proof fn lemma_contains_after_prefix(prefix: Seq<char>, s: Seq<char>, pat: Seq<char>)
    requires
        seq_contains(s, pat),
    ensures
        seq_contains(prefix + s, pat),
{
    let i = choose|i: int| 0 <= i && i + pat.len() <= s.len() && #[trigger] s.subrange(i, i + pat.len()) == pat;
    let j = prefix.len() + i;
    assert((prefix + s).subrange(j, j + pat.len()) =~= s.subrange(i, i + pat.len()));
}

/// A request whose path holds `./` (or `../`) is never answered from the
/// disk nor handed to a handler: it is redirected to HTTPS or answered
/// "not found".
pub proof fn law_dot_paths_refused(s: ServerSpec, r: RequestSpec, is_file: bool)
    requires
        seq_contains(r.path, seq!['.', '/']) || seq_contains(r.path, seq!['.', '.', '/']),
    ensures
        decide(s, r, is_file) is Redirect || decide(s, r, is_file) is NotFound,
{
    if seq_contains(r.path, seq!['.', '/']) {
        lemma_contains_after_prefix(static_root(), r.path, seq!['.', '/']);
    } else {
        lemma_contains_after_prefix(static_root(), r.path, seq!['.', '.', '/']);
    }
}

/// A request marked by its proxy as plain HTTP is redirected to the same
/// host (as hyper's `Host` header writes it back) and path over HTTPS,
/// whatever the routes and the files.
pub proof fn law_plain_http_redirected(s: ServerSpec, r: RequestSpec, is_file: bool)
    requires
        needs_https_redirect(r.forwarded_proto),
        r.host is Some,
    ensures
        decide(s, r, is_file) == (OutcomeSpec::Redirect { location: https_scheme() + host_text(r.host.unwrap()) + r.path }),
{
}

/// A static file is served before any route is tried.
pub proof fn law_files_before_routes(s: ServerSpec, r: RequestSpec)
    requires
        !decided_without_disk(r),
    ensures
        decide(s, r, true) == (OutcomeSpec::ServeFile { fs_path: static_path(r.path) }),
{
}

/// Adding a route never changes the answer to a request that was already
/// redirected, refused, served from disk or handed to an earlier route; and
/// a request that no earlier route accepts goes to the new route when it
/// accepts the path.
pub proof fn law_add_route_keeps_answers(s: ServerSpec, route: RouteSpec, r: RequestSpec, is_file: bool)
    ensures
        ({
            let s2 = ServerSpec { routes: s.routes.push(route), catch_all: s.catch_all };
            &&& !(decide(s, r, is_file) is CatchAll) && !(decide(s, r, is_file) is NotFound)
                ==> decide(s2, r, is_file) == decide(s, r, is_file)
            &&& !decided_without_disk(r) && !is_file && first_match(s.routes, r.path) is None
                && route_matches(route, r.path)
                ==> decide(s2, r, is_file) == (OutcomeSpec::Route { index: s.routes.len() as int, handler: route_handler(route) })
        }),
{
    let rs2 = s.routes.push(route);
    assert(rs2.drop_last() =~= s.routes);
    lemma_first_match(s.routes, r.path);
    assert forall|i: int| 0 <= i < s.routes.len() implies rs2[i] == s.routes[i] by {}
}

/// The catch-all handler only answers requests that no route accepts.
pub proof fn law_catch_all_last(s: ServerSpec, r: RequestSpec, is_file: bool)
    requires
        decide(s, r, is_file) is CatchAll,
    ensures
        forall|j: int| 0 <= j < s.routes.len() ==> !route_matches(#[trigger] s.routes[j], r.path),
        !is_file,
{
    lemma_first_match(s.routes, r.path);
}

/// `s` holds a `.` directly followed by a `/`.
pub open spec fn has_dot_slash(s: Seq<char>) -> bool {
    exists|i: int| 0 <= i && i + 1 < s.len() && #[trigger] s[i] == '.' && s[i + 1] == '/'
}

/// `r` is a literal route for exactly the path `q`.
pub open spec fn is_literal_for(r: RouteSpec, q: Seq<char>) -> bool {
    match r {
        RouteSpec::Literal { path: p, .. } => p == q,
        _ => false,
    }
}

/// A literal route accepts a path exactly when the path is its own.
pub proof fn law_literal_route_exact(p: Seq<char>, h: HandlerId, q: Seq<char>)
    ensures
        route_matches(RouteSpec::Literal { path: p, handler: h }, q) <==> p == q,
{
}

/// The route found for a path: when it is a literal route, its path is the
/// request's path; and a literal route declared for exactly that path means
/// some route, no later than it, is found.
pub proof fn law_found_literal_is_exact(rs: Seq<RouteSpec>, q: Seq<char>)
    ensures
        first_match(rs, q) matches Some(i) ==> match rs[i] {
            RouteSpec::Literal { path: p, .. } => p == q,
            RouteSpec::Regex { pattern, .. } => regex_is_match(pattern, q),
        },
        forall|j: int| 0 <= j < rs.len() && is_literal_for(#[trigger] rs[j], q)
            ==> (first_match(rs, q) matches Some(i) && i <= j),
{
    lemma_first_match(rs, q);
    assert forall|j: int| 0 <= j < rs.len() && is_literal_for(#[trigger] rs[j], q)
        implies (first_match(rs, q) matches Some(i) && i <= j) by {
        assert(route_matches(rs[j], q));
    }
}

proof fn lemma_dot_slash(s: Seq<char>)
    ensures
        escapes_static_root(s) <==> has_dot_slash(s),
{
    if seq_contains(s, seq!['.', '/']) {
        let i = choose|i: int| 0 <= i && i + 2 <= s.len() && #[trigger] s.subrange(i, i + 2) == seq!['.', '/'];
        assert(s.subrange(i, i + 2)[0] == s[i]);
        assert(s.subrange(i, i + 2)[1] == s[i + 1]);
    }
    if seq_contains(s, seq!['.', '.', '/']) {
        let i = choose|i: int| 0 <= i && i + 3 <= s.len() && #[trigger] s.subrange(i, i + 3) == seq!['.', '.', '/'];
        assert(s.subrange(i, i + 3)[1] == s[i + 1]);
        assert(s.subrange(i, i + 3)[2] == s[i + 2]);
    }
    if has_dot_slash(s) {
        let i = choose|i: int| 0 <= i && i + 1 < s.len() && #[trigger] s[i] == '.' && s[i + 1] == '/';
        assert(s.subrange(i, i + 2) =~= seq!['.', '/']);
    }
}

/// A request that needs no redirect is refused without a look at the disk
/// exactly when `public` followed by its path holds `./` (which `../` also
/// holds); every other request goes on to the file check and the routes.
pub proof fn law_refusal_exact(r: RequestSpec)
    ensures
        !needs_https_redirect(r.forwarded_proto) ==> (decided_without_disk(r)
            <==> has_dot_slash(seq!['p', 'u', 'b', 'l', 'i', 'c'] + r.path)),
        !needs_https_redirect(r.forwarded_proto) && !has_dot_slash(seq!['p', 'u', 'b', 'l', 'i', 'c'] + r.path)
            ==> forall|s: ServerSpec| decide(s, r, false) == match first_match(#[trigger] s.routes, r.path) {
                Some(i) => OutcomeSpec::Route { index: i, handler: route_handler(s.routes[i]) },
                None => match s.catch_all {
                    Some(h) => OutcomeSpec::CatchAll { handler: h },
                    None => OutcomeSpec::NotFound,
                },
            },
{
    assert(static_path(r.path) =~= seq!['p', 'u', 'b', 'l', 'i', 'c'] + r.path);
    lemma_dot_slash(static_path(r.path));
}

} // verus!
