//! Routes declared on a service's methods: reading a `#[route(GET, "/path")]`
//! attribute, collecting the routes and the not-found handler, and choosing
//! the handler for a request.

use vstd::prelude::*;
use crate::text::str_eq;
use crate::search::{first_index, lemma_first_index, lemma_first_index_append, lemma_first_index_prefix};

verus! {

/// An HTTP request method.
#[derive(PartialEq, Eq, Structural, Debug, Clone, Copy)]
pub enum Method {
    Get,
    Head,
    Post,
    Put,
    Delete,
    Connect,
    Options,
    Trace,
    Patch,
    Other,
}

/// A token of a route attribute's argument list.
pub enum AttrToken {
    /// An identifier, such as `GET`.
    Ident(String),
    /// A punctuation character, such as `,`.
    Punct(char),
    /// A literal; for a string literal, its value.
    Literal(String),
    /// A delimited group.
    Group,
}

pub enum AttrTokenSpec {
    Ident(Seq<char>),
    Punct(char),
    Literal(Seq<char>),
    Group,
}

impl View for AttrToken {
    type V = AttrTokenSpec;

    open spec fn view(&self) -> AttrTokenSpec {
        match self {
            AttrToken::Ident(s) => AttrTokenSpec::Ident(s@),
            AttrToken::Punct(c) => AttrTokenSpec::Punct(*c),
            AttrToken::Literal(s) => AttrTokenSpec::Literal(s@),
            AttrToken::Group => AttrTokenSpec::Group,
        }
    }
}

/// The item an attribute is placed on.
pub enum MacroItem {
    /// A function, by its name.
    Function(String),
    /// An item that is not a function.
    Other,
    /// Tokens that do not form an item at all.
    Unparsable,
}

/// Why a route attribute is refused; each is a compile-time error of the
/// service that declares it.
#[derive(Debug)]
pub enum MacroError {
    /// The tokens the attribute is placed on do not form an item.
    NotAnItem,
    /// The attribute is placed on an item that is not a function.
    NotAFunction,
    /// The attribute has no arguments.
    MissingMethod,
    /// The first argument is not an identifier.
    MethodNotIdent,
    /// The method named by the first argument is not supported.
    UnsupportedMethod(String),
    /// There is no third token (the path).
    MissingPath,
    /// The third token is not a literal.
    PathNotLiteral,
}

pub enum MacroErrorSpec {
    NotAnItem,
    NotAFunction,
    MissingMethod,
    MethodNotIdent,
    UnsupportedMethod(Seq<char>),
    MissingPath,
    PathNotLiteral,
}

impl View for MacroError {
    type V = MacroErrorSpec;

    open spec fn view(&self) -> MacroErrorSpec {
        match self {
            MacroError::NotAnItem => MacroErrorSpec::NotAnItem,
            MacroError::NotAFunction => MacroErrorSpec::NotAFunction,
            MacroError::MissingMethod => MacroErrorSpec::MissingMethod,
            MacroError::MethodNotIdent => MacroErrorSpec::MethodNotIdent,
            MacroError::UnsupportedMethod(s) => MacroErrorSpec::UnsupportedMethod(s@),
            MacroError::MissingPath => MacroErrorSpec::MissingPath,
            MacroError::PathNotLiteral => MacroErrorSpec::PathNotLiteral,
        }
    }
}

pub open spec fn get_name() -> Seq<char> {
    seq!['G', 'E', 'T']
}

/// What the argument list `tokens` of a route attribute declares: the path
/// of a `GET` route when the first token is the identifier `GET` and the
/// third a literal (the second, a separator, is not looked at); otherwise
/// the first of the errors met in that order.
pub open spec fn parse_attr_spec(tokens: Seq<AttrTokenSpec>) -> Result<Seq<char>, MacroErrorSpec> {
    if tokens.len() == 0 {
        Err(MacroErrorSpec::MissingMethod)
    } else {
        match tokens[0] {
            AttrTokenSpec::Ident(name) => if name != get_name() {
                Err(MacroErrorSpec::UnsupportedMethod(name))
            } else if tokens.len() < 3 {
                Err(MacroErrorSpec::MissingPath)
            } else {
                match tokens[2] {
                    AttrTokenSpec::Literal(path) => Ok(path),
                    _ => Err(MacroErrorSpec::PathNotLiteral),
                }
            },
            _ => Err(MacroErrorSpec::MethodNotIdent),
        }
    }
}

/// Reads the argument list of a route attribute: the method and the path.
pub fn parse_route_attr(tokens: &Vec<AttrToken>) -> (res: Result<(Method, String), MacroError>)
    ensures
        match res {
            Ok((m, p)) => m == Method::Get && parse_attr_spec(tokens@.map_values(|t: AttrToken| t@)) == Ok::<Seq<char>, MacroErrorSpec>(p@)
                && tokens@.len() >= 3 && tokens@[0]@ == AttrTokenSpec::Ident(seq!['G', 'E', 'T'])
                && tokens@[2]@ == AttrTokenSpec::Literal(p@),
            Err(e) => parse_attr_spec(tokens@.map_values(|t: AttrToken| t@)) == Err::<Seq<char>, MacroErrorSpec>(e@),
        },
{
    let ghost ts = tokens@.map_values(|t: AttrToken| t@);
    if tokens.len() == 0 {
        return Err(MacroError::MissingMethod);
    }
    assert(ts[0] == tokens@[0]@);
    match &tokens[0] {
        AttrToken::Ident(name) => {
            proof {
                reveal_strlit("GET");
            }
            assert("GET"@ =~= get_name());
            if !str_eq(name.as_str(), "GET") {
                return Err(MacroError::UnsupportedMethod(name.clone()));
            }
            if tokens.len() < 3 {
                return Err(MacroError::MissingPath);
            }
            assert(ts[2] == tokens@[2]@);
            match &tokens[2] {
                AttrToken::Literal(path) => Ok((Method::Get, path.clone())),
                _ => Err(MacroError::PathNotLiteral),
            }
        },
        _ => Err(MacroError::MethodNotIdent),
    }
}

/// A declared route: the service method `name` answers `method` requests
/// for exactly `path`.
#[derive(Debug)]
pub struct RouteEntry {
    pub name: String,
    pub method: Method,
    pub path: String,
}

pub struct RouteEntrySpec {
    pub name: Seq<char>,
    pub method: Method,
    pub path: Seq<char>,
}

impl View for RouteEntry {
    type V = RouteEntrySpec;

    open spec fn view(&self) -> RouteEntrySpec {
        RouteEntrySpec { name: self.name@, method: self.method, path: self.path@ }
    }
}

/// The routes of a service in the order they were declared, and the method
/// that answers requests no route accepts.
pub struct RouteTable {
    routes: Vec<RouteEntry>,
    not_found: Option<String>,
}

pub struct RouteTableSpec {
    pub routes: Seq<RouteEntrySpec>,
    pub not_found: Option<Seq<char>>,
}

impl View for RouteTable {
    type V = RouteTableSpec;

    closed spec fn view(&self) -> RouteTableSpec {
        RouteTableSpec {
            routes: self.routes@.map_values(|e: RouteEntry| e@),
            not_found: match self.not_found {
                Some(n) => Some(n@),
                None => None,
            },
        }
    }
}

pub open spec fn entry_accepts(e: RouteEntrySpec, method: Method, path: Seq<char>) -> bool {
    e.method == method && e.path == path
}

/// The index of the first declared route for `method` and `path`.
pub open spec fn first_entry(rs: Seq<RouteEntrySpec>, method: Method, path: Seq<char>) -> Option<int> {
    first_index(rs, |e: RouteEntrySpec| entry_accepts(e, method, path))
}

/// Which method answers a request.
#[derive(Debug)]
pub enum Dispatch {
    /// The declared route's method of this name.
    Handler(String),
    /// The not-found method of this name.
    NotFound(String),
    /// No method: the built-in "404" page.
    DefaultNotFound,
}

pub enum DispatchSpec {
    Handler(Seq<char>),
    NotFound(Seq<char>),
    DefaultNotFound,
}

impl View for Dispatch {
    type V = DispatchSpec;

    open spec fn view(&self) -> DispatchSpec {
        match self {
            Dispatch::Handler(n) => DispatchSpec::Handler(n@),
            Dispatch::NotFound(n) => DispatchSpec::NotFound(n@),
            Dispatch::DefaultNotFound => DispatchSpec::DefaultNotFound,
        }
    }
}

/// The method that answers a `method` request for `path`: the first route
/// declared for both; else the not-found method; else the built-in page.
pub open spec fn dispatch_spec(t: RouteTableSpec, method: Method, path: Seq<char>) -> DispatchSpec {
    match first_entry(t.routes, method, path) {
        Some(i) => DispatchSpec::Handler(t.routes[i].name),
        None => match t.not_found {
            Some(n) => DispatchSpec::NotFound(n),
            None => DispatchSpec::DefaultNotFound,
        },
    }
}

/// The first route for a method and path is the lowest-numbered route
/// declared for both; when there is none, no route is declared for both.
pub proof fn lemma_first_entry(rs: Seq<RouteEntrySpec>, method: Method, path: Seq<char>)
    ensures
        match first_entry(rs, method, path) {
            Some(i) => 0 <= i < rs.len() && entry_accepts(rs[i], method, path)
                && forall|j: int| 0 <= j < i ==> !entry_accepts(#[trigger] rs[j], method, path),
            None => forall|j: int| 0 <= j < rs.len() ==> !entry_accepts(#[trigger] rs[j], method, path),
        },
{
    let p = |e: RouteEntrySpec| entry_accepts(e, method, path);
    lemma_first_index(rs, p);
    if first_entry(rs, method, path) is None {
        assert forall|j: int| 0 <= j < rs.len() implies !entry_accepts(#[trigger] rs[j], method, path) by {
            assert(!p(rs[j]));
        }
    } else {
        let i = first_entry(rs, method, path).unwrap();
        assert forall|j: int| 0 <= j < i implies !entry_accepts(#[trigger] rs[j], method, path) by {
            assert(!p(rs[j]));
        }
    }
}

impl RouteTable {
    /// A table with no routes and no not-found method.
    pub fn new() -> (t: RouteTable)
        ensures
            t@.routes == Seq::<RouteEntrySpec>::empty(),
            t@.not_found is None,
    {
        let t = RouteTable { routes: Vec::new(), not_found: None };
        assert(t@.routes =~= Seq::<RouteEntrySpec>::empty());
        t
    }

    /// Declares a route, as `#[route(GET, "/path")]` placed on the function
    /// `item` does: the route goes after the others. `attr` is the argument
    /// list of the attribute; it must declare a route (see
    /// [`parse_attr_spec`]) and `item` must be a function, which are the
    /// declarations the attribute accepts.
    pub fn route(&mut self, item: &MacroItem, attr: &Vec<AttrToken>)
        requires
            item is Function,
            parse_attr_spec(attr@.map_values(|t: AttrToken| t@)) is Ok,
        ensures
            item matches MacroItem::Function(name) && final(self)@.routes == old(self)@.routes.push(
                RouteEntrySpec {
                    name: name@,
                    method: Method::Get,
                    path: parse_attr_spec(attr@.map_values(|t: AttrToken| t@))->Ok_0,
                },
            ),
            final(self)@.not_found == old(self)@.not_found,
            attr@.len() >= 3 && match attr@[2]@ {
                AttrTokenSpec::Literal(p) => final(self)@.routes.last().path == p,
                _ => false,
            },
    {
        match item {
            MacroItem::Function(name) => {
                match parse_route_attr(attr) {
                    Ok((method, path)) => {
                        let e = RouteEntry { name: name.clone(), method, path };
                        self.routes.push(e);
                        assert(self@.routes =~= old(self)@.routes.push(
                            RouteEntrySpec { name: name@, method: Method::Get, path: path@ }));
                    },
                    Err(_) => {
                        assert(false);
                    },
                }
            },
            _ => {
                assert(false);
            },
        }
    }

    /// Declares a route when the declaration is one the attribute accepts;
    /// otherwise leaves the table as it was and reports why the attribute
    /// refuses it. Tokens that are not an item, and an item that is not a
    /// function, are refused before the arguments are read.
    pub fn try_route(&mut self, item: &MacroItem, attr: &Vec<AttrToken>) -> (res: Result<(), MacroError>)
        ensures
            match item {
                MacroItem::Other => res matches Err(e) && e@ == MacroErrorSpec::NotAFunction
                    && final(self)@ == old(self)@,
                MacroItem::Unparsable => res matches Err(e) && e@ == MacroErrorSpec::NotAnItem
                    && final(self)@ == old(self)@,
                MacroItem::Function(name) => match parse_attr_spec(attr@.map_values(|t: AttrToken| t@)) {
                    Ok(path) => res is Ok && final(self)@.not_found == old(self)@.not_found
                        && final(self)@.routes == old(self)@.routes.push(
                            RouteEntrySpec { name: name@, method: Method::Get, path }),
                    Err(e) => res matches Err(r) && r@ == e && final(self)@ == old(self)@,
                },
            },
    {
        match item {
            MacroItem::Other => Err(MacroError::NotAFunction),
            MacroItem::Unparsable => Err(MacroError::NotAnItem),
            MacroItem::Function(_) => {
                match parse_route_attr(attr) {
                    Ok(_) => {
                        self.route(item, attr);
                        Ok(())
                    },
                    Err(e) => Err(e),
                }
            },
        }
    }

    /// Declares the not-found method, replacing any earlier one, as
    /// `#[not_found]` placed on the function `item` does. The attribute's
    /// own arguments `_attr` are not read. `item` must be a function, which
    /// is what the attribute accepts.
    pub fn not_found(&mut self, _attr: &Vec<AttrToken>, item: &MacroItem)
        requires
            item is Function,
        ensures
            item matches MacroItem::Function(name) && final(self)@.not_found == Some(name@),
            final(self)@.routes == old(self)@.routes,
    {
        match item {
            MacroItem::Function(name) => {
                self.not_found = Some(name.clone());
            },
            _ => {
                assert(false);
            },
        }
    }

    /// Declares the not-found method when `item` is a function; otherwise
    /// leaves the table as it was and reports why the attribute refuses it.
    /// The attribute's own arguments `attr` are not read.
    pub fn try_not_found(&mut self, attr: &Vec<AttrToken>, item: &MacroItem) -> (res: Result<(), MacroError>)
        ensures
            match item {
                MacroItem::Other => res matches Err(e) && e@ == MacroErrorSpec::NotAFunction
                    && final(self)@ == old(self)@,
                MacroItem::Unparsable => res matches Err(e) && e@ == MacroErrorSpec::NotAnItem
                    && final(self)@ == old(self)@,
                MacroItem::Function(name) => res is Ok && final(self)@.routes == old(self)@.routes
                    && final(self)@.not_found == Some(name@),
            },
    {
        match item {
            MacroItem::Other => Err(MacroError::NotAFunction),
            MacroItem::Unparsable => Err(MacroError::NotAnItem),
            MacroItem::Function(_) => {
                self.not_found(attr, item);
                Ok(())
            },
        }
    }

    /// The method that answers a `method` request for `path`.
    pub fn dispatch(&self, method: Method, path: &str) -> (d: Dispatch)
        ensures
            d@ == dispatch_spec(self@, method, path@),
            d@ matches DispatchSpec::Handler(n) ==> exists|i: int|
                0 <= i < self@.routes.len() && self@.routes[i].method == method
                    && self@.routes[i].path == path@ && self@.routes[i].name == n,
    {
        let n = self.routes.len();
        let ghost rs = self@.routes;
        let mut i: usize = 0;
        while i < n
            invariant
                n == self.routes.len(),
                rs == self@.routes,
                i <= n,
                first_entry(rs.take(i as int), method, path@) is None,
            decreases n - i,
        {
            assert(rs.take(i + 1).drop_last() =~= rs.take(i as int));
            let e = &self.routes[i];
            assert(rs[i as int] == e@);
            if e.method == method && str_eq(e.path.as_str(), path) {
                assert(first_entry(rs.take(i + 1), method, path@) == Some(i as int));
                proof {
                    lemma_first_index_prefix(rs, i + 1, |e: RouteEntrySpec| entry_accepts(e, method, path@));
                }
                return Dispatch::Handler(e.name.clone());
            }
            i = i + 1;
        }
        assert(rs.take(n as int) =~= rs);
        match &self.not_found {
            Some(name) => Dispatch::NotFound(name.clone()),
            None => Dispatch::DefaultNotFound,
        }
    }
}

/// Declaring a route never changes the method that answers a request some
/// earlier route already answers; a request no earlier route answers is
/// answered by the new route when it is declared for that request, and is
/// otherwise answered as before.
pub proof fn law_route_declaration(t: RouteTableSpec, e: RouteEntrySpec, method: Method, path: Seq<char>)
    ensures
        ({
            let t2 = RouteTableSpec { routes: t.routes.push(e), not_found: t.not_found };
            &&& first_entry(t.routes, method, path) is Some ==> dispatch_spec(t2, method, path)
                == dispatch_spec(t, method, path)
            &&& first_entry(t.routes, method, path) is None && entry_accepts(e, method, path)
                ==> dispatch_spec(t2, method, path) == DispatchSpec::Handler(e.name)
            &&& first_entry(t.routes, method, path) is None && !entry_accepts(e, method, path)
                ==> dispatch_spec(t2, method, path) == dispatch_spec(t, method, path)
        }),
{
    let rs2 = t.routes.push(e);
    assert(rs2.drop_last() =~= t.routes);
    lemma_first_entry(t.routes, method, path);
}

/// Routes declared one after another, from a table `t`, are tried in the
/// order of declaration after the routes already there, duplicates
/// included: a request goes to the first route of `t` declared for it,
/// else to the first of `es` declared for it, else to the not-found method,
/// else to the built-in page.
pub proof fn law_declarations_in_order(t: RouteTableSpec, es: Seq<RouteEntrySpec>, method: Method, path: Seq<char>)
    ensures
        dispatch_spec(RouteTableSpec { routes: t.routes + es, not_found: t.not_found }, method, path) ==
            match first_entry(t.routes, method, path) {
                Some(i) => DispatchSpec::Handler(t.routes[i].name),
                None => match first_entry(es, method, path) {
                    Some(j) => DispatchSpec::Handler(es[j].name),
                    None => match t.not_found {
                        Some(n) => DispatchSpec::NotFound(n),
                        None => DispatchSpec::DefaultNotFound,
                    },
                },
            },
{
    let p = |e: RouteEntrySpec| entry_accepts(e, method, path);
    lemma_first_index_append(t.routes, es, p);
    lemma_first_entry(t.routes, method, path);
    lemma_first_entry(es, method, path);
    if let Some(j) = first_entry(es, method, path) {
        if first_entry(t.routes, method, path) is None {
            assert((t.routes + es)[t.routes.len() + j] == es[j]);
        }
    }
    if let Some(i) = first_entry(t.routes, method, path) {
        assert((t.routes + es)[i] == t.routes[i]);
    }
}

/// Once a not-found method is declared, the built-in page is never the
/// answer, however many routes are declared before or after: a request that
/// no route is declared for goes to the latest not-found method.
pub proof fn law_not_found_replaces_default(t: RouteTableSpec, es: Seq<RouteEntrySpec>, name: Seq<char>, method: Method, path: Seq<char>)
    ensures
        ({
            let t2 = RouteTableSpec { routes: t.routes + es, not_found: Some(name) };
            &&& dispatch_spec(t2, method, path) != DispatchSpec::DefaultNotFound
            &&& first_entry(t2.routes, method, path) is None
                ==> dispatch_spec(t2, method, path) == DispatchSpec::NotFound(name)
        }),
{
}

/// A request is answered by a declared route only when that route was
/// declared for exactly the request's method and path, and by the first
/// such route; a request that some route is declared for exactly is always
/// answered by a route; a request that no route is declared for exactly is
/// answered by the not-found method, or by the built-in page when there is
/// none.
pub proof fn law_dispatch_exact(t: RouteTableSpec, method: Method, path: Seq<char>)
    ensures
        dispatch_spec(t, method, path) matches DispatchSpec::Handler(n) ==> exists|i: int|
            0 <= i < t.routes.len() && t.routes[i].method == method && t.routes[i].path == path
                && t.routes[i].name == n
                && forall|j: int| 0 <= j < i ==> !(#[trigger] t.routes[j].method == method && t.routes[j].path == path),
        (exists|i: int| 0 <= i < t.routes.len() && #[trigger] t.routes[i].method == method && t.routes[i].path == path)
            ==> dispatch_spec(t, method, path) is Handler,
        (forall|i: int| 0 <= i < t.routes.len() ==> !(#[trigger] t.routes[i].method == method && t.routes[i].path == path))
            ==> dispatch_spec(t, method, path) == match t.not_found {
                Some(n) => DispatchSpec::NotFound(n),
                None => DispatchSpec::DefaultNotFound,
            },
{
    lemma_first_entry(t.routes, method, path);
    if let Some(i) = first_entry(t.routes, method, path) {
        assert forall|j: int| 0 <= j < i implies !(#[trigger] t.routes[j].method == method && t.routes[j].path == path) by {
            assert(!entry_accepts(t.routes[j], method, path));
        }
    } else {
        if exists|i: int| 0 <= i < t.routes.len() && #[trigger] t.routes[i].method == method && t.routes[i].path == path {
            let i = choose|i: int| 0 <= i < t.routes.len() && #[trigger] t.routes[i].method == method && t.routes[i].path == path;
            assert(!entry_accepts(t.routes[i], method, path));
        }
    }
    if forall|i: int| 0 <= i < t.routes.len() ==> !(#[trigger] t.routes[i].method == method && t.routes[i].path == path) {
        if let Some(i) = first_entry(t.routes, method, path) {
            assert(entry_accepts(t.routes[i], method, path));
            assert(!(t.routes[i].method == method && t.routes[i].path == path));
        }
    }
}

/// How a route attribute's argument list is read: with no arguments the
/// method is missing; a first argument that is not an identifier, or an
/// identifier other than `GET`, is refused; after `GET` a third token is
/// needed, and it must be a literal, whose text is the route's path as it
/// is written.
pub proof fn law_route_attribute(ts: Seq<AttrTokenSpec>)
    ensures
        ts.len() == 0 ==> parse_attr_spec(ts) == Err::<Seq<char>, MacroErrorSpec>(MacroErrorSpec::MissingMethod),
        ts.len() > 0 && !(ts[0] is Ident) ==> parse_attr_spec(ts) == Err::<Seq<char>, MacroErrorSpec>(MacroErrorSpec::MethodNotIdent),
        ts.len() > 0 ==> match ts[0] {
            AttrTokenSpec::Ident(n) => n != seq!['G', 'E', 'T']
                ==> parse_attr_spec(ts) == Err::<Seq<char>, MacroErrorSpec>(MacroErrorSpec::UnsupportedMethod(n)),
            _ => true,
        },
        0 < ts.len() < 3 && ts[0] == AttrTokenSpec::Ident(seq!['G', 'E', 'T'])
            ==> parse_attr_spec(ts) == Err::<Seq<char>, MacroErrorSpec>(MacroErrorSpec::MissingPath),
        ts.len() >= 3 && ts[0] == AttrTokenSpec::Ident(seq!['G', 'E', 'T']) && !(ts[2] is Literal)
            ==> parse_attr_spec(ts) == Err::<Seq<char>, MacroErrorSpec>(MacroErrorSpec::PathNotLiteral),
        ts.len() >= 3 && ts[0] == AttrTokenSpec::Ident(seq!['G', 'E', 'T']) ==> match ts[2] {
            AttrTokenSpec::Literal(p) => parse_attr_spec(ts) == Ok::<Seq<char>, MacroErrorSpec>(p),
            _ => true,
        },
{
    assert(get_name() =~= seq!['G', 'E', 'T']);
}

} // verus!
