# sparkles

A small web framework whose request-handling decisions are verified with Verus.

- `src/server.rs` — the route table (literal and regular-expression routes, a
  catch-all handler) and, for each request, the decision: redirect to HTTPS,
  refuse, serve a static file, hand to a route, or answer "not found".
- `src/routing.rs` — routes declared with `#[route(GET, "/path")]` and a
  not-found method: reading the attribute, collecting routes, dispatching.
- `src/templates.rs` — template names from file names.
- `src/host.rs` — the `Host` header as it is written into a redirect.
- `src/search.rs` — the first element of a sequence that satisfies a predicate.
- `src/response.rs`, `src/response_builder.rs` — responses and their builder.
- `src/application.rs` — the one-handler application.
- `src/pages.rs` — the pages of the example service.
- `src/pattern.rs` — regular expressions through the `regex` crate.
- `src/text.rs` — character-level string helpers.
- `app/` — the servers around the library (hyper and `simple_server`; sockets, files, templates).
