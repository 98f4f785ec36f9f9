//! The one-handler application: a handler is registered with `get`, and
//! `listen` starts serving with it.

use vstd::prelude::*;
use crate::server::HandlerId;

verus! {

/// An application with at most one request handler. Every request is given
/// to that handler, whatever its path.
pub struct App {
    server: Option<HandlerId>,
}

impl App {
    /// The handler the application serves with, if one was registered.
    pub closed spec fn handler_view(&self) -> Option<HandlerId> {
        self.server
    }

    /// An application with no handler.
    pub fn new() -> (a: App)
        ensures
            a.handler_view() is None,
    {
        App { server: None }
    }

    /// Registers `handler` for all requests, replacing any earlier handler.
    /// The path is not looked at.
    pub fn get(&mut self, _path: &str, handler: HandlerId)
        ensures
            final(self).handler_view() == Some(handler),
    {
        self.server = Some(handler);
    }

    /// Consumes the application and gives the handler to start serving with;
    /// `None` means there is nothing to serve.
    pub fn listen(self) -> (h: Option<HandlerId>)
        ensures
            h == self.handler_view(),
    {
        self.server
    }
}

} // verus!
