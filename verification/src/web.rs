//! The web server's settings.
use crate::node::Endpoint;
use vstd::prelude::*;

verus! {

/// The web server, by the address it serves on.
#[derive(Clone, Copy, Debug, PartialEq, Eq)]
pub struct WebManager {
    pub web_addr: Endpoint,
}

impl WebManager {
    /// A web server for `web_addr`.
    pub fn new(web_addr: Endpoint) -> (r: WebManager)
        ensures
            r.web_addr == web_addr,
    {
        WebManager { web_addr }
    }
}

} // verus!
