//! The background server's settings and its policy for accepting clients.

use vstd::prelude::*;

use crate::DEFAULT_SOCKET_PATH;

verus! {

/// Settings of the background hotkey server.
#[derive(Debug, Clone)]
pub struct Server {
    /// Path of the socket the server listens on.
    pub socket_path: String,
    /// Serve any number of clients in turn, instead of exactly one.
    pub multi_client: bool,
}

impl Default for Server {
    fn default() -> (r: Server)
        ensures
            r.socket_path@ == DEFAULT_SOCKET_PATH@,
            !r.multi_client,
    {
        Server::new()
    }
}

impl Server {
    /// A single-client server on the default socket path.
    pub fn new() -> (r: Server)
        ensures
            r.socket_path@ == DEFAULT_SOCKET_PATH@,
            !r.multi_client,
    {
        Server { socket_path: String::from_str(DEFAULT_SOCKET_PATH), multi_client: false }
    }

    /// Listen on `path` instead.
    pub fn with_socket_path(self, path: &str) -> (r: Server)
        ensures
            r.socket_path@ == path@,
            r.multi_client == self.multi_client,
    {
        Server { socket_path: String::from_str(path), ..self }
    }

    /// Choose between serving one client and serving many.
    pub fn with_multi_client(self, multi_client: bool) -> (r: Server)
        ensures
            r.socket_path == self.socket_path,
            r.multi_client == multi_client,
    {
        Server { multi_client, ..self }
    }
}

/// The server's decisions about incoming connections.
///
/// In single-client mode exactly one connection is served, and the server ends when it
/// closes, for whatever reason. In multi-client mode every connection is served and the
/// server keeps running when one closes.
#[derive(Debug)]
pub struct Acceptor {
    multi_client: bool,
    served: bool,
}

impl Acceptor {
    pub closed spec fn spec_multi_client(&self) -> bool {
        self.multi_client
    }

    /// Whether a connection has been served.
    pub closed spec fn spec_served(&self) -> bool {
        self.served
    }

    /// The policy for a server in the given mode, before any connection.
    pub fn new(multi_client: bool) -> (r: Acceptor)
        ensures
            r.spec_multi_client() == multi_client,
            !r.spec_served(),
    {
        Acceptor { multi_client, served: false }
    }

    /// A connection arrived: whether to serve it. Refused connections are closed at once.
    pub fn on_connect(&mut self) -> (r: bool)
        ensures
            r == (old(self).spec_multi_client() || !old(self).spec_served()),
            final(self).spec_served(),
            final(self).spec_multi_client() == old(self).spec_multi_client(),
    {
        let serve = self.multi_client || !self.served;
        self.served = true;
        serve
    }

    /// A served connection closed: whether the server keeps running.
    pub fn on_disconnect(&self) -> (r: bool)
        ensures
            r == self.spec_multi_client(),
    {
        self.multi_client
    }
}

} // verus!
