//! Settings of the HTTP server.
use vstd::prelude::*;
use crate::text::{decimal, push_decimal};

verus! {

/// All settings of the application.
pub struct AppSettings {
    pub server: ServerSettings,
}

/// Where the HTTP server listens.
pub struct ServerSettings {
    pub port: u16,
    pub host: String,
}

/// The text of `http://{host}:{port}`.
pub open spec fn address_text(host: Seq<char>, port: u16) -> Seq<char> {
    "http://"@ + host + ":"@ + decimal(port as nat)
}

impl ServerSettings {
    /// The base URL of the server, `http://{host}:{port}`.
    pub fn address(&self) -> (r: String)
        ensures
            r@ == address_text(self.host@, self.port),
    {
        let mut s = String::from_str("http://");
        s.append(self.host.as_str());
        s.append(":");
        push_decimal(&mut s, self.port as u64);
        assert(s@ =~= address_text(self.host@, self.port));
        s
    }
}

} // verus!
