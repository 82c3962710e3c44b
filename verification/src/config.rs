//! Process-wide immutable configuration, established once at startup and
//! passed explicitly to the components that need it.

use vstd::prelude::*;
use vstd::string::StringExecFns;

use crate::text::dec_digits;
use crate::text::dec_u64;

verus! {

/// Where the HTTP ingress binds.
pub struct Env {
    pub host: String,
    pub port: u32,
}

impl Env {
    /// The `host:port` bind address.
    pub fn to_address(&self) -> (r: String)
        ensures
            r@ == self.host@ + seq![':'] + dec_digits(self.port as nat),
    {
        proof {
            reveal_strlit(":");
        }
        let mut s = self.host.clone();
        s.append(":");
        let p = dec_u64(self.port as u64);
        s.append(p.as_str());
        assert(s@ =~= self.host@ + seq![':'] + dec_digits(self.port as nat));
        s
    }
}

/// Broker and provider settings read once at startup.
#[derive(Clone)]
pub struct Config {
    pub amqp_url: String,
    pub sendinblue_api_key: String,
}

} // verus!
