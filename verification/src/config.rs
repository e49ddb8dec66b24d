//! Configuration of the supervised backend and the address derived from it.

use vstd::prelude::*;
use vstd::string::StringExecFns;

use crate::decimal::dec_chars;
use crate::decimal::dec_string;

verus! {

/// Everything the supervisor is told up front: where the backend will listen,
/// how its URL is formed, and the timing bounds of readiness and shutdown.
///
/// The port is pre-chosen here, never discovered from the child; the launch
/// command itself is platform configuration held by the embedding shell.
#[derive(Clone, Debug)]
pub struct SupervisorConfig {
    /// URL scheme of the backend, e.g. `"http"`.
    pub scheme: String,
    /// Host the backend is told to bind, e.g. `"127.0.0.1"`.
    pub host: String,
    /// Port the backend is told to bind.
    pub port: u16,
    /// How often the readiness probe is repeated.
    pub poll_interval_ms: u64,
    /// Longest total wait for readiness before the start is declared failed.
    pub timeout_ms: u64,
    /// Bounded wait for graceful child exit before a forced kill.
    pub grace_period_ms: u64,
}

impl SupervisorConfig {
    /// A configuration the supervisor accepts: non-empty scheme and host,
    /// and non-degenerate timing bounds.
    pub open spec fn wf(self) -> bool {
        &&& self.scheme@.len() > 0
        &&& self.host@.len() > 0
        &&& self.poll_interval_ms >= 1
        &&& self.timeout_ms >= 1
    }
}

impl Default for SupervisorConfig {
    /// Loopback defaults: `http://127.0.0.1:5173`, probed every 50 ms for at
    /// most 10 s, with a 2 s shutdown grace period.
    fn default() -> (c: Self)
        ensures
            c.wf(),
            c.scheme@ == "http"@,
            c.host@ == "127.0.0.1"@,
            c.port == 5173,
            c.poll_interval_ms == 50,
            c.timeout_ms == 10000,
            c.grace_period_ms == 2000,
    {
        proof {
            reveal_strlit("http");
            reveal_strlit("127.0.0.1");
        }
        SupervisorConfig {
            scheme: String::from_str("http"),
            host: String::from_str("127.0.0.1"),
            port: 5173,
            poll_interval_ms: 50,
            timeout_ms: 10000,
            grace_period_ms: 2000,
        }
    }
}

/// The immutable address of the backend, derived from configuration alone.
#[derive(Clone, Debug, PartialEq, Eq)]
pub struct BackendAddress {
    /// URL scheme, e.g. `"http"`.
    pub scheme: String,
    /// Host part of the address.
    pub host: String,
    /// Port part of the address.
    pub port: u16,
}

/// The address a configuration denotes: its scheme, host and port, unchanged.
pub open spec fn address_of(c: SupervisorConfig) -> BackendAddress {
    BackendAddress { scheme: c.scheme, host: c.host, port: c.port }
}

impl BackendAddress {
    /// The characters of the base URL, `scheme://host:port`.
    pub open spec fn url_chars(self) -> Seq<char> {
        self.scheme@ + "://"@ + self.host@ + ":"@ + dec_chars(self.port as nat)
    }

    /// Renders the base URL `scheme://host:port`.
    pub fn url(&self) -> (r: String)
        ensures
            r@ == self.url_chars(),
    {
        let mut s = self.scheme.clone();
        s.append("://");
        s.append(self.host.as_str());
        s.append(":");
        let digits = dec_string(self.port);
        s.append(digits.as_str());
        proof {
            assert(s@ =~= self.url_chars());
        }
        s
    }
}

} // verus!
