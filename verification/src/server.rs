//! The public configuration of the server: how clients clone over SSH and
//! HTTP.
use vstd::prelude::*;
use crate::text::{decimal_of, join2, join3, string_of, u64_to_decimal};

verus! {

/// What clients need to know to clone.
pub struct ServerConfigResponse {
    pub ssh_enabled: bool,
    /// `ssh://git@host:2222/` or `git@host:`.
    pub ssh_clone_url_prefix: String,
    /// `http://localhost:8080/` and the like.
    pub http_clone_url_prefix: String,
}

/// The prefix of SSH clone URLs: none without SSH, the short form on the
/// default port 22, the `ssh://` form with the port otherwise.
pub open spec fn ssh_prefix_of(enabled: bool, host: Seq<char>, port: u16) -> Seq<char> {
    if !enabled {
        Seq::empty()
    } else if port == 22 {
        "git@"@ + host + ":"@
    } else {
        "ssh://git@"@ + host + ":"@ + decimal_of(port as nat) + "/"@
    }
}

/// The prefix of SSH clone URLs.
pub fn ssh_clone_url_prefix(enabled: bool, host: &str, port: u16) -> (r: String)
    ensures
        r@ == ssh_prefix_of(enabled, host@, port),
{
    if !enabled {
        String::new()
    } else if port == 22 {
        join3("git@", host, ":")
    } else {
        let p = string_of(&u64_to_decimal(port as u64));
        let a = join3("ssh://git@", host, ":");
        join3(a.as_str(), p.as_str(), "/")
    }
}

/// The public configuration, for a request that came by `scheme` to
/// `host`.
pub fn server_config(
    ssh_enabled: bool,
    ssh_host: &str,
    ssh_port: u16,
    scheme: &str,
    host: &str,
) -> (r: ServerConfigResponse)
    ensures
        r.ssh_enabled == ssh_enabled,
        r.ssh_clone_url_prefix@ == ssh_prefix_of(ssh_enabled, ssh_host@, ssh_port),
        r.http_clone_url_prefix@ == scheme@ + "://"@ + host@ + "/"@,
{
    let a = join3(scheme, "://", host);
    ServerConfigResponse {
        ssh_enabled,
        ssh_clone_url_prefix: ssh_clone_url_prefix(ssh_enabled, ssh_host, ssh_port),
        http_clone_url_prefix: join2(a.as_str(), "/"),
    }
}

} // verus!
