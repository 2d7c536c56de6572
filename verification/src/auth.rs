//! Who may send requests to the agent.

use vstd::prelude::*;

use crate::config::Config;
use crate::errors::FwcError;
use crate::text::{chars_of, same_chars, split, split_on, texts};

verus! {

/// What is said when the settings cannot be found.
pub const NO_CONFIG: &'static str = "Error accessing configuration from authorization middleware";

/// What is said when callers are restricted and the address of this one
/// cannot be told.
pub const NO_REMOTE_IP: &'static str =
    "Allowed IPs list not empty and was not possible to get the remote IP";

/// The check that every request goes through before it is served.
pub struct Authorize;

/// The address of the peer without its port: what stands before the first
/// colon.
pub open spec fn remote_ip(peer_addr: Seq<char>) -> Seq<char> {
    split(peer_addr, ':')[0]
}

/// Whether a peer at this address is let in: always where no addresses are
/// named, and else where its address is among those named.
pub open spec fn ip_allowed(allowed_ips: Seq<Seq<char>>, peer_addr: Seq<char>) -> bool {
    allowed_ips.len() == 0 || allowed_ips.contains(remote_ip(peer_addr))
}

impl Authorize {
    /// Whether a request is served, given the key that it carries, if it
    /// carries one, and the address of its peer, if that is known. The key
    /// must be the key of the agent; where the settings name the addresses
    /// that may call, the peer must be at one of them.
    #[verifier::loop_isolation(false)]
    pub fn call(cfg: Option<&Config>, api_key: Option<&str>, peer_addr: Option<&str>) -> (res:
        Result<(), FwcError>)
        ensures
            match (cfg, api_key) {
                (None, _) => res matches Err(FwcError::Internal(text)) && text@ == NO_CONFIG@,
                (Some(_), None) => res matches Err(FwcError::ApiKeyNotFound),
                (Some(c), Some(key)) => if c.api_key@ != key@ {
                    res matches Err(FwcError::ApiKeyNotValid)
                } else if c.allowed_ips.len() == 0 {
                    res is Ok
                } else {
                    match peer_addr {
                        None => res matches Err(FwcError::Internal(text)) && text@ == NO_REMOTE_IP@,
                        Some(addr) => if ip_allowed(texts(c.allowed_ips@), addr@) {
                            res is Ok
                        } else {
                            res matches Err(FwcError::NotAllowedIP)
                        },
                    }
                },
            },
    {
        let cfg = match cfg {
            Some(cfg) => cfg,
            None => {
                return Err(FwcError::Internal(NO_CONFIG));
            },
        };
        let api_key = match api_key {
            Some(key) => key,
            None => {
                return Err(FwcError::ApiKeyNotFound);
            },
        };
        if !same_chars(&chars_of(cfg.api_key.as_str()), &chars_of(api_key)) {
            return Err(FwcError::ApiKeyNotValid);
        }
        if cfg.allowed_ips.len() == 0 {
            return Ok(());
        }
        let addr = match peer_addr {
            Some(addr) => addr,
            None => {
                return Err(FwcError::Internal(NO_REMOTE_IP));
            },
        };
        let parts = split_on(&chars_of(addr), ':');
        let ip = &parts[0];
        assert(ip@ == remote_ip(addr@)) by {
            assert(crate::text::rows(parts@)[0] == parts[0]@);
        }
        let mut i: usize = 0;
        while i < cfg.allowed_ips.len()
            invariant
                i <= cfg.allowed_ips.len(),
                ip@ == remote_ip(addr@),
                cfg.allowed_ips.len() > 0,
                cfg.api_key@ == api_key@,
                forall|j: int| 0 <= j < i ==> texts(cfg.allowed_ips@)[j] != ip@,
            decreases cfg.allowed_ips.len() - i,
        {
            if same_chars(&chars_of(cfg.allowed_ips[i].as_str()), ip) {
                assert(texts(cfg.allowed_ips@)[i as int] == ip@);
                assert(texts(cfg.allowed_ips@).contains(ip@));
                return Ok(());
            }
            i += 1;
        }
        Err(FwcError::NotAllowedIP)
    }
}

} // verus!
