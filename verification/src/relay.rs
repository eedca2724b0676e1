//! Relay session resolution: matching a stored pairing code against the
//! relay server's live connection list, and the credentials built from the
//! matched session.

use vstd::prelude::*;
use vstd::string::StringExecFns;
use crate::creds::{CredsModel, MalojaCredentials};
use crate::text::{dec_str, u64_to_dec_string};

verus! {

/// The relay server's current connection list: pairs of
/// (session-id, pairing-code), retrieved transiently and never persisted.
#[derive(Debug, Clone)]
pub struct HOSConnectionList {
    pub connections: Vec<(String, String)>,
}

/// Connection parameters for the relay server, request-scoped.
#[derive(Debug, Clone)]
pub struct RelayConfig {
    pub host: String,
    pub port: u16,
    pub passwd: Option<String>,
    pub https: bool,
}

/// Why a stored pairing code failed to resolve to a session.
#[derive(Debug, Clone, Copy, PartialEq, Eq, Structural)]
pub enum RelayError {
    /// The code is in use by no connected client.
    NoActiveClient,
    /// The code is in use by two or more simultaneous clients.
    AmbiguousClient,
}

/// The session-ids of every connection whose pairing code equals `code`,
/// in list order.
pub open spec fn matching_sids(conns: Seq<(String, String)>, code: Seq<char>) -> Seq<Seq<char>>
    decreases conns.len(),
{
    if conns.len() == 0 {
        Seq::empty()
    } else {
        let rest = matching_sids(conns.drop_last(), code);
        if conns.last().1@ == code {
            rest.push(conns.last().0@)
        } else {
            rest
        }
    }
}

/// Scan the connection list for sessions using the given pairing code.
pub fn sessions_with_pairing_code(list: &HOSConnectionList, code: &String) -> (r: Vec<String>)
    ensures
        r@.map_values(|s: String| s@) == matching_sids(list.connections@, code@),
{
    let conns = &list.connections;
    let mut out: Vec<String> = Vec::new();
    let n: usize = conns.len();
    for i in 0..n
        invariant
            n == conns.len(),
            out@.map_values(|s: String| s@) == matching_sids(conns@.take(i as int), code@),
    {
        let ghost prefix = conns@.take(i as int);
        if conns[i].1.eq(code) {
            out.push(conns[i].0.clone());
        }
        proof {
            assert(conns@.take(i + 1).drop_last() =~= prefix);
            assert(conns@.take(i + 1).last() == conns@[i as int]);
            assert(out@.map_values(|s: String| s@) =~= matching_sids(
                conns@.take(i + 1),
                code@,
            ));
        }
    }
    proof {
        assert(conns@.take(n as int) =~= conns@);
    }
    out
}

/// What matching a pairing code against the list yields: the unique
/// session-id, or the error naming why there is no unique one.
pub open spec fn relay_session_outcome(conns: Seq<(String, String)>, code: Seq<char>) -> Result<
    Seq<char>,
    RelayError,
> {
    let m = matching_sids(conns, code);
    if m.len() == 0 {
        Err(RelayError::NoActiveClient)
    } else if m.len() > 1 {
        Err(RelayError::AmbiguousClient)
    } else {
        Ok(m[0])
    }
}

pub open spec fn session_result_view(r: Result<String, RelayError>) -> Result<
    Seq<char>,
    RelayError,
> {
    match r {
        Ok(s) => Ok(s@),
        Err(e) => Err(e),
    }
}

/// Find the unique active session using `code`. Zero matches and two or
/// more matches are user-correctable errors; no session is ever picked
/// silently among several.
pub fn resolve_relay_session(list: &HOSConnectionList, code: &String) -> (r: Result<
    String,
    RelayError,
>)
    ensures
        session_result_view(r) == relay_session_outcome(list.connections@, code@),
{
    let sids = sessions_with_pairing_code(list, code);
    if sids.len() == 0 {
        Err(RelayError::NoActiveClient)
    } else if sids.len() > 1 {
        Err(RelayError::AmbiguousClient)
    } else {
        let sid = sids[0].clone();
        proof {
            assert(sid@ == sids@.map_values(|s: String| s@)[0]);
        }
        Ok(sid)
    }
}

/// The credentials built for a matched relay session: the relay's own
/// scheme, host and port, the session addressed under `/sid/<session-id>`,
/// certificate verification skipped only for plain-HTTP relays, and the
/// shared secret (if any) carried in the `HOS-PASSWD` header.
pub open spec fn relay_creds_model(sid: Seq<char>, cfg: RelayConfig) -> CredsModel {
    CredsModel {
        https: cfg.https,
        skip_cert_verification: !cfg.https,
        host: cfg.host@,
        port: cfg.port,
        path: Some("/sid/"@ + sid),
        headers: match cfg.passwd {
            Some(p) => Some(seq![("HOS-PASSWD"@, p@)]),
            None => None,
        },
        api_key: None,
    }
}

/// Build the backend credentials for a matched session-id.
pub fn get_maloja_creds_for_sid(sid: String, cfg: &RelayConfig) -> (r: MalojaCredentials)
    ensures
        crate::creds::creds_view(r) == relay_creds_model(sid@, *cfg),
{
    let path: String = "/sid/".to_owned().concat(sid.as_str());
    let headers: Option<Vec<(String, String)>> = match &cfg.passwd {
        Some(p) => Some(vec![("HOS-PASSWD".to_owned(), p.clone())]),
        None => None,
    };
    let r = MalojaCredentials {
        https: cfg.https,
        skip_cert_verification: !cfg.https,
        host: cfg.host.clone(),
        port: cfg.port,
        path: Some(path),
        headers,
        api_key: None,
    };
    proof {
        match &cfg.passwd {
            Some(p) => {
                assert(crate::creds::headers_view(r.headers) =~= Some(
                    seq![("HOS-PASSWD"@, p@)],
                ));
            },
            None => {},
        }
    }
    r
}

/// Credentials built for a relay session are well-formed whenever the
/// relay configuration names a host.
pub proof fn lemma_relay_creds_wf(sid: Seq<char>, cfg: RelayConfig)
    requires
        cfg.host@.len() > 0,
    ensures
        relay_creds_model(sid, cfg).wf(),
{
}

/// The address of the relay's connection-list endpoint.
pub open spec fn relay_list_url_model(cfg: RelayConfig) -> Seq<char> {
    (if cfg.https {
        "https://"@
    } else {
        "http://"@
    }) + cfg.host@ + ":"@ + dec_str(cfg.port as nat) + "/list"@
}

/// Build the URL of the relay's connection-list endpoint.
pub fn relay_list_url(cfg: &RelayConfig) -> (r: String)
    ensures
        r@ == relay_list_url_model(*cfg),
{
    let base: &str = if cfg.https {
        "https://"
    } else {
        "http://"
    };
    let mut s: String = base.to_owned();
    s.append(cfg.host.as_str());
    s.append(":");
    let port_str = u64_to_dec_string(cfg.port as u64);
    s.append(port_str.as_str());
    s.append("/list");
    s
}

} // verus!
