//! Credential resolution: map a user's stored records to a backend
//! identity, trying sources in a fixed priority order — stored website URL
//! first, then relay pairing code, then Last.FM username — and stopping at
//! the first success.
//!
//! The asymmetry between the sources is deliberate: a
//! malformed stored website URL fails only that source and falls through
//! silently, while a relay matching failure (a code was found but no unique
//! session uses it) is surfaced and short-circuits the chain — it never
//! falls through to Last.FM.

use vstd::prelude::*;
use crate::creds::{creds_view, CredsModel, LastFMUser, MalojaCredentials, MljboardUser, UserModel};
use crate::records::{
    last_lastfm_username, last_pairing_code, last_website, stored_lastfm_username,
    stored_pairing_code, stored_website, DiscordLastFMUser, DiscordPairingCodeUser,
    DiscordWebsiteUser,
};
use crate::relay::{
    relay_creds_model, relay_session_outcome, resolve_relay_session, get_maloja_creds_for_sid,
    HOSConnectionList, RelayConfig, RelayError,
};
use crate::url_parts::{parse_url_parts, string_is, url_parts_of};

verus! {

/// What the website source yields for one stored record.
#[derive(Debug)]
pub enum WebsiteResolution {
    /// No website URL is stored; the source fails silently.
    NoRecord,
    /// A URL is stored but unusable; the source fails silently.
    MalformedIdentitySource,
    /// The credentials derived from the stored URL.
    WebsiteCreds(MalojaCredentials),
}

/// The credentials that a stored website URL amounts to, or `None` when the
/// URL is unusable: not an absolute URL, a scheme other than `http` or
/// `https`, or no host.
pub open spec fn website_outcome(url: Seq<char>) -> Option<CredsModel> {
    match url_parts_of(url) {
        None => None,
        Some(p) => if p.scheme != "https"@ && p.scheme != "http"@ {
            None
        } else {
            match p.host {
                None => None,
                Some(h) => if h.len() == 0 {
                    None
                } else {
                    Some(
                        CredsModel {
                            https: p.scheme == "https"@,
                            skip_cert_verification: false,
                            host: h,
                            port: match p.port {
                                Some(pt) => pt,
                                None => if p.scheme == "https"@ {
                                    443
                                } else {
                                    80
                                },
                            },
                            path: Some(p.path),
                            headers: None,
                            api_key: None,
                        },
                    )
                },
            }
        },
    }
}

/// Resolve the website source: parse the stored URL, take TLS from its
/// scheme, default the port to 443 for `https` and 80 for `http`, and use
/// its path as-is.
pub fn handle_website_user(rows: &Vec<DiscordWebsiteUser>) -> (r: WebsiteResolution)
    ensures
        match last_website(rows@) {
            None => r is NoRecord,
            Some(u) => match website_outcome(u) {
                None => r is MalformedIdentitySource,
                Some(c) => r matches WebsiteResolution::WebsiteCreds(cr) && creds_view(cr) == c,
            },
        },
        r matches WebsiteResolution::WebsiteCreds(cr) ==> cr.wf(),
{
    match stored_website(rows) {
        None => WebsiteResolution::NoRecord,
        Some(w) => match parse_url_parts(w.as_str()) {
            None => WebsiteResolution::MalformedIdentitySource,
            Some(p) => {
                let is_https = string_is(&p.scheme, "https");
                let is_http = string_is(&p.scheme, "http");
                if !is_https && !is_http {
                    WebsiteResolution::MalformedIdentitySource
                } else {
                    match p.host {
                        None => WebsiteResolution::MalformedIdentitySource,
                        Some(h) => {
                            if h.as_str().is_empty() {
                                WebsiteResolution::MalformedIdentitySource
                            } else {
                                let port: u16 = match p.port {
                                    Some(pt) => pt,
                                    None => if is_https {
                                        443
                                    } else {
                                        80
                                    },
                                };
                                WebsiteResolution::WebsiteCreds(
                                    MalojaCredentials {
                                        https: is_https,
                                        skip_cert_verification: false,
                                        host: h,
                                        port,
                                        path: Some(p.path),
                                        headers: None,
                                        api_key: None,
                                    },
                                )
                            }
                        },
                    }
                }
            },
        },
    }
}

/// Resolve the Last.FM source: succeed exactly when a username is stored.
pub fn handle_lfm_user(rows: &Vec<DiscordLastFMUser>) -> (r: Option<LastFMUser>)
    ensures
        match last_lastfm_username(rows@) {
            None => r is None,
            Some(u) => r matches Some(l) && l.username@ == u,
        },
{
    match stored_lastfm_username(rows) {
        Some(u) => Some(LastFMUser { username: u }),
        None => None,
    }
}

/// Where the priority chain stands after consulting storage alone.
#[derive(Debug)]
pub enum ResolutionStep {
    /// An identity was found without the relay.
    Resolved(MljboardUser),
    /// A pairing code is stored: the relay's connection list must be
    /// fetched and matched before resolution can end.
    NeedRelay(String),
    /// Every source failed; there is no identity at all.
    NoIdentity,
}

/// Ghost mirror of `ResolutionStep`.
pub enum StepModel {
    ResolvedM(UserModel),
    NeedRelayM(Seq<char>),
    NoIdentityM,
}

pub open spec fn step_view(r: ResolutionStep) -> StepModel {
    match r {
        ResolutionStep::Resolved(u) => StepModel::ResolvedM(crate::creds::user_view(u)),
        ResolutionStep::NeedRelay(c) => StepModel::NeedRelayM(c@),
        ResolutionStep::NoIdentity => StepModel::NoIdentityM,
    }
}

/// The priority chain over the three stored values: website first, then
/// pairing code, then Last.FM username.
pub open spec fn resolution_step_model(
    w: Option<Seq<char>>,
    p: Option<Seq<char>>,
    l: Option<Seq<char>>,
) -> StepModel {
    let fallthrough = match p {
        Some(code) => StepModel::NeedRelayM(code),
        None => match l {
            Some(u) => StepModel::ResolvedM(UserModel::LastFMV(u)),
            None => StepModel::NoIdentityM,
        },
    };
    match w {
        Some(u) => match website_outcome(u) {
            Some(c) => StepModel::ResolvedM(UserModel::MalojaV(c)),
            None => fallthrough,
        },
        None => fallthrough,
    }
}

/// Consult the stored records in priority order. A usable website URL
/// resolves at once; otherwise a stored pairing code demands a relay
/// round-trip; otherwise a stored Last.FM username resolves; otherwise
/// there is no identity.
pub fn handle_creds(
    website_rows: &Vec<DiscordWebsiteUser>,
    pairing_rows: &Vec<DiscordPairingCodeUser>,
    lastfm_rows: &Vec<DiscordLastFMUser>,
) -> (r: ResolutionStep)
    ensures
        step_view(r) == resolution_step_model(
            last_website(website_rows@),
            last_pairing_code(pairing_rows@),
            last_lastfm_username(lastfm_rows@),
        ),
{
    match handle_website_user(website_rows) {
        WebsiteResolution::WebsiteCreds(c) => ResolutionStep::Resolved(
            MljboardUser::MalojaUser(c),
        ),
        _ => match stored_pairing_code(pairing_rows) {
            Some(code) => ResolutionStep::NeedRelay(code),
            None => match handle_lfm_user(lastfm_rows) {
                Some(u) => ResolutionStep::Resolved(MljboardUser::LastFMUser(u)),
                None => ResolutionStep::NoIdentity,
            },
        },
    }
}

/// How a whole resolution ends.
#[derive(Debug)]
pub enum ResolutionOutcome {
    /// An identity was found.
    Found(MljboardUser),
    /// A pairing code was stored but relay matching failed; this is
    /// surfaced to the user and does not fall through to Last.FM.
    RelayFailed(RelayError),
    /// Every source failed silently.
    NotFound,
}

/// Ghost mirror of `ResolutionOutcome`.
pub enum OutcomeModel {
    FoundM(UserModel),
    RelayFailedM(RelayError),
    NotFoundM,
}

pub open spec fn outcome_view(r: ResolutionOutcome) -> OutcomeModel {
    match r {
        ResolutionOutcome::Found(u) => OutcomeModel::FoundM(crate::creds::user_view(u)),
        ResolutionOutcome::RelayFailed(e) => OutcomeModel::RelayFailedM(e),
        ResolutionOutcome::NotFound => OutcomeModel::NotFoundM,
    }
}

/// How the relay phase ends for a stored pairing code: the unique matching
/// session's credentials, or the matching error, never a fallback.
pub open spec fn relay_outcome_model(
    conns: Seq<(String, String)>,
    code: Seq<char>,
    cfg: RelayConfig,
) -> OutcomeModel {
    match relay_session_outcome(conns, code) {
        Ok(sid) => OutcomeModel::FoundM(UserModel::MalojaV(relay_creds_model(sid, cfg))),
        Err(e) => OutcomeModel::RelayFailedM(e),
    }
}

/// Finish a resolution that reached the relay phase: match the pairing
/// code against the fetched connection list. A matching failure ends the
/// whole resolution; the Last.FM source is not consulted.
pub fn finish_creds_with_relay(code: String, list: &HOSConnectionList, cfg: &RelayConfig) -> (r:
    ResolutionOutcome)
    ensures
        outcome_view(r) == relay_outcome_model(list.connections@, code@, *cfg),
{
    match resolve_relay_session(list, &code) {
        Ok(sid) => ResolutionOutcome::Found(
            MljboardUser::MalojaUser(get_maloja_creds_for_sid(sid, cfg)),
        ),
        Err(e) => ResolutionOutcome::RelayFailed(e),
    }
}

/// The whole resolution over the stored values, the relay's connection
/// list, and the relay configuration. The connection list enters the
/// outcome only through the relay phase, which runs only when the website
/// source failed and a pairing code is stored.
pub open spec fn full_resolution_model(
    w: Option<Seq<char>>,
    p: Option<Seq<char>>,
    l: Option<Seq<char>>,
    conns: Seq<(String, String)>,
    cfg: RelayConfig,
) -> OutcomeModel {
    match resolution_step_model(w, p, l) {
        StepModel::ResolvedM(u) => OutcomeModel::FoundM(u),
        StepModel::NeedRelayM(code) => relay_outcome_model(conns, code, cfg),
        StepModel::NoIdentityM => OutcomeModel::NotFoundM,
    }
}

/// Resolve an identity from the stored records, using the fetched relay
/// connection list when the chain reaches the relay phase.
pub fn resolve_identity(
    website_rows: &Vec<DiscordWebsiteUser>,
    pairing_rows: &Vec<DiscordPairingCodeUser>,
    lastfm_rows: &Vec<DiscordLastFMUser>,
    list: &HOSConnectionList,
    cfg: &RelayConfig,
) -> (r: ResolutionOutcome)
    ensures
        outcome_view(r) == full_resolution_model(
            last_website(website_rows@),
            last_pairing_code(pairing_rows@),
            last_lastfm_username(lastfm_rows@),
            list.connections@,
            *cfg,
        ),
{
    match handle_creds(website_rows, pairing_rows, lastfm_rows) {
        ResolutionStep::Resolved(u) => ResolutionOutcome::Found(u),
        ResolutionStep::NeedRelay(code) => finish_creds_with_relay(code, list, cfg),
        ResolutionStep::NoIdentity => ResolutionOutcome::NotFound,
    }
}

/// Credentials derived from a stored website URL are well-formed: the
/// host is never empty.
pub proof fn lemma_website_creds_wf(url: Seq<char>)
    ensures
        website_outcome(url) matches Some(c) ==> c.wf(),
{
}

/// Priority law: when a website URL is stored and usable, resolution is
/// the website-derived Maloja identity — whatever is stored for the other
/// sources and whatever the relay reports. The relay and Last.FM sources
/// are never reached.
pub proof fn lemma_website_priority(
    w: Seq<char>,
    p: Option<Seq<char>>,
    l: Option<Seq<char>>,
    conns: Seq<(String, String)>,
    cfg: RelayConfig,
)
    requires
        website_outcome(w) is Some,
    ensures
        full_resolution_model(Some(w), p, l, conns, cfg) == OutcomeModel::FoundM(
            UserModel::MalojaV(website_outcome(w).unwrap()),
        ),
{
}

/// Relay law: when the website source yields nothing, a pairing code is
/// stored, and the relay reports zero sessions using it, resolution ends
/// with `NoActiveClient` — it does not fall through to Last.FM, whatever
/// username is stored there.
pub proof fn lemma_relay_no_client(
    w: Option<Seq<char>>,
    code: Seq<char>,
    l: Option<Seq<char>>,
    conns: Seq<(String, String)>,
    cfg: RelayConfig,
)
    requires
        w matches Some(u) ==> website_outcome(u) is None,
        crate::relay::matching_sids(conns, code).len() == 0,
    ensures
        full_resolution_model(w, Some(code), l, conns, cfg) == OutcomeModel::RelayFailedM(
            RelayError::NoActiveClient,
        ),
{
}

/// Relay law: when the website source yields nothing, a pairing code is
/// stored, and the relay reports two or more sessions using it, resolution
/// ends with `AmbiguousClient`; no session is picked silently and Last.FM
/// is not consulted.
pub proof fn lemma_relay_ambiguous(
    w: Option<Seq<char>>,
    code: Seq<char>,
    l: Option<Seq<char>>,
    conns: Seq<(String, String)>,
    cfg: RelayConfig,
)
    requires
        w matches Some(u) ==> website_outcome(u) is None,
        crate::relay::matching_sids(conns, code).len() >= 2,
    ensures
        full_resolution_model(w, Some(code), l, conns, cfg) == OutcomeModel::RelayFailedM(
            RelayError::AmbiguousClient,
        ),
{
}

} // verus!
