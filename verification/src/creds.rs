//! Backend identities: the closed variant describing which music-tracking
//! backend a user resolved to, and the parameters needed to query it.

use vstd::prelude::*;

verus! {

/// Connection parameters for a Maloja-compatible scrobble server.
#[derive(Debug, Clone)]
pub struct MalojaCredentials {
    pub https: bool,
    pub skip_cert_verification: bool,
    pub host: String,
    pub port: u16,
    pub path: Option<String>,
    pub headers: Option<Vec<(String, String)>>,
    pub api_key: Option<String>,
}

/// A Last.FM account handle; not validated at this layer.
#[derive(Debug, Clone)]
pub struct LastFMUser {
    pub username: String,
}

/// The backend identity a user resolved to.
#[derive(Debug, Clone)]
pub enum MljboardUser {
    MalojaUser(MalojaCredentials),
    LastFMUser(LastFMUser),
}

/// Ghost mirror of `MalojaCredentials`, over character sequences.
pub struct CredsModel {
    pub https: bool,
    pub skip_cert_verification: bool,
    pub host: Seq<char>,
    pub port: u16,
    pub path: Option<Seq<char>>,
    pub headers: Option<Seq<(Seq<char>, Seq<char>)>>,
    pub api_key: Option<Seq<char>>,
}

/// Ghost mirror of `MljboardUser`.
pub enum UserModel {
    MalojaV(CredsModel),
    LastFMV(Seq<char>),
}

pub open spec fn opt_str_view(o: Option<String>) -> Option<Seq<char>> {
    match o {
        Some(s) => Some(s@),
        None => None,
    }
}

pub open spec fn headers_view(h: Option<Vec<(String, String)>>) -> Option<
    Seq<(Seq<char>, Seq<char>)>,
> {
    match h {
        Some(v) => Some(v@.map_values(|p: (String, String)| (p.0@, p.1@))),
        None => None,
    }
}

pub open spec fn creds_view(c: MalojaCredentials) -> CredsModel {
    CredsModel {
        https: c.https,
        skip_cert_verification: c.skip_cert_verification,
        host: c.host@,
        port: c.port,
        path: opt_str_view(c.path),
        headers: headers_view(c.headers),
        api_key: opt_str_view(c.api_key),
    }
}

pub open spec fn user_view(u: MljboardUser) -> UserModel {
    match u {
        MljboardUser::MalojaUser(c) => UserModel::MalojaV(creds_view(c)),
        MljboardUser::LastFMUser(l) => UserModel::LastFMV(l.username@),
    }
}

impl MalojaCredentials {
    /// A credential is well-formed when its host is non-empty.
    pub open spec fn wf(&self) -> bool {
        self.host@.len() > 0
    }
}

impl CredsModel {
    /// Ghost-level counterpart of `MalojaCredentials::wf`.
    pub open spec fn wf(&self) -> bool {
        self.host.len() > 0
    }
}

} // verus!
