//! The three per-user records kept by the storage collaborator, and the
//! defensive fold that reduces a multi-row query answer to one stored value.
//!
//! Storage may hold more than one row per user; the fold is defensive,
//! last-write-wins: the value taken is the relevant field of the last row,
//! even when that field is absent there.

use vstd::prelude::*;

verus! {

/// One stored website-URL row.
#[derive(Debug, Clone)]
pub struct DiscordWebsiteUser {
    pub discord_username: Option<String>,
    pub website: Option<String>,
}

/// One stored relay-pairing-code row.
#[derive(Debug, Clone)]
pub struct DiscordPairingCodeUser {
    pub discord_username: Option<String>,
    pub pairing_code: Option<String>,
}

/// One stored Last.FM-username row.
#[derive(Debug, Clone)]
pub struct DiscordLastFMUser {
    pub discord_username: Option<String>,
    pub lastfm_username: Option<String>,
}

/// The stored website URL a row query answer amounts to.
pub open spec fn last_website(rows: Seq<DiscordWebsiteUser>) -> Option<Seq<char>> {
    if rows.len() == 0 {
        None
    } else {
        match rows.last().website {
            Some(w) => Some(w@),
            None => None,
        }
    }
}

/// The stored pairing code a row query answer amounts to.
pub open spec fn last_pairing_code(rows: Seq<DiscordPairingCodeUser>) -> Option<Seq<char>> {
    if rows.len() == 0 {
        None
    } else {
        match rows.last().pairing_code {
            Some(c) => Some(c@),
            None => None,
        }
    }
}

/// The stored Last.FM username a row query answer amounts to.
pub open spec fn last_lastfm_username(rows: Seq<DiscordLastFMUser>) -> Option<Seq<char>> {
    if rows.len() == 0 {
        None
    } else {
        match rows.last().lastfm_username {
            Some(u) => Some(u@),
            None => None,
        }
    }
}

/// Last-write-wins fold over website rows.
pub fn stored_website(rows: &Vec<DiscordWebsiteUser>) -> (r: Option<String>)
    ensures
        opt_view_eq(r, last_website(rows@)),
{
    if rows.len() == 0 {
        None
    } else {
        let row = &rows[rows.len() - 1];
        match &row.website {
            Some(w) => Some(w.clone()),
            None => None,
        }
    }
}

/// Last-write-wins fold over pairing-code rows.
pub fn stored_pairing_code(rows: &Vec<DiscordPairingCodeUser>) -> (r: Option<String>)
    ensures
        opt_view_eq(r, last_pairing_code(rows@)),
{
    if rows.len() == 0 {
        None
    } else {
        let row = &rows[rows.len() - 1];
        match &row.pairing_code {
            Some(c) => Some(c.clone()),
            None => None,
        }
    }
}

/// Last-write-wins fold over Last.FM-username rows.
pub fn stored_lastfm_username(rows: &Vec<DiscordLastFMUser>) -> (r: Option<String>)
    ensures
        opt_view_eq(r, last_lastfm_username(rows@)),
{
    if rows.len() == 0 {
        None
    } else {
        let row = &rows[rows.len() - 1];
        match &row.lastfm_username {
            Some(u) => Some(u.clone()),
            None => None,
        }
    }
}

/// An optional string equals an optional character sequence, by view.
pub open spec fn opt_view_eq(o: Option<String>, v: Option<Seq<char>>) -> bool {
    match (o, v) {
        (Some(s), Some(t)) => s@ == t,
        (None, None) => true,
        _ => false,
    }
}

} // verus!
