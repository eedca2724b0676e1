//! The backend-agnostic description of a time window, and its per-backend
//! translation: a token for the Maloja query string, epoch bounds for the
//! Last.FM track stream.

use vstd::prelude::*;
use crate::creds::MljboardUser;

verus! {

/// A time window for a scrobble count.
#[derive(Debug, Clone)]
pub enum Range {
    /// The whole account history.
    AllTime,
    /// An opaque, backend-understood period name such as `thisyear`.
    Named(String),
    /// Explicit epoch-second bounds; either bound may be open. With both
    /// bounds open this is equivalent to `AllTime`.
    Bounded(Option<i64>, Option<i64>),
}

/// Whether the range carries any bound information. Only a `Bounded` range
/// with at least one bound present does; `Bounded(None, None)` is
/// equivalent to `AllTime`.
pub open spec fn has_bounds(r: Range) -> bool {
    match r {
        Range::Bounded(f, t) => f is Some || t is Some,
        _ => false,
    }
}

/// The Maloja range token: `all` for the whole history (also for a fully
/// open `Bounded`), the period name itself for a named period. A `Bounded`
/// range with explicit bounds has no Maloja token.
pub open spec fn maloja_token(r: Range) -> Option<Seq<char>> {
    match r {
        Range::AllTime => Some("all"@),
        Range::Named(l) => Some(l@),
        Range::Bounded(f, t) => if f is None && t is None {
            Some("all"@)
        } else {
            None
        },
    }
}

/// The epoch bounds handed to the Last.FM track stream: the explicit
/// bounds of a `Bounded` range, fully open otherwise.
pub open spec fn lastfm_bounds(r: Range) -> (Option<i64>, Option<i64>) {
    match r {
        Range::Bounded(f, t) => (f, t),
        _ => (None, None),
    }
}

impl Range {
    /// Whether a Last.FM count over this range must enumerate tracks.
    pub fn needs_streaming(&self) -> (r: bool)
        ensures
            r == has_bounds(*self),
    {
        match self {
            Range::Bounded(f, t) => f.is_some() || t.is_some(),
            _ => false,
        }
    }

    /// The Maloja range token, when the range has one.
    pub fn maloja_range_token(&self) -> (r: Option<String>)
        ensures
            crate::creds::opt_str_view(r) == maloja_token(*self),
    {
        match self {
            Range::AllTime => Some("all".to_owned()),
            Range::Named(l) => Some(l.clone()),
            Range::Bounded(f, t) => if f.is_none() && t.is_none() {
                Some("all".to_owned())
            } else {
                None
            },
        }
    }

    /// The epoch bounds for the Last.FM track stream.
    pub fn lastfm_range_bounds(&self) -> (r: (Option<i64>, Option<i64>))
        ensures
            r == lastfm_bounds(*self),
    {
        match self {
            Range::Bounded(f, t) => (*f, *t),
            _ => (None, None),
        }
    }
}

/// The running-year window ending at `now`, translated per backend: the
/// named period `thisyear` for a Maloja identity, the explicit epoch
/// window of the last 31,536,000 seconds for a Last.FM identity.
pub fn this_year_range(user: &MljboardUser, now: i64) -> (r: Range)
    requires
        i64::MIN + 31_536_000 <= now,
    ensures
        match user {
            MljboardUser::MalojaUser(_) => r matches Range::Named(l) && l@ == "thisyear"@,
            MljboardUser::LastFMUser(_) => r == Range::Bounded(
                Some((now - 31_536_000) as i64),
                Some(now),
            ),
        },
{
    match user {
        MljboardUser::MalojaUser(_) => Range::Named("thisyear".to_owned()),
        MljboardUser::LastFMUser(_) => Range::Bounded(Some(now - 31_536_000), Some(now)),
    }
}

/// The whole-history range, translated per backend: `AllTime` for a
/// Maloja identity, a fully open bound pair for a Last.FM identity.
pub fn all_time_range(user: &MljboardUser) -> (r: Range)
    ensures
        match user {
            MljboardUser::MalojaUser(_) => r is AllTime,
            MljboardUser::LastFMUser(_) => r == Range::Bounded(None, None),
        },
        !has_bounds(r),
{
    match user {
        MljboardUser::MalojaUser(_) => Range::AllTime,
        MljboardUser::LastFMUser(_) => Range::Bounded(None, None),
    }
}

} // verus!
