//! The scrobble counter: strategy selection per backend identity, the
//! case-insensitive artist filter over enumerated tracks, the mapping of
//! every backend response to a count or a typed failure, and the total
//! human-readable rendering of either.

use vstd::prelude::*;
use vstd::string::StringExecFns;
use crate::creds::{opt_str_view, MljboardUser, UserModel};
use crate::range::{has_bounds, lastfm_bounds, Range};
use crate::text::{dec_str, lemma_dec_str_nonempty, u64_to_dec_string};

verus! {

/// One enumerated scrobble: the artist name is all the counter reads.
#[derive(Debug, Clone)]
pub struct Track {
    pub artist: String,
}

/// What uppercasing a string yields. The result depends on the characters
/// alone.
pub uninterp spec fn upper_of(s: Seq<char>) -> Seq<char>;

/// Relies on `str::to_uppercase`: the uppercase mapping of a string is a
/// pure function of its characters.
#[verifier::external_body]
fn to_uppercase(s: &str) -> (r: String)
    ensures
        r@ == upper_of(s@),
{
    s.to_uppercase()
}

/// Case-insensitive exact match on artist names.
pub open spec fn artist_eq(a: Seq<char>, b: Seq<char>) -> bool {
    upper_of(a) == upper_of(b)
}

/// Whether a track's artist matches the filter, case-insensitively.
pub fn artist_matches(track_artist: &String, artist: &String) -> (r: bool)
    ensures
        r == artist_eq(track_artist@, artist@),
{
    let a = to_uppercase(track_artist.as_str());
    let b = to_uppercase(artist.as_str());
    a.eq(&b)
}

/// How many enumerated tracks count: all of them with no filter, otherwise
/// those whose artist matches the filter case-insensitively.
pub open spec fn matching_count(ts: Seq<Track>, a: Option<Seq<char>>) -> nat
    decreases ts.len(),
{
    match a {
        None => ts.len(),
        Some(artist) => if ts.len() == 0 {
            0
        } else {
            matching_count(ts.drop_last(), a) + (if artist_eq(ts.last().artist@, artist) {
                1nat
            } else {
                0nat
            })
        },
    }
}

/// The matching count never exceeds the number of tracks.
pub proof fn lemma_matching_count_le(ts: Seq<Track>, a: Option<Seq<char>>)
    ensures
        matching_count(ts, a) <= ts.len(),
    decreases ts.len(),
{
    match a {
        None => {},
        Some(_) => {
            if ts.len() > 0 {
                lemma_matching_count_le(ts.drop_last(), a);
            }
        },
    }
}

/// Count the tracks that pass the optional artist filter.
pub fn count_matching(tracks: &Vec<Track>, artist: &Option<String>) -> (r: u64)
    ensures
        r as nat == matching_count(tracks@, opt_str_view(*artist)),
{
    match artist {
        None => {
            proof {
                lemma_matching_count_le(tracks@, opt_str_view(*artist));
            }
            tracks.len() as u64
        },
        Some(a) => {
            let mut count: u64 = 0;
            let n: usize = tracks.len();
            for i in 0..n
                invariant
                    n == tracks.len(),
                    count <= i,
                    count as nat == matching_count(tracks@.take(i as int), Some(a@)),
            {
                let ghost prefix = tracks@.take(i as int);
                if artist_matches(&tracks[i].artist, a) {
                    count = count + 1;
                }
                proof {
                    assert(tracks@.take(i + 1).drop_last() =~= prefix);
                    assert(tracks@.take(i + 1).last() == tracks@[i as int]);
                }
            }
            proof {
                assert(tracks@.take(n as int) =~= tracks@);
            }
            count
        },
    }
}

/// A typed scrobble-count failure. No partial or approximate count is ever
/// returned as success.
#[derive(Debug, Clone, Copy, PartialEq, Eq, Structural)]
pub enum GetScrobbleCountFailed {
    /// The Last.FM backend failed: unknown user, transport failure, or a
    /// track stream that could not be opened.
    UserNotFound,
    /// The user cancelled a running enumeration.
    CancelOccurred,
    /// The Maloja backend failed: transport failure or a non-success
    /// response.
    MalojaError,
}

impl GetScrobbleCountFailed {
    /// The fixed, stable message for this error kind.
    pub open spec fn message(&self) -> Seq<char> {
        match self {
            GetScrobbleCountFailed::UserNotFound => "Last.FM user not found"@,
            GetScrobbleCountFailed::CancelOccurred => "Cancel occurred"@,
            GetScrobbleCountFailed::MalojaError => "Maloja error"@,
        }
    }

    /// Render the fixed message for this error kind.
    pub fn to_string(&self) -> (s: String)
        ensures
            s@ == self.message(),
            s@.len() > 0,
    {
        match self {
            GetScrobbleCountFailed::UserNotFound => {
                proof {
                    reveal_strlit("Last.FM user not found");
                }
                "Last.FM user not found".to_owned()
            },
            GetScrobbleCountFailed::CancelOccurred => {
                proof {
                    reveal_strlit("Cancel occurred");
                }
                "Cancel occurred".to_owned()
            },
            GetScrobbleCountFailed::MalojaError => {
                proof {
                    reveal_strlit("Maloja error");
                }
                "Maloja error".to_owned()
            },
        }
    }
}

/// Which of the two structurally different counting strategies serves a
/// resolved identity for a given range.
#[derive(Debug, Clone, PartialEq, Eq)]
pub enum CountStrategy {
    /// One server-side-filtered request to the Maloja count endpoint; this
    /// path never streams.
    MalojaAggregate,
    /// One request to the Last.FM aggregate user-info endpoint, which
    /// reports the lifetime total directly; no per-track iteration.
    LastfmAggregate,
    /// Enumerate individual tracks between the epoch bounds through the
    /// paginated stream, filtering client-side.
    LastfmStream(Option<i64>, Option<i64>),
}

/// The strategy an identity and range call for: Maloja identities use the
/// aggregate Maloja endpoint; Last.FM identities use the aggregate
/// user-info endpoint when the range carries no bound information, and the
/// paginated stream otherwise.
pub open spec fn strategy_of(u: UserModel, range: Range) -> CountStrategy {
    match u {
        UserModel::MalojaV(_) => CountStrategy::MalojaAggregate,
        UserModel::LastFMV(_) => if has_bounds(range) {
            CountStrategy::LastfmStream(lastfm_bounds(range).0, lastfm_bounds(range).1)
        } else {
            CountStrategy::LastfmAggregate
        },
    }
}

/// Pick the counting strategy for a resolved identity and range.
pub fn count_strategy(user: &MljboardUser, range: &Range) -> (r: CountStrategy)
    ensures
        r == strategy_of(crate::creds::user_view(*user), *range),
{
    match user {
        MljboardUser::MalojaUser(_) => CountStrategy::MalojaAggregate,
        MljboardUser::LastFMUser(_) => {
            if range.needs_streaming() {
                let bounds = range.lastfm_range_bounds();
                CountStrategy::LastfmStream(bounds.0, bounds.1)
            } else {
                CountStrategy::LastfmAggregate
            }
        },
    }
}

/// How a cancellable track enumeration ended.
#[derive(Debug, Clone)]
pub enum StreamOutcome {
    /// The stream could not be opened at all.
    InitFailed,
    /// The cancel signal won the race; the partial accumulation is
    /// discarded.
    Cancelled,
    /// The stream exhausted naturally with these tracks.
    Completed(Vec<Track>),
}

/// The response of whichever backend call the chosen strategy issued.
#[derive(Debug, Clone)]
pub enum BackendEvent {
    /// The Maloja count endpoint's answer; `None` for a transport failure
    /// or a non-success response.
    MalojaResponse(Option<u64>),
    /// The Last.FM aggregate user-info answer; `None` when the user was
    /// not found or transport failed.
    LastfmInfoResponse(Option<u64>),
    /// How the paginated track enumeration ended.
    LastfmStreamOutcome(StreamOutcome),
}

/// The count or typed failure each backend response amounts to, under the
/// optional artist filter.
pub open spec fn count_outcome(a: Option<Seq<char>>, ev: BackendEvent) -> Result<
    int,
    GetScrobbleCountFailed,
> {
    match ev {
        BackendEvent::MalojaResponse(o) => match o {
            Some(n) => Ok(n as int),
            None => Err(GetScrobbleCountFailed::MalojaError),
        },
        BackendEvent::LastfmInfoResponse(o) => match o {
            Some(n) => Ok(n as int),
            None => Err(GetScrobbleCountFailed::UserNotFound),
        },
        BackendEvent::LastfmStreamOutcome(s) => match s {
            StreamOutcome::InitFailed => Err(GetScrobbleCountFailed::UserNotFound),
            StreamOutcome::Cancelled => Err(GetScrobbleCountFailed::CancelOccurred),
            StreamOutcome::Completed(ts) => Ok(matching_count(ts@, a) as int),
        },
    }
}

/// Map a backend response to the scrobble count or the typed failure:
/// aggregate answers are returned verbatim, an enumerated track list is
/// counted under the artist filter, and each failure keeps its kind.
pub fn get_scrobble_count(artist: &Option<String>, event: BackendEvent) -> (r: Result<
    u64,
    GetScrobbleCountFailed,
>)
    ensures
        match r {
            Ok(n) => count_outcome(opt_str_view(*artist), event) == Ok::<
                int,
                GetScrobbleCountFailed,
            >(n as int),
            Err(e) => count_outcome(opt_str_view(*artist), event) == Err::<
                int,
                GetScrobbleCountFailed,
            >(e),
        },
{
    match event {
        BackendEvent::MalojaResponse(o) => match o {
            Some(n) => Ok(n),
            None => Err(GetScrobbleCountFailed::MalojaError),
        },
        BackendEvent::LastfmInfoResponse(o) => match o {
            Some(n) => Ok(n),
            None => Err(GetScrobbleCountFailed::UserNotFound),
        },
        BackendEvent::LastfmStreamOutcome(s) => match s {
            StreamOutcome::InitFailed => Err(GetScrobbleCountFailed::UserNotFound),
            StreamOutcome::Cancelled => Err(GetScrobbleCountFailed::CancelOccurred),
            StreamOutcome::Completed(ts) => Ok(count_matching(&ts, artist)),
        },
    }
}

/// Render a count result for the end user. Total: every error kind and
/// every count produces a non-empty string; this can always be shown even
/// when the underlying count failed.
pub fn human_readable_result(result: Result<u64, GetScrobbleCountFailed>) -> (s: String)
    ensures
        match result {
            Ok(c) => s@ == dec_str(c as nat),
            Err(e) => s@ == e.message(),
        },
        s@.len() > 0,
{
    match result {
        Ok(count) => {
            proof {
                lemma_dec_str_nonempty(count as nat);
            }
            u64_to_dec_string(count)
        },
        Err(error) => error.to_string(),
    }
}

/// Aggregate law: a Last.FM identity asked over a fully open range is
/// served by the aggregate endpoint — the paginated stream is never
/// opened — and the backend's reported lifetime total is returned
/// verbatim.
pub proof fn lemma_lastfm_open_range_aggregate(
    username: Seq<char>,
    a: Option<Seq<char>>,
    total: u64,
)
    ensures
        strategy_of(UserModel::LastFMV(username), Range::Bounded(None, None))
            == CountStrategy::LastfmAggregate,
        count_outcome(a, BackendEvent::LastfmInfoResponse(Some(total))) == Ok::<
            int,
            GetScrobbleCountFailed,
        >(total as int),
{
}

} // verus!
