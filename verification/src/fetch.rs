//! Bookkeeping of the cancellable, paginated Last.FM track fetch: the
//! accumulator that decides when a progress update fires, and the outcome
//! of the race between the stream and the user's cancel signal.
//!
//! The transport layer owns the stream itself and the cancel control; it
//! feeds every yielded track through [`FetchState::on_track`] and closes
//! the accumulation with whichever of the outcome methods the race calls
//! for. The timing of progress updates and the discarding of a cancelled
//! accumulation are decided — and verified — here.

use vstd::prelude::*;
use vstd::string::StringExecFns;
use crate::counter::{StreamOutcome, Track};
use crate::text::{dec_str, u64_to_dec_string};

verus! {

/// Whether a progress update fires once the accumulated count stands at
/// `n`: exactly at every multiple of 1000.
pub open spec fn progress_fires(n: nat) -> bool {
    n % 1000 == 0
}

/// The running accumulation of one paginated track fetch.
#[derive(Debug)]
pub struct FetchState {
    pub tracks: Vec<Track>,
}

impl FetchState {
    /// Start an accumulation with nothing collected.
    pub fn new() -> (s: Self)
        ensures
            s.tracks@ == Seq::<Track>::empty(),
    {
        FetchState { tracks: Vec::new() }
    }

    /// Take one yielded track. The returned flag says whether a progress
    /// update must be emitted now: exactly when the accumulated count has
    /// reached a multiple of 1000.
    pub fn on_track(&mut self, t: Track) -> (emit: bool)
        ensures
            final(self).tracks@ == old(self).tracks@.push(t),
            emit == progress_fires(final(self).tracks@.len()),
    {
        self.tracks.push(t);
        self.tracks.len() % 1000 == 0
    }

    /// The accumulated count so far.
    pub fn count(&self) -> (n: usize)
        ensures
            n == self.tracks@.len(),
    {
        self.tracks.len()
    }

    /// Close the accumulation because the cancel signal won the race. The
    /// partial accumulation is discarded, whatever was gathered.
    pub fn cancel(self) -> (r: StreamOutcome)
        ensures
            r == StreamOutcome::Cancelled,
    {
        StreamOutcome::Cancelled
    }

    /// Close the accumulation because the stream exhausted naturally: the
    /// full accumulated list is the result.
    pub fn complete(self) -> (r: StreamOutcome)
        ensures
            r matches StreamOutcome::Completed(ts) && ts@ == self.tracks@,
    {
        StreamOutcome::Completed(self.tracks)
    }
}

/// Progress law: updates fire exactly at multiples of 1000 accumulated
/// tracks — every multiple fires, anything that fires is a multiple, and
/// in particular 1000 and 2000 fire while 999 and 1001 do not.
pub proof fn lemma_progress_at_multiples(n: nat)
    ensures
        forall|k: nat| progress_fires(#[trigger] (1000 * k)),
        progress_fires(n) ==> n == 1000 * (n / 1000),
        !progress_fires(999),
        progress_fires(1000),
        !progress_fires(1001),
        progress_fires(2000),
{
    assert forall|k: nat| progress_fires(#[trigger] (1000 * k)) by {
        vstd::arithmetic::div_mod::lemma_mod_multiples_basic(k as int, 1000);
    }
    if progress_fires(n) {
        vstd::arithmetic::div_mod::lemma_fundamental_div_mod(n as int, 1000);
    }
}

/// Cancellation law: when the cancel signal wins the race, the outcome the
/// counter reports is `CancelOccurred` — never a partial count — whatever
/// was accumulated and whatever the artist filter is.
pub proof fn lemma_cancel_never_counts(a: Option<Seq<char>>)
    ensures
        crate::counter::count_outcome(
            a,
            crate::counter::BackendEvent::LastfmStreamOutcome(StreamOutcome::Cancelled),
        ) == Err::<int, crate::counter::GetScrobbleCountFailed>(
            crate::counter::GetScrobbleCountFailed::CancelOccurred,
        ),
{
}

/// The epoch window of the 31,536,000 seconds leading up to `now`, which
/// the commands use as the running year.
pub fn past_year_bounds(now: i64) -> (r: (Option<i64>, Option<i64>))
    requires
        i64::MIN + 31_536_000 <= now,
    ensures
        r.0 == Some((now - 31_536_000) as i64),
        r.1 == Some(now),
{
    (Some(now - 31_536_000), Some(now))
}

/// Render the track-count field of the Last.FM user report: the number of
/// enumerated tracks, or the fixed notice when the enumeration failed or
/// was cancelled.
pub fn lfmuser_report(tracks: &Option<Vec<Track>>) -> (s: String)
    ensures
        match tracks {
            Some(ts) => s@ == dec_str(ts@.len() as nat),
            None => s@ == "[user not found, or cancel occurred]"@,
        },
{
    match tracks {
        Some(ts) => u64_to_dec_string(ts.len() as u64),
        None => "[user not found, or cancel occurred]".to_owned(),
    }
}

} // verus!
