//! The pure decisions of the account-setup flows: whether a record is
//! already assigned, and whether a submitted website URL or Last.FM
//! username is acceptable. Storage writes and replies stay outside the
//! library.

use vstd::prelude::*;
use vstd::string::StrSliceExecFns;
use crate::records::{DiscordLastFMUser, DiscordPairingCodeUser, DiscordWebsiteUser};

verus! {

/// Whether a sequence starts with the given prefix.
pub open spec fn has_prefix(s: Seq<char>, p: Seq<char>) -> bool {
    p.len() <= s.len() && s.subrange(0, p.len() as int) == p
}

/// Whether a string starts with the given prefix.
pub fn str_has_prefix(s: &str, p: &str) -> (r: bool)
    ensures
        r == has_prefix(s@, p@),
{
    let ls: usize = s.unicode_len();
    let lp: usize = p.unicode_len();
    if lp > ls {
        return false;
    }
    let mut i: usize = 0;
    while i < lp
        invariant
            ls == s@.len(),
            lp == p@.len(),
            lp <= ls,
            0 <= i <= lp,
            forall|j: int| 0 <= j < i ==> s@[j] == p@[j],
        decreases lp - i,
    {
        if s.get_char(i) != p.get_char(i) {
            proof {
                assert(s@.subrange(0, p@.len() as int)[i as int] != p@[i as int]);
            }
            return false;
        }
        i = i + 1;
    }
    proof {
        assert(s@.subrange(0, p@.len() as int) =~= p@);
    }
    true
}

/// Whether a character counts as alphanumeric. The result depends on the
/// character alone.
pub uninterp spec fn alphanumeric_char(c: char) -> bool;

/// Relies on `char::is_alphanumeric`: a Unicode character class, a pure
/// function of the character.
#[verifier::external_body]
fn char_is_alphanumeric(c: char) -> (r: bool)
    ensures
        r == alphanumeric_char(c),
{
    c.is_alphanumeric()
}

/// What a website-setup request amounts to.
#[derive(Debug, Clone, Copy, PartialEq, Eq, Structural)]
pub enum WebsiteSetupDecision {
    /// A website is already stored; the request is rejected until a reset.
    AlreadySet,
    /// No website was provided.
    NoArgument,
    /// The submitted URL does not start with `http://` or `https://`.
    BadScheme,
    /// The submitted URL may be stored.
    Store,
}

/// Decide a website-setup request: reject when a record already exists,
/// when the argument is empty, or when it does not start with `http://`
/// or `https://`; otherwise it is stored as given.
pub fn website_setup_decision(rows: &Vec<DiscordWebsiteUser>, arg: &str) -> (r:
    WebsiteSetupDecision)
    ensures
        r == (if rows@.len() > 0 {
            WebsiteSetupDecision::AlreadySet
        } else if arg@.len() == 0 {
            WebsiteSetupDecision::NoArgument
        } else if !has_prefix(arg@, "http://"@) && !has_prefix(arg@, "https://"@) {
            WebsiteSetupDecision::BadScheme
        } else {
            WebsiteSetupDecision::Store
        }),
{
    if rows.len() > 0 {
        WebsiteSetupDecision::AlreadySet
    } else if arg.is_empty() {
        WebsiteSetupDecision::NoArgument
    } else if !str_has_prefix(arg, "http://") && !str_has_prefix(arg, "https://") {
        WebsiteSetupDecision::BadScheme
    } else {
        WebsiteSetupDecision::Store
    }
}

/// What a Last.FM-setup request amounts to.
#[derive(Debug, Clone, Copy, PartialEq, Eq, Structural)]
pub enum LfmSetupDecision {
    /// A username is already stored; the request is rejected until a
    /// reset.
    AlreadySet,
    /// No username was provided.
    NoArgument,
    /// The submitted username is 50 characters or longer.
    TooLong,
    /// The submitted username holds a non-alphanumeric character.
    InvalidUsername,
    /// The submitted username may be stored.
    Store,
}

/// Decide a Last.FM-setup request: reject when a record already exists,
/// when the argument is empty, 50 characters or longer, or not entirely
/// alphanumeric; otherwise it is stored as given.
pub fn lfm_setup_decision(rows: &Vec<DiscordLastFMUser>, arg: &str) -> (r: LfmSetupDecision)
    ensures
        r == (if rows@.len() > 0 {
            LfmSetupDecision::AlreadySet
        } else if arg@.len() == 0 {
            LfmSetupDecision::NoArgument
        } else if arg@.len() >= 50 {
            LfmSetupDecision::TooLong
        } else if exists|j: int| 0 <= j < arg@.len() && !alphanumeric_char(arg@[j]) {
            LfmSetupDecision::InvalidUsername
        } else {
            LfmSetupDecision::Store
        }),
{
    if rows.len() > 0 {
        return LfmSetupDecision::AlreadySet;
    }
    if arg.is_empty() {
        return LfmSetupDecision::NoArgument;
    }
    let n: usize = arg.unicode_len();
    if n >= 50 {
        return LfmSetupDecision::TooLong;
    }
    let mut i: usize = 0;
    while i < n
        invariant
            rows@.len() == 0,
            arg@.len() > 0,
            arg@.len() < 50,
            n == arg@.len(),
            0 <= i <= n,
            forall|j: int| 0 <= j < i ==> alphanumeric_char(arg@[j]),
        decreases n - i,
    {
        if !char_is_alphanumeric(arg.get_char(i)) {
            proof {
                assert(0 <= i < arg@.len() && !alphanumeric_char(arg@[i as int]));
            }
            return LfmSetupDecision::InvalidUsername;
        }
        i = i + 1;
    }
    LfmSetupDecision::Store
}

/// Whether a pairing code is already assigned, in which case the setup
/// flow must not issue a new one.
pub fn pairing_code_already_assigned(rows: &Vec<DiscordPairingCodeUser>) -> (r: bool)
    ensures
        r == (rows@.len() > 0),
{
    rows.len() > 0
}

} // verus!
