//! Command-layer helpers: the stored key a chat account maps to, and the
//! argument text of a prefix command.

use vstd::prelude::*;
use vstd::string::{StrSliceExecFns, StringExecFns};
use crate::text::dec_str;

verus! {

/// The discriminator digits a user record carries: zero when the account
/// has none.
pub open spec fn disc_or_zero(d: Option<u16>) -> u16 {
    match d {
        Some(v) => v,
        None => 0,
    }
}

/// Collapse an optional discriminator, keeping `0` for accounts without
/// one: the `#0` after the name is kept on purpose.
pub fn option_nonzerou16_to_u16(input: Option<u16>) -> (r: u16)
    ensures
        r == disc_or_zero(input),
{
    match input {
        Some(output) => output,
        None => 0,
    }
}

/// Format an account as the storage key `name#discriminator`.
pub fn format_user(name: &String, discriminator: Option<u16>) -> (s: String)
    ensures
        s@ == name@ + "#"@ + dec_str(disc_or_zero(discriminator) as nat),
{
    let mut s = name.clone();
    s.append("#");
    let d = crate::text::u64_to_dec_string(option_nonzerou16_to_u16(discriminator) as u64);
    s.append(d.as_str());
    s
}

/// The text after the first space of a command message: the command's
/// argument. Empty when the message has no space.
pub open spec fn arg_of(s: Seq<char>) -> Seq<char>
    decreases s.len(),
{
    if s.len() == 0 {
        Seq::empty()
    } else if s.first() == ' ' {
        s.drop_first()
    } else {
        arg_of(s.drop_first())
    }
}

proof fn lemma_arg_of_at(s: Seq<char>, i: int)
    requires
        0 <= i < s.len(),
        s[i] == ' ',
        forall|j: int| 0 <= j < i ==> s[j] != ' ',
    ensures
        arg_of(s) == s.subrange(i + 1, s.len() as int),
    decreases i,
{
    if i == 0 {
        assert(s.drop_first() =~= s.subrange(1, s.len() as int));
    } else {
        let t = s.drop_first();
        assert(forall|j: int| 0 <= j < i - 1 ==> t[j] != ' ');
        lemma_arg_of_at(t, i - 1);
        assert(t.subrange(i, t.len() as int) =~= s.subrange(i + 1, s.len() as int));
    }
}

proof fn lemma_arg_of_no_space(s: Seq<char>)
    requires
        forall|j: int| 0 <= j < s.len() ==> s[j] != ' ',
    ensures
        arg_of(s) == Seq::<char>::empty(),
    decreases s.len(),
{
    if s.len() > 0 {
        let t = s.drop_first();
        assert(forall|j: int| 0 <= j < t.len() ==> t[j] != ' ');
        lemma_arg_of_no_space(t);
    }
}

/// Extract a prefix command's argument: everything after the first space,
/// or the empty string when there is none.
pub fn get_arg(content: &String) -> (r: String)
    ensures
        r@ == arg_of(content@),
{
    let s = content.as_str();
    let n: usize = s.unicode_len();
    let mut i: usize = 0;
    while i < n
        invariant
            s@ == content@,
            n == s@.len(),
            0 <= i <= n,
            forall|j: int| 0 <= j < i ==> s@[j] != ' ',
        decreases n - i,
    {
        if s.get_char(i) == ' ' {
            let rest = s.substring_char(i + 1, n);
            proof {
                lemma_arg_of_at(s@, i as int);
            }
            return String::from_str(rest);
        }
        i = i + 1;
    }
    proof {
        lemma_arg_of_no_space(s@);
    }
    String::new()
}

} // verus!
