//! The short verification code that stands in for the master passphrase.

use vstd::prelude::*;
use vstd::string::StrSliceExecFns;

verus! {

/// Number of trailing characters of the master passphrase that form the code.
pub const CODE_LEN: usize = 3;

/// The last `n` elements of `s`.
pub open spec fn suffix(s: Seq<char>, n: nat) -> Seq<char>
    recommends
        n <= s.len(),
{
    s.subrange(s.len() - n, s.len() as int)
}

/// The code that a passphrase yields, if it is long enough to yield one.
pub open spec fn code_of(passphrase: Seq<char>) -> Option<Seq<char>> {
    if passphrase.len() >= CODE_LEN {
        Some(suffix(passphrase, CODE_LEN as nat))
    } else {
        None
    }
}

/// Returns the last `n` characters of `s`, counted in Unicode scalar values.
pub fn last_n_chars(s: &str, n: usize) -> (tail: &str)
    requires
        1 <= n <= s@.len(),
    ensures
        tail@ == suffix(s@, n as nat),
{
    let len: usize = s.unicode_len();
    s.substring_char(len - n, len)
}

/// Derives the quick-unlock code from the master passphrase: its last
/// `CODE_LEN` characters, or nothing when the passphrase is shorter than that.
pub fn derive_code(passphrase: &str) -> (code: Option<&str>)
    ensures
        match code {
            Some(c) => code_of(passphrase@) == Some(c@),
            None => code_of(passphrase@) is None,
        },
{
    if passphrase.unicode_len() >= CODE_LEN {
        Some(last_n_chars(passphrase, CODE_LEN))
    } else {
        None
    }
}

/// The code is read off the end of the passphrase alone: whatever precedes
/// a tail of at least `CODE_LEN` characters, the code is the end of that
/// tail.
pub proof fn lemma_code_ignores_what_precedes(head: Seq<char>, tail: Seq<char>)
    requires
        tail.len() >= CODE_LEN,
    ensures
        code_of(head + tail) == code_of(tail),
        code_of(tail) == Some(tail.subrange(tail.len() - CODE_LEN, tail.len() as int)),
{
    let whole = head + tail;
    assert(suffix(whole, CODE_LEN as nat) =~= suffix(tail, CODE_LEN as nat));
}

} // verus!
