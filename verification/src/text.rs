//! Prefix and suffix tests over strings, with their abstract counterparts.
//!
//! Version strings and entry names are opaque text: they are never parsed,
//! only compared by prefix (the installed-version lookup) and by suffix (the
//! archive-extension match).

use vstd::prelude::*;

verus! {

/// `s` begins with `prefix`.
pub open spec fn seq_starts_with(s: Seq<char>, prefix: Seq<char>) -> bool {
    prefix.len() <= s.len() && s.subrange(0, prefix.len() as int) == prefix
}

/// `s` ends with `suffix`.
pub open spec fn seq_ends_with(s: Seq<char>, suffix: Seq<char>) -> bool {
    suffix.len() <= s.len() && s.subrange(s.len() - suffix.len(), s.len() as int) == suffix
}

/// Whether `s` begins with `prefix`, by characters.
pub fn str_starts_with(s: &str, prefix: &str) -> (b: bool)
    ensures
        b == seq_starts_with(s@, prefix@),
{
    let n: usize = s.unicode_len();
    let p: usize = prefix.unicode_len();
    if p > n {
        return false;
    }
    let mut i: usize = 0;
    while i < p
        invariant
            0 <= i <= p,
            p <= n,
            n == s@.len(),
            p == prefix@.len(),
            forall|j: int| 0 <= j < i ==> s@[j] == prefix@[j],
        decreases p - i,
    {
        if s.get_char(i) != prefix.get_char(i) {
            proof {
                assert(!seq_starts_with(s@, prefix@)) by {
                    if seq_starts_with(s@, prefix@) {
                        assert(s@.subrange(0, p as int)[i as int] == s@[i as int]);
                    }
                }
            }
            return false;
        }
        i += 1;
    }
    proof {
        assert(s@.subrange(0, p as int) =~= prefix@);
    }
    true
}

/// Whether `s` ends with `suffix`, by characters.
pub fn str_ends_with(s: &str, suffix: &str) -> (b: bool)
    ensures
        b == seq_ends_with(s@, suffix@),
{
    let n: usize = s.unicode_len();
    let p: usize = suffix.unicode_len();
    if p > n {
        return false;
    }
    let off: usize = n - p;
    let mut i: usize = 0;
    while i < p
        invariant
            0 <= i <= p,
            p <= n,
            n == s@.len(),
            p == suffix@.len(),
            off == n - p,
            forall|j: int| 0 <= j < i ==> s@[off + j] == suffix@[j],
        decreases p - i,
    {
        if s.get_char(off + i) != suffix.get_char(i) {
            proof {
                assert(!seq_ends_with(s@, suffix@)) by {
                    if seq_ends_with(s@, suffix@) {
                        assert(s@.subrange(off as int, n as int)[i as int] == s@[off + i]);
                    }
                }
            }
            return false;
        }
        i += 1;
    }
    proof {
        assert(s@.subrange(off as int, n as int) =~= suffix@);
    }
    true
}

} // verus!
