//! Character-level prefix and suffix tests on strings.

use vstd::prelude::*;
use vstd::string::StrSliceExecFns;

verus! {

/// `p` is the sequence of leading characters of `s`.
pub open spec fn is_char_prefix(p: Seq<char>, s: Seq<char>) -> bool {
    p.len() <= s.len() && p == s.subrange(0, p.len() as int)
}

/// `q` is the sequence of trailing characters of `s`.
pub open spec fn is_char_suffix(q: Seq<char>, s: Seq<char>) -> bool {
    q.len() <= s.len() && q == s.subrange(s.len() - q.len(), s.len() as int)
}

/// Character-for-character test that `s` starts with `p`.
pub fn str_has_prefix(s: &str, p: &str) -> (r: bool)
    ensures
        r == is_char_prefix(p@, s@),
{
    let sl = s.unicode_len();
    let pl = p.unicode_len();
    if pl > sl {
        return false;
    }
    let mut i: usize = 0;
    while i < pl
        invariant
            i <= pl,
            pl == p@.len(),
            sl == s@.len(),
            pl <= sl,
            forall|j: int| 0 <= j < i ==> s@[j] == p@[j],
        decreases pl - i,
    {
        if s.get_char(i) != p.get_char(i) {
            proof {
                assert(!is_char_prefix(p@, s@)) by {
                    if is_char_prefix(p@, s@) {
                        assert(p@[i as int] == s@.subrange(0, p@.len() as int)[i as int]);
                    }
                }
            }
            return false;
        }
        i = i + 1;
    }
    proof {
        assert(p@ =~= s@.subrange(0, p@.len() as int));
    }
    true
}

/// Character-for-character test that `s` ends with `q`.
pub fn str_has_suffix(s: &str, q: &str) -> (r: bool)
    ensures
        r == is_char_suffix(q@, s@),
{
    let sl = s.unicode_len();
    let ql = q.unicode_len();
    if ql > sl {
        return false;
    }
    let off = sl - ql;
    let mut i: usize = 0;
    while i < ql
        invariant
            i <= ql,
            ql == q@.len(),
            sl == s@.len(),
            off == sl - ql,
            ql <= sl,
            forall|j: int| 0 <= j < i ==> s@[off + j] == q@[j],
        decreases ql - i,
    {
        if s.get_char(off + i) != q.get_char(i) {
            proof {
                assert(!is_char_suffix(q@, s@)) by {
                    if is_char_suffix(q@, s@) {
                        assert(q@[i as int] == s@.subrange(
                            s@.len() - q@.len(),
                            s@.len() as int,
                        )[i as int]);
                    }
                }
            }
            return false;
        }
        i = i + 1;
    }
    proof {
        assert(q@ =~= s@.subrange(s@.len() - q@.len(), s@.len() as int));
    }
    true
}

} // verus!
