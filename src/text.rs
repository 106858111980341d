use vstd::prelude::*;
use vstd::string::StrSliceExecFns;

verus! {

/// Whether `t` begins with `p`.
pub open spec fn has_prefix(t: Seq<char>, p: Seq<char>) -> bool {
    p.len() <= t.len() && t.subrange(0, p.len() as int) == p
}

/// Whether `t` ends with `s`.
pub open spec fn has_suffix(t: Seq<char>, s: Seq<char>) -> bool {
    s.len() <= t.len() && t.subrange(t.len() - s.len(), t.len() as int) == s
}

/// Whether `t`, read from character `start` on, holds `p`.
fn holds_at(t: &str, tlen: usize, start: usize, p: &str, plen: usize) -> (r: bool)
    requires
        tlen == t@.len(),
        plen == p@.len(),
        start + plen <= tlen,
    ensures
        r == (t@.subrange(start as int, start + plen) == p@),
{
    let mut i: usize = 0;
    while i < plen
        invariant
            plen == p@.len(),
            tlen == t@.len(),
            start + plen <= tlen,
            i <= plen,
            forall|j: int| 0 <= j < i ==> t@[start + j] == p@[j],
        decreases plen - i,
    {
        if t.get_char(start + i) != p.get_char(i) {
            assert(t@.subrange(start as int, start + plen)[i as int] != p@[i as int]);
            return false;
        }
        i = i + 1;
    }
    assert(t@.subrange(start as int, start + plen) =~= p@);
    true
}

/// Whether two texts are equal, character by character.
pub fn same_text(a: &str, b: &str) -> (r: bool)
    ensures
        r == (a@ == b@),
{
    let alen = a.unicode_len();
    let blen = b.unicode_len();
    if alen != blen {
        return false;
    }
    let r = holds_at(a, alen, 0, b, blen);
    assert(a@.subrange(0, alen as int) =~= a@);
    r
}

/// Whether `t` begins with `p`.
pub fn starts_with(t: &str, p: &str) -> (r: bool)
    ensures
        r == has_prefix(t@, p@),
{
    let tlen = t.unicode_len();
    let plen = p.unicode_len();
    if plen > tlen {
        return false;
    }
    holds_at(t, tlen, 0, p, plen)
}

/// Whether `t` ends with `s`.
pub fn ends_with(t: &str, s: &str) -> (r: bool)
    ensures
        r == has_suffix(t@, s@),
{
    let tlen = t.unicode_len();
    let slen = s.unicode_len();
    if slen > tlen {
        return false;
    }
    holds_at(t, tlen, tlen - slen, s, slen)
}

} // verus!
