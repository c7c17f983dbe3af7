//! First-occurrence search for a short byte pattern inside a larger buffer.

use vstd::prelude::*;

verus! {

/// The pattern `p` occurs in `b` at position `k`: every pattern byte matches
/// the buffer byte `k` places further in.
pub open spec fn matches_at(b: Seq<u8>, p: Seq<u8>, k: int) -> bool {
    &&& 0 <= k
    &&& k + p.len() <= b.len()
    &&& forall|j: int| 0 <= j < p.len() ==> b[k + j] == p[j]
}

/// Offset of the first occurrence of `pattern` in `buf`, scanning windows
/// left to right, or `0` when no window matches.
///
/// The sentinel overlaps with a genuine match at offset `0`; the contract
/// keeps the two cases apart, the return value alone does not.
pub fn find(buf: &Vec<u8>, pattern: &Vec<u8>) -> (r: usize)
    requires
        pattern@.len() >= 1,
    ensures
        (exists|k: int| matches_at(buf@, pattern@, k)) ==> {
            &&& matches_at(buf@, pattern@, r as int)
            &&& forall|k: int| 0 <= k < r ==> !matches_at(buf@, pattern@, k)
        },
        !(exists|k: int| matches_at(buf@, pattern@, k)) ==> r == 0,
{
    let n: usize = buf.len();
    let m: usize = pattern.len();
    if m > n {
        return 0;
    }
    let end: usize = n - m + 1;
    let mut i: usize = 0;
    while i < end
        invariant
            n == buf@.len(),
            m == pattern@.len(),
            1 <= m <= n,
            end == n - m + 1,
            i <= end,
            forall|k: int| 0 <= k < i ==> !matches_at(buf@, pattern@, k),
        decreases end - i,
    {
        let mut j: usize = 0;
        let mut hit: bool = true;
        while j < m
            invariant
                n == buf@.len(),
                m == pattern@.len(),
                i + m <= n,
                j <= m,
                hit == forall|t: int| 0 <= t < j ==> buf@[i + t] == pattern@[t],
            decreases m - j,
        {
            if buf[i + j] != pattern[j] {
                hit = false;
                j = m;
            } else {
                j = j + 1;
            }
        }
        if hit {
            assert(matches_at(buf@, pattern@, i as int));
            return i;
        }
        assert(!matches_at(buf@, pattern@, i as int));
        i = i + 1;
    }
    assert(forall|k: int| matches_at(buf@, pattern@, k) ==> k < end);
    0
}

} // verus!
