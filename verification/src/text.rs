//! Case folding and substring matching over raw byte text.
//!
//! Server rejection lines arrive as bytes; the classifier folds them to
//! ASCII lower case and looks for fixed phrases, so both operations are
//! specified and proved here.

use vstd::prelude::*;

verus! {

/// ASCII lower-case folding of one byte; other bytes pass unchanged.
pub open spec fn lower_byte(b: u8) -> u8 {
    if 65 <= b && b <= 90 {
        (b + 32) as u8
    } else {
        b
    }
}

/// ASCII lower-case folding of a whole byte sequence.
pub open spec fn lower_bytes(s: Seq<u8>) -> Seq<u8> {
    s.map_values(|b: u8| lower_byte(b))
}

/// The pattern `p` occurs in `t` starting at position `i`.
pub open spec fn matches_at(t: Seq<u8>, p: Seq<u8>, i: int) -> bool {
    &&& 0 <= i
    &&& i + p.len() <= t.len()
    &&& t.subrange(i, i + p.len() as int) == p
}

/// The pattern `p` occurs somewhere in `t`.
pub open spec fn contains_seq(t: Seq<u8>, p: Seq<u8>) -> bool {
    exists|i: int| matches_at(t, p, i)
}

/// Fold a byte string to ASCII lower case.
pub fn to_lower(s: &[u8]) -> (r: Vec<u8>)
    ensures
        r@ == lower_bytes(s@),
{
    let mut r: Vec<u8> = Vec::new();
    let mut i: usize = 0;
    while i < s.len()
        invariant
            i <= s@.len(),
            r@.len() == i,
            forall|k: int| 0 <= k < i ==> r@[k] == lower_byte(s@[k]),
        decreases s@.len() - i,
    {
        let b = s[i];
        if 65 <= b && b <= 90 {
            r.push(b + 32);
        } else {
            r.push(b);
        }
        i += 1;
    }
    assert(r@ =~= lower_bytes(s@));
    r
}

/// Does `p` occur in `t` starting exactly at index `i`?
fn matches_at_index(t: &[u8], p: &[u8], i: usize) -> (r: bool)
    requires
        i + p@.len() <= t@.len(),
    ensures
        r == matches_at(t@, p@, i as int),
{
    let t_len = t.len();
    let mut j: usize = 0;
    while j < p.len()
        invariant
            i + p@.len() <= t@.len(),
            t_len == t@.len(),
            j <= p@.len(),
            forall|m: int| 0 <= m < j ==> t@[i + m] == p@[m],
        decreases p@.len() - j,
    {
        if t[i + j] != p[j] {
            assert(!matches_at(t@, p@, i as int)) by {
                if matches_at(t@, p@, i as int) {
                    assert(t@.subrange(i as int, i + p@.len() as int)[j as int] == p@[j as int]);
                }
            }
            return false;
        }
        j += 1;
    }
    assert(t@.subrange(i as int, i + p@.len() as int) =~= p@);
    true
}

/// Substring search: does the pattern `p` occur anywhere in `t`?
pub fn contains_bytes(t: &[u8], p: &[u8]) -> (r: bool)
    ensures
        r == contains_seq(t@, p@),
{
    if p.len() > t.len() {
        assert(forall|i: int| !matches_at(t@, p@, i));
        return false;
    }
    if p.len() == 0 {
        assert(t@.subrange(0, 0) =~= p@);
        assert(matches_at(t@, p@, 0));
        return true;
    }
    let t_len = t.len();
    let last = t.len() - p.len();
    let mut i: usize = 0;
    while i <= last
        invariant
            0 < p@.len() <= t@.len(),
            t_len == t@.len(),
            last == t@.len() - p@.len(),
            i <= last + 1,
            forall|k: int| 0 <= k < i ==> !matches_at(t@, p@, k),
        decreases last + 1 - i,
    {
        if matches_at_index(t, p, i) {
            return true;
        }
        i += 1;
    }
    assert(forall|k: int| !matches_at(t@, p@, k) <== 0 <= k < i);
    assert(forall|k: int| i <= k ==> !matches_at(t@, p@, k));
    false
}

} // verus!
