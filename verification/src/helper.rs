//! Marshaling helpers for null-terminated byte strings.
//!
//! A foreign string arrives at this boundary as a byte sequence of unknown
//! provenance whose end is marked by the first zero byte.  The embedding
//! layer is responsible for turning the raw pointer into a byte slice; the
//! scanning itself — finding the terminator and taking exactly the bytes
//! before it — is done and specified here.

use vstd::prelude::*;

verus! {

/// Whether the sequence contains a terminator at all.
pub open spec fn has_nul(s: Seq<u8>) -> bool {
    exists|i: int| 0 <= i < s.len() && s[i] == 0
}

/// Index of the first zero byte of the sequence (its length if it has none).
pub open spec fn first_nul(s: Seq<u8>) -> nat
    decreases s.len(),
{
    if s.len() == 0 {
        0
    } else if s[0] == 0 {
        0
    } else {
        (1 + first_nul(s.drop_first())) as nat
    }
}

/// A position terminates the string exactly when it holds a zero byte and no
/// earlier position does; [`first_nul`] is that position.
proof fn lemma_first_nul_is(s: Seq<u8>, k: int)
    requires
        0 <= k < s.len(),
        s[k] == 0,
        forall|j: int| 0 <= j < k ==> s[j] != 0,
    ensures
        first_nul(s) == k,
    decreases s.len(),
{
    if k > 0 {
        lemma_first_nul_is(s.drop_first(), k - 1);
    }
}

/// The length of a null-terminated byte string: the number of bytes before
/// the first terminator, the terminator itself excluded.
pub fn c_strlen(s: &[u8]) -> (len: usize)
    requires
        has_nul(s@),
    ensures
        len == first_nul(s@),
        len < s@.len(),
        s@[len as int] == 0,
        forall|j: int| 0 <= j < len ==> s@[j] != 0,
{
    let mut i: usize = 0;
    loop
        invariant
            has_nul(s@),
            0 <= i <= s@.len(),
            forall|j: int| 0 <= j < i ==> s@[j] != 0,
        decreases s@.len() - i,
    {
        proof {
            let w = choose|w: int| 0 <= w < s@.len() && s@[w] == 0;
            assert(w >= i);
        }
        if s[i] == 0 {
            proof {
                lemma_first_nul_is(s@, i as int);
            }
            return i;
        }
        i = i + 1;
    }
}

/// The view of a null-terminated byte string: exactly the bytes before the
/// first terminator, copied out.  The caller keeps only these bytes; the
/// foreign memory is not retained beyond the call.
pub fn c_str_bytes(s: &[u8]) -> (bytes: Vec<u8>)
    requires
        has_nul(s@),
    ensures
        bytes@ == s@.take(first_nul(s@) as int),
{
    let len = c_strlen(s);
    let mut bytes: Vec<u8> = Vec::new();
    let mut i: usize = 0;
    while i < len
        invariant
            i <= len,
            len == first_nul(s@),
            len < s@.len(),
            bytes@.len() == i,
            forall|j: int| 0 <= j < i ==> bytes@[j] == s@[j],
        decreases len - i,
    {
        bytes.push(s[i]);
        i = i + 1;
    }
    proof {
        assert(bytes@ =~= s@.take(first_nul(s@) as int));
    }
    bytes
}

/// Round trip: terminating a byte string that holds no embedded terminator
/// and scanning it back recovers the string itself — the measured length is
/// its length, and the view is exactly its bytes.
pub proof fn lemma_c_str_round_trip(s: Seq<u8>)
    requires
        forall|i: int| 0 <= i < s.len() ==> s[i] != 0,
    ensures
        has_nul(s.push(0)),
        first_nul(s.push(0)) == s.len(),
        s.push(0).take(s.len() as int) == s,
{
    let t = s.push(0);
    assert(t[s.len() as int] == 0);
    lemma_first_nul_is(t, s.len() as int);
    assert(t.take(s.len() as int) =~= s);
}

} // verus!
