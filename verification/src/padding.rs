//! Removal of the zero bytes that the legacy obfuscation leaves at the end of
//! a save file.

use vstd::prelude::*;

verus! {

/// `bytes` without its trailing run of zero bytes.
pub open spec fn trimmed(bytes: Seq<u8>) -> Seq<u8>
    decreases bytes.len(),
{
    if bytes.len() > 0 && bytes.last() == 0 {
        trimmed(bytes.drop_last())
    } else {
        bytes
    }
}

/// Whether `bytes` is empty or ends in a non-zero byte.
pub open spec fn is_trimmed(bytes: Seq<u8>) -> bool {
    bytes.len() == 0 || bytes.last() != 0
}

/// What trimming removes is a run of zero bytes at the end, and the whole of
/// that run: the result is a prefix of the input that is followed by zeros
/// only and does not itself end in zero.
pub proof fn lemma_trimmed_shape(bytes: Seq<u8>)
    ensures
        trimmed(bytes).len() <= bytes.len(),
        trimmed(bytes) == bytes.take(trimmed(bytes).len() as int),
        forall|i: int| trimmed(bytes).len() <= i < bytes.len() ==> bytes[i] == 0,
        is_trimmed(trimmed(bytes)),
    decreases bytes.len(),
{
    if bytes.len() > 0 && bytes.last() == 0 {
        let shorter = bytes.drop_last();
        lemma_trimmed_shape(shorter);
        let n = trimmed(bytes).len() as int;
        assert(shorter.take(n) =~= bytes.take(n));
        assert forall|i: int| n <= i < bytes.len() implies bytes[i] == 0 by {
            if i < shorter.len() {
                assert(shorter[i] == bytes[i]);
            }
        }
    } else {
        assert(bytes.take(bytes.len() as int) =~= bytes);
    }
}

/// Trimming leaves alone a sequence that has no trailing zero byte.
pub proof fn lemma_trim_noop(bytes: Seq<u8>)
    requires
        is_trimmed(bytes),
    ensures
        trimmed(bytes) == bytes,
{
}

/// Trimming twice gives what trimming once gives.
pub proof fn lemma_trim_idempotent(bytes: Seq<u8>)
    ensures
        trimmed(trimmed(bytes)) == trimmed(bytes),
{
    lemma_trimmed_shape(bytes);
    lemma_trim_noop(trimmed(bytes));
}

/// Zero bytes added at the end do not change what trimming gives.
pub proof fn lemma_trim_ignores_padding(bytes: Seq<u8>, n: nat)
    ensures
        trimmed(bytes + Seq::new(n, |i: int| 0u8)) == trimmed(bytes),
    decreases n,
{
    let padded = bytes + Seq::new(n, |i: int| 0u8);
    if n == 0 {
        assert(padded =~= bytes);
    } else {
        assert(padded.last() == 0);
        assert(padded.drop_last() =~= bytes + Seq::new((n - 1) as nat, |i: int| 0u8));
        lemma_trim_ignores_padding(bytes, (n - 1) as nat);
    }
}

/// Removes the trailing zero bytes of `vector`.
pub fn trim(vector: &mut Vec<u8>)
    ensures
        final(vector)@ == trimmed(old(vector)@),
{
    while vector.len() > 0 && vector[vector.len() - 1] == 0
        invariant
            trimmed(vector@) == trimmed(old(vector)@),
        decreases vector.len(),
    {
        proof {
            assert(vector@.drop_last() =~= vector@.take(vector.len() - 1));
        }
        vector.pop();
    }
}

} // verus!
