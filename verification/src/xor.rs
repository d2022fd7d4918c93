//! The XOR mask: every byte is combined with one fixed key byte.

use vstd::prelude::*;

verus! {

/// The key that the game masks its save files with.
pub const XOR_KEY: u8 = 11;

/// The sequence `bytes` with `key` XOR-ed onto every position.
pub open spec fn masked(bytes: Seq<u8>, key: u8) -> Seq<u8> {
    Seq::new(bytes.len(), |i: int| bytes[i] ^ key)
}

/// Masking twice with the same key gives the input back.
pub proof fn lemma_mask_self_inverse(bytes: Seq<u8>, key: u8)
    ensures
        masked(masked(bytes, key), key) == bytes,
{
    assert forall|i: int| 0 <= i < bytes.len() implies #[trigger] masked(masked(bytes, key), key)[i]
        == bytes[i] by {
        let b = bytes[i];
        assert((b ^ key) ^ key == b) by (bit_vector);
    }
    assert(masked(masked(bytes, key), key) =~= bytes);
}

/// Masking goes through a concatenation.
pub proof fn lemma_mask_concat(front: Seq<u8>, back: Seq<u8>, key: u8)
    ensures
        masked(front + back, key) == masked(front, key) + masked(back, key),
{
    assert(masked(front + back, key) =~= masked(front, key) + masked(back, key));
}

/// A run of the key byte is what a run of zero bytes looks like once masked:
/// unmasked, it is zeros again.
pub proof fn lemma_mask_of_key_run(n: nat, key: u8)
    ensures
        masked(Seq::new(n, |i: int| key), key) == Seq::new(n, |i: int| 0u8),
{
    assert(key ^ key == 0u8) by (bit_vector);
    assert(masked(Seq::new(n, |i: int| key), key) =~= Seq::new(n, |i: int| 0u8));
}

/// Returns a masked copy of `data`.
pub fn mask(data: &[u8], key: u8) -> (result: Vec<u8>)
    ensures
        result@ == masked(data@, key),
        result@.len() == data@.len(),
{
    let mut result: Vec<u8> = Vec::with_capacity(data.len());
    let mut i: usize = 0;
    while i < data.len()
        invariant
            i <= data.len(),
            result@ == masked(data@.take(i as int), key),
        decreases data.len() - i,
    {
        result.push(data[i] ^ key);
        proof {
            assert(result@ =~= masked(data@.take(i + 1), key));
        }
        i += 1;
    }
    proof {
        assert(data@.take(data.len() as int) =~= data@);
    }
    result
}

/// Masks `data` where it stands.
pub fn mask_in_place(data: &mut Vec<u8>, key: u8)
    ensures
        final(data)@ == masked(old(data)@, key),
        final(data)@.len() == old(data)@.len(),
{
    let mut i: usize = 0;
    while i < data.len()
        invariant
            i <= data.len(),
            data.len() == old(data).len(),
            forall|j: int| 0 <= j < i ==> data@[j] == old(data)@[j] ^ key,
            forall|j: int| i <= j < data.len() ==> data@[j] == old(data)@[j],
        decreases data.len() - i,
    {
        let byte: u8 = data[i];
        data.set(i, byte ^ key);
        i += 1;
    }
    proof {
        assert(data@ =~= masked(old(data)@, key));
    }
}

} // verus!
