//! Small byte-sequence helpers shared by the record code.

use vstd::prelude::*;

verus! {

/// The two bytes of `n` in big-endian order.
pub open spec fn be16_bytes(n: int) -> Seq<u8> {
    seq![(n / 256) as u8, (n % 256) as u8]
}

/// `p` XOR-ed with `k` repeated cyclically.
pub open spec fn xor_masked(p: Seq<u8>, k: Seq<u8>) -> Seq<u8> {
    Seq::new(p.len(), |i: int| p[i] ^ k[i % (k.len() as int)])
}

/// Appends `s` to `v`.
pub fn append_bytes(v: &mut Vec<u8>, s: &[u8])
    ensures
        final(v)@ == old(v)@ + s@,
{
    let ghost v0 = v@;
    let mut i: usize = 0;
    while i < s.len()
        invariant
            i <= s@.len(),
            v@ == v0 + s@.subrange(0, i as int),
        decreases s@.len() - i,
    {
        v.push(s[i]);
        i = i + 1;
        assert(v@ =~= v0 + s@.subrange(0, i as int));
    }
    assert(s@.subrange(0, s@.len() as int) =~= s@);
}

/// `payload` XOR-ed with `key` repeated cyclically.
pub fn xor_with_key(payload: &[u8], key: &[u8]) -> (r: Vec<u8>)
    requires
        key@.len() > 0,
    ensures
        r@ == xor_masked(payload@, key@),
{
    let mut r: Vec<u8> = Vec::with_capacity(payload.len());
    let mut i: usize = 0;
    while i < payload.len()
        invariant
            i <= payload@.len(),
            key@.len() > 0,
            r@ =~= xor_masked(payload@, key@).subrange(0, i as int),
        decreases payload@.len() - i,
    {
        r.push(payload[i] ^ key[i % key.len()]);
        i = i + 1;
    }
    r
}

} // verus!
