//! The additive 8-bit checksum that signs request frames and validates
//! response frames.

use vstd::prelude::*;

verus! {

/// Sum of all bytes of `data`, as an unbounded natural number.
pub open spec fn byte_sum(data: Seq<u8>) -> nat
    decreases data.len(),
{
    if data.len() == 0 {
        0
    } else {
        byte_sum(data.drop_last()) + data.last() as nat
    }
}

/// The starting value of a checksum: the seed if there is one, else zero.
pub open spec fn seed_value(seed: Option<u8>) -> nat {
    match seed {
        Some(s) => s as nat,
        None => 0,
    }
}

/// The checksum of `data` started from `seed`: the seed plus every byte,
/// reduced modulo 256.
pub open spec fn checksum_spec(seed: Option<u8>, data: Seq<u8>) -> u8 {
    ((seed_value(seed) + byte_sum(data)) % 256) as u8
}

/// The byte sum of a concatenation is the sum of the byte sums.
pub proof fn lemma_byte_sum_concat(a: Seq<u8>, b: Seq<u8>)
    ensures
        byte_sum(a + b) == byte_sum(a) + byte_sum(b),
    decreases b.len(),
{
    if b.len() == 0 {
        assert(a + b =~= a);
    } else {
        assert((a + b).drop_last() =~= a + b.drop_last());
        assert((a + b).last() == b.last());
        lemma_byte_sum_concat(a, b.drop_last());
    }
}

/// Replacing one byte moves the byte sum by the difference of the two bytes.
pub proof fn lemma_byte_sum_update(data: Seq<u8>, i: int, b: u8)
    requires
        0 <= i < data.len(),
    ensures
        byte_sum(data.update(i, b)) + data[i] as nat == byte_sum(data) + b as nat,
    decreases data.len(),
{
    let changed = data.update(i, b);
    if i == data.len() - 1 {
        assert(changed.drop_last() =~= data.drop_last());
    } else {
        assert(changed.drop_last() =~= data.drop_last().update(i, b));
        lemma_byte_sum_update(data.drop_last(), i, b);
    }
}

/// A checksum may be computed in pieces: the checksum of the first piece
/// seeds the checksum of the second.
pub proof fn lemma_checksum_chained(seed: Option<u8>, a: Seq<u8>, b: Seq<u8>)
    ensures
        checksum_spec(Some(checksum_spec(seed, a)), b) == checksum_spec(seed, a + b),
{
    lemma_byte_sum_concat(a, b);
}

/// Computes the running 8-bit checksum of `data`, starting from `seed` if
/// one is given and from zero otherwise.
pub fn checksum(seed: Option<u8>, data: &[u8]) -> (crc: u8)
    ensures
        crc == checksum_spec(seed, data@),
{
    let mut crc: u8 = match seed {
        Some(s) => s,
        None => 0,
    };
    let mut i: usize = 0;
    while i < data.len()
        invariant
            i <= data.len(),
            crc == checksum_spec(seed, data@.take(i as int)),
        decreases data.len() - i,
    {
        proof {
            let next = data@.take(i + 1);
            assert(next.drop_last() =~= data@.take(i as int));
            assert(next.last() == data@[i as int]);
        }
        crc = crc.wrapping_add(data[i]);
        i += 1;
    }
    proof {
        assert(data@.take(i as int) =~= data@);
    }
    crc
}

} // verus!
