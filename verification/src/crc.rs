//! CRC-32 checksum used to protect every frame on the wire.
//!
//! The device uses a reflected CRC-32 with polynomial 0xEDB8_8320, an
//! initial value of zero and no final inversion, which differs from the
//! common Ethernet/zlib parameterization (initial value and final xor of
//! 0xFFFF_FFFF).

use vstd::prelude::*;

verus! {

/// Reflected form of the generator polynomial.
pub const CRC_POLYNOMIAL: u32 = 0xEDB8_8320;

/// One shift-and-conditional-xor step of the reflected CRC-32 recurrence.
pub open spec fn crc_bit_step(c: u32) -> u32 {
    if c & 1 == 1 {
        (c >> 1) ^ CRC_POLYNOMIAL
    } else {
        c >> 1
    }
}

/// `n` repetitions of the bit step.
pub open spec fn crc_bit_steps(c: u32, n: nat) -> u32
    decreases n,
{
    if n == 0 {
        c
    } else {
        crc_bit_step(crc_bit_steps(c, (n - 1) as nat))
    }
}

/// Absorb one byte into the running checksum.
pub open spec fn crc_byte_step(c: u32, b: u8) -> u32 {
    crc_bit_steps(c ^ (b as u32), 8)
}

/// Checksum of `s` continued from the running value `c`.
pub open spec fn crc_from(c: u32, s: Seq<u8>) -> u32
    decreases s.len(),
{
    if s.len() == 0 {
        c
    } else {
        crc_byte_step(crc_from(c, s.drop_last()), s.last())
    }
}

/// Checksum of a whole byte sequence, from the initial value zero.
pub open spec fn crc_of(s: Seq<u8>) -> u32 {
    crc_from(0, s)
}

/// Deterministic checksum over `data`, bit-exact with the device's own.
pub fn compute_crc(data: &[u8]) -> (crc: u32)
    ensures
        crc == crc_of(data@),
{
    let mut crc: u32 = 0;
    let mut i: usize = 0;
    while i < data.len()
        invariant
            i <= data@.len(),
            crc == crc_from(0, data@.take(i as int)),
        decreases data@.len() - i,
    {
        let b = data[i];
        let mut c: u32 = crc ^ (b as u32);
        let mut j: usize = 0;
        while j < 8
            invariant
                j <= 8,
                c == crc_bit_steps(crc ^ (b as u32), j as nat),
        decreases 8 - j,
        {
            if c & 1 == 1 {
                c = (c >> 1) ^ CRC_POLYNOMIAL;
            } else {
                c = c >> 1;
            }
            j = j + 1;
        }
        proof {
            assert(data@.take(i + 1).drop_last() =~= data@.take(i as int));
            assert(data@.take(i + 1).last() == data@[i as int]);
        }
        crc = c;
        i = i + 1;
    }
    proof {
        assert(data@.take(data@.len() as int) =~= data@);
    }
    crc
}

/// Check `data` against a checksum received alongside it.
pub fn verify(data: &[u8], crc: u32) -> (ok: bool)
    ensures
        ok == (crc == crc_of(data@)),
{
    compute_crc(data) == crc
}

proof fn lemma_bit_step_linear(x: u32, y: u32)
    ensures
        crc_bit_step(x ^ y) == crc_bit_step(x) ^ crc_bit_step(y),
{
    assert(crc_bit_step(x ^ y) == crc_bit_step(x) ^ crc_bit_step(y)) by (bit_vector);
}

proof fn lemma_bit_step_nonzero(d: u32)
    requires
        d != 0,
    ensures
        crc_bit_step(d) != 0,
{
    assert(d != 0 ==> crc_bit_step(d) != 0) by (bit_vector);
}

proof fn lemma_bit_steps_linear(x: u32, y: u32, n: nat)
    ensures
        crc_bit_steps(x, n) ^ crc_bit_steps(y, n) == crc_bit_steps(x ^ y, n),
    decreases n,
{
    if n > 0 {
        lemma_bit_steps_linear(x, y, (n - 1) as nat);
        lemma_bit_step_linear(crc_bit_steps(x, (n - 1) as nat), crc_bit_steps(y, (n - 1) as nat));
    }
}

proof fn lemma_bit_steps_nonzero(d: u32, n: nat)
    requires
        d != 0,
    ensures
        crc_bit_steps(d, n) != 0,
    decreases n,
{
    if n > 0 {
        lemma_bit_steps_nonzero(d, (n - 1) as nat);
        lemma_bit_step_nonzero(crc_bit_steps(d, (n - 1) as nat));
    }
}

proof fn lemma_byte_step_diff(c1: u32, c2: u32, b1: u8, b2: u8)
    ensures
        crc_byte_step(c1, b1) ^ crc_byte_step(c2, b2) == crc_bit_steps(
            (c1 ^ c2) ^ ((b1 ^ b2) as u32),
            8,
        ),
{
    lemma_bit_steps_linear(c1 ^ (b1 as u32), c2 ^ (b2 as u32), 8);
    assert((c1 ^ (b1 as u32)) ^ (c2 ^ (b2 as u32)) == (c1 ^ c2) ^ ((b1 ^ b2) as u32))
        by (bit_vector);
}

proof fn lemma_crc_from_neq(c1: u32, c2: u32, s: Seq<u8>)
    requires
        c1 != c2,
    ensures
        crc_from(c1, s) != crc_from(c2, s),
    decreases s.len(),
{
    if s.len() > 0 {
        lemma_crc_from_neq(c1, c2, s.drop_last());
        let a1 = crc_from(c1, s.drop_last());
        let a2 = crc_from(c2, s.drop_last());
        let b = s.last();
        lemma_byte_step_diff(a1, a2, b, b);
        assert((a1 ^ a2) ^ ((b ^ b) as u32) == a1 ^ a2) by (bit_vector);
        assert(a1 ^ a2 != 0) by (bit_vector)
            requires
                a1 != a2,
        ;
        lemma_bit_steps_nonzero(a1 ^ a2, 8);
        let v1 = crc_byte_step(a1, b);
        let v2 = crc_byte_step(a2, b);
        assert(v1 != v2) by (bit_vector)
            requires
                v1 ^ v2 != 0,
        ;
    }
}

proof fn lemma_crc_from_concat(c: u32, a: Seq<u8>, b: Seq<u8>)
    ensures
        crc_from(c, a + b) == crc_from(crc_from(c, a), b),
    decreases b.len(),
{
    if b.len() == 0 {
        assert(a + b =~= a);
    } else {
        lemma_crc_from_concat(c, a, b.drop_last());
        assert((a + b).drop_last() =~= a + b.drop_last());
        assert((a + b).last() == b.last());
    }
}

/// Law: the checksum detects any corruption confined to a single byte. Two
/// sequences of equal length that differ in exactly one byte have different
/// checksums, so the corrupted sequence can never verify against the
/// genuine one's CRC.
pub proof fn lemma_crc_detects_byte_change(s1: Seq<u8>, s2: Seq<u8>, i: int)
    requires
        s1.len() == s2.len(),
        0 <= i < s1.len(),
        s1[i] != s2[i],
        forall|j: int| 0 <= j < s1.len() && j != i ==> s1[j] == s2[j],
    ensures
        crc_of(s1) != crc_of(s2),
{
    let p = s1.subrange(0, i);
    let t = s1.subrange(i + 1, s1.len() as int);
    let b1 = s1[i];
    let b2 = s2[i];
    assert(s1 =~= (p + seq![b1]) + t);
    assert(s2 =~= (p + seq![b2]) + t);
    lemma_crc_from_concat(0, p + seq![b1], t);
    lemma_crc_from_concat(0, p + seq![b2], t);
    lemma_crc_from_concat(0, p, seq![b1]);
    lemma_crc_from_concat(0, p, seq![b2]);
    let c = crc_from(0, p);
    assert(seq![b1].drop_last() =~= Seq::<u8>::empty());
    assert(seq![b2].drop_last() =~= Seq::<u8>::empty());
    assert(crc_from(c, Seq::<u8>::empty()) == c);
    assert(seq![b1].last() == b1);
    assert(seq![b2].last() == b2);
    assert(crc_from(c, seq![b1]) == crc_byte_step(c, b1));
    assert(crc_from(c, seq![b2]) == crc_byte_step(c, b2));
    lemma_byte_step_diff(c, c, b1, b2);
    assert((c ^ c) ^ ((b1 ^ b2) as u32) == ((b1 ^ b2) as u32)) by (bit_vector);
    assert(((b1 ^ b2) as u32) != 0) by (bit_vector)
        requires
            b1 != b2,
    ;
    lemma_bit_steps_nonzero((b1 ^ b2) as u32, 8);
    let d1 = crc_byte_step(c, b1);
    let d2 = crc_byte_step(c, b2);
    assert(d1 != d2) by (bit_vector)
        requires
            d1 ^ d2 != 0,
    ;
    lemma_crc_from_neq(d1, d2, t);
}

/// Law: CRC property. A byte sequence verifies against exactly its own
/// checksum — that is what `verify` returns — and flipping any single bit
/// of the protected bytes changes the checksum, so verification against the
/// old value fails; a flipped bit in the CRC field itself fails by the same
/// token, the checksum of the data being unchanged.
pub proof fn lemma_crc_detects_bit_flip(s1: Seq<u8>, s2: Seq<u8>, i: int, k: u8)
    requires
        s1.len() == s2.len(),
        0 <= i < s1.len(),
        k < 8,
        s2[i] == s1[i] ^ (1u8 << k),
        forall|j: int| 0 <= j < s1.len() && j != i ==> s1[j] == s2[j],
    ensures
        crc_of(s1) != crc_of(s2),
{
    let b: u8 = s1[i];
    assert(b ^ (1u8 << k) != b) by (bit_vector)
        requires
            k < 8,
    ;
    lemma_crc_detects_byte_change(s1, s2, i);
}

} // verus!
