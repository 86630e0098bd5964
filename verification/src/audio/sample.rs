//! Samples as raw values, and their little-endian byte form.
//!
//! A sample is the bit pattern of an IEEE-754 binary32 number. On the wire,
//! to and from the audio devices, it is four bytes, least significant first.

use vstd::arithmetic::div_mod::lemma_fundamental_div_mod_converse;
use vstd::prelude::*;

verus! {

/// Bytes that one sample occupies on the wire.
pub const SAMPLE_BYTES: usize = 4;

/// The value whose little-endian bytes are `b0`, `b1`, `b2`, `b3`.
pub open spec fn le_value(b0: u8, b1: u8, b2: u8, b3: u8) -> u32 {
    (b0 + 0x100 * b1 + 0x1_0000 * b2 + 0x100_0000 * b3) as u32
}

/// The little-endian bytes of `value`.
pub open spec fn le_bytes(value: u32) -> Seq<u8> {
    seq![
        (value % 0x100) as u8,
        (value / 0x100 % 0x100) as u8,
        (value / 0x100 / 0x100 % 0x100) as u8,
        (value / 0x100 / 0x100 / 0x100) as u8,
    ]
}

/// The samples that `bytes` hold, four bytes each, in order. Bytes after the
/// last whole sample are not looked at.
pub open spec fn samples_from_le_bytes(bytes: Seq<u8>) -> Seq<u32> {
    Seq::new(
        bytes.len() / 4,
        |i: int| le_value(bytes[4 * i], bytes[4 * i + 1], bytes[4 * i + 2], bytes[4 * i + 3]),
    )
}

/// The bytes of `samples`, four bytes each, in order.
pub open spec fn samples_to_le_bytes(samples: Seq<u32>) -> Seq<u8> {
    Seq::new(4 * samples.len(), |k: int| le_bytes(samples[k / 4])[k % 4])
}

/// The value of the bytes of `value` is `value`.
pub proof fn lemma_le_bytes_value(value: u32)
    ensures
        le_bytes(value).len() == 4,
        le_value(le_bytes(value)[0], le_bytes(value)[1], le_bytes(value)[2], le_bytes(value)[3])
            == value,
{
    let q1: int = value as int / 0x100;
    let q2: int = q1 / 0x100;
    let q3: int = q2 / 0x100;
    let r0: int = value as int % 0x100;
    let r1: int = q1 % 0x100;
    let r2: int = q2 % 0x100;
    assert(value == 0x100 * q1 + r0);
    assert(q1 == 0x100 * q2 + r1);
    assert(q2 == 0x100 * q3 + r2);
    assert(0 <= q3 < 0x100);
    assert(value == r0 + 0x100 * r1 + 0x1_0000 * r2 + 0x100_0000 * q3);
    assert(le_bytes(value)[0] == r0);
    assert(le_bytes(value)[1] == r1);
    assert(le_bytes(value)[2] == r2);
    assert(le_bytes(value)[3] == q3);
}

/// The bytes of the value of four bytes are those bytes.
pub proof fn lemma_le_value_bytes(b0: u8, b1: u8, b2: u8, b3: u8)
    ensures
        le_bytes(le_value(b0, b1, b2, b3)) == seq![b0, b1, b2, b3],
{
    let value: u32 = le_value(b0, b1, b2, b3);
    let q1: int = b1 + 0x100 * b2 + 0x1_0000 * b3;
    let q2: int = b2 + 0x100 * b3;
    let q3: int = b3 as int;
    assert(value == b0 + 0x100 * q1);
    assert(q1 == b1 + 0x100 * q2);
    assert(q2 == b2 + 0x100 * q3);
    lemma_fundamental_div_mod_converse(value as int, 0x100, q1, b0 as int);
    lemma_fundamental_div_mod_converse(q1, 0x100, q2, b1 as int);
    lemma_fundamental_div_mod_converse(q2, 0x100, q3, b2 as int);
    assert(value as int / 0x100 == q1 && value as int % 0x100 == b0);
    assert(q1 / 0x100 == q2 && q1 % 0x100 == b1);
    assert(q2 / 0x100 == q3 && q2 % 0x100 == b2);
    assert(le_bytes(value)[0] == b0);
    assert(le_bytes(value)[1] == b1);
    assert(le_bytes(value)[2] == b2);
    assert(le_bytes(value)[3] == b3);
    assert(le_bytes(value) =~= seq![b0, b1, b2, b3]);
}

/// Reading back the bytes of samples gives the samples.
pub proof fn lemma_le_bytes_round_trip(samples: Seq<u32>)
    ensures
        samples_from_le_bytes(samples_to_le_bytes(samples)) == samples,
{
    let bytes: Seq<u8> = samples_to_le_bytes(samples);
    assert(bytes.len() / 4 == samples.len());
    assert forall|i: int| 0 <= i < samples.len() implies samples_from_le_bytes(bytes)[i]
        == samples[i] by {
        let value: u32 = samples[i];
        lemma_le_bytes_value(value);
        assert((4 * i) / 4 == i && (4 * i + 1) / 4 == i && (4 * i + 2) / 4 == i && (4 * i + 3) / 4
            == i);
        assert((4 * i) % 4 == 0 && (4 * i + 1) % 4 == 1 && (4 * i + 2) % 4 == 2 && (4 * i + 3) % 4
            == 3);
        assert(bytes[4 * i] == le_bytes(value)[0]);
        assert(bytes[4 * i + 1] == le_bytes(value)[1]);
        assert(bytes[4 * i + 2] == le_bytes(value)[2]);
        assert(bytes[4 * i + 3] == le_bytes(value)[3]);
    }
    assert(samples_from_le_bytes(bytes) =~= samples);
}

/// Writing out the samples read from a whole number of samples' bytes gives
/// the bytes.
pub proof fn lemma_le_samples_round_trip(bytes: Seq<u8>)
    requires
        bytes.len() % 4 == 0,
    ensures
        samples_to_le_bytes(samples_from_le_bytes(bytes)) == bytes,
{
    let samples: Seq<u32> = samples_from_le_bytes(bytes);
    assert(4 * samples.len() == bytes.len());
    assert forall|k: int| 0 <= k < bytes.len() implies samples_to_le_bytes(samples)[k]
        == bytes[k] by {
        let i: int = k / 4;
        let r: int = k % 4;
        assert(0 <= i < samples.len());
        assert(k == 4 * i + r && 0 <= r < 4);
        lemma_le_value_bytes(bytes[4 * i], bytes[4 * i + 1], bytes[4 * i + 2], bytes[4 * i + 3]);
        let restored: Seq<u8> = le_bytes(samples[i]);
        assert(restored == seq![bytes[4 * i], bytes[4 * i + 1], bytes[4 * i + 2], bytes[4 * i + 3]]);
        assert(restored[r] == bytes[k]);
    }
    assert(samples_to_le_bytes(samples) =~= bytes);
}

/// The sample whose little-endian bytes are `b0`, `b1`, `b2`, `b3`.
pub fn sample_from_le_bytes(b0: u8, b1: u8, b2: u8, b3: u8) -> (value: u32)
    ensures
        value == le_value(b0, b1, b2, b3),
{
    (b0 as u32) + 0x100 * (b1 as u32) + 0x1_0000 * (b2 as u32) + 0x100_0000 * (b3 as u32)
}

/// Reads the samples that `bytes` hold.
pub fn decode_samples(bytes: &[u8]) -> (samples: Vec<u32>)
    ensures
        samples@ == samples_from_le_bytes(bytes@),
{
    let count: usize = bytes.len() / SAMPLE_BYTES;
    let mut samples: Vec<u32> = Vec::new();
    let mut i: usize = 0;
    while i < count
        invariant
            4 * count <= bytes@.len() <= usize::MAX,
            count == bytes@.len() / 4,
            i <= count,
            samples@.len() == i,
            forall|j: int| 0 <= j < i ==> samples@[j] == samples_from_le_bytes(bytes@)[j],
        decreases count - i,
    {
        let at: usize = SAMPLE_BYTES * i;
        let value: u32 = sample_from_le_bytes(bytes[at], bytes[at + 1], bytes[at + 2], bytes[at + 3]);
        samples.push(value);
        i = i + 1;
    }
    assert(samples@ =~= samples_from_le_bytes(bytes@));
    samples
}

/// Writes out the bytes of `samples`.
pub fn encode_samples(samples: &[u32]) -> (bytes: Vec<u8>)
    ensures
        bytes@ == samples_to_le_bytes(samples@),
{
    let mut bytes: Vec<u8> = Vec::new();
    let mut i: usize = 0;
    while i < samples.len()
        invariant
            i <= samples@.len(),
            bytes@.len() == 4 * i,
            forall|k: int| 0 <= k < 4 * i ==> bytes@[k] == samples_to_le_bytes(samples@)[k],
        decreases samples@.len() - i,
    {
        let value: u32 = samples[i];
        bytes.push((value % 0x100) as u8);
        bytes.push((value / 0x100 % 0x100) as u8);
        bytes.push((value / 0x100 / 0x100 % 0x100) as u8);
        bytes.push((value / 0x100 / 0x100 / 0x100) as u8);
        proof {
            let base: int = 4 * i;
            assert(base / 4 == i && (base + 1) / 4 == i && (base + 2) / 4 == i && (base + 3) / 4
                == i);
            assert(base % 4 == 0 && (base + 1) % 4 == 1 && (base + 2) % 4 == 2 && (base + 3) % 4
                == 3);
        }
        i = i + 1;
    }
    assert(bytes@ =~= samples_to_le_bytes(samples@));
    bytes
}

} // verus!
