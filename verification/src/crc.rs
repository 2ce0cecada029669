//! CRC-16/CCITT checksum over the payload bytes: polynomial `0x1021`,
//! initial register `0xFFFF`, no final XOR, as EMVCo field `63` requires.

use vstd::prelude::*;
use vstd::string::StringSliceAdditionalSpecFns;

verus! {

/// One register step: shift left once, folding in the polynomial when the
/// high bit was set.
pub open spec fn crc16_shift(crc: u16) -> u16 {
    if crc & 0x8000 != 0 {
        (crc << 1) ^ 0x1021
    } else {
        crc << 1
    }
}

/// `n` register steps in a row.
pub open spec fn crc16_bits(crc: u16, n: nat) -> u16
    decreases n,
{
    if n == 0 {
        crc
    } else {
        crc16_bits(crc16_shift(crc), (n - 1) as nat)
    }
}

/// Folds one input byte into the register: XOR it in shifted left eight
/// bits, then take eight register steps.
pub open spec fn crc16_update(crc: u16, byte: u8) -> u16 {
    crc16_bits(crc ^ ((byte as u16) << 8), 8)
}

/// The CRC-16/CCITT checksum of a byte sequence.
pub open spec fn crc16(data: Seq<u8>) -> u16
    decreases data.len(),
{
    if data.len() == 0 {
        0xFFFF
    } else {
        crc16_update(crc16(data.drop_last()), data.last())
    }
}

proof fn lemma_crc16_bits_step(crc: u16, n: nat)
    ensures
        crc16_bits(crc, n + 1) == crc16_shift(crc16_bits(crc, n)),
    decreases n,
{
    if n == 0 {
        assert(crc16_bits(crc, 1) == crc16_bits(crc16_shift(crc), 0));
        assert(crc16_bits(crc16_shift(crc), 0) == crc16_shift(crc));
    } else {
        lemma_crc16_bits_step(crc16_shift(crc), (n - 1) as nat);
    }
}

/// Calculates the CRC-16/CCITT checksum of the UTF-8 bytes of `data`.
///
/// The caller passes the payload prefix including the literal `"6304"`
/// tag-length marker but excluding the checksum itself.
pub fn calculate_crc(data: &str) -> (r: u16)
    ensures
        r == crc16(data.spec_bytes()),
{
    let bytes = data.as_bytes();
    let n = bytes.len();
    let mut crc: u16 = 0xFFFF;
    let mut i: usize = 0;
    while i < n
        invariant
            n == bytes@.len(),
            bytes@ == data.spec_bytes(),
            0 <= i <= n,
            crc == crc16(bytes@.take(i as int)),
        decreases n - i,
    {
        let byte = bytes[i];
        let ghost entry = crc;
        crc = crc ^ ((byte as u16) << 8u16);
        let mut j: usize = 0;
        while j < 8
            invariant
                0 <= j <= 8,
                crc == crc16_bits(entry ^ ((byte as u16) << 8), j as nat),
            decreases 8 - j,
        {
            if (crc & 0x8000) != 0 {
                crc = (crc << 1u16) ^ 0x1021;
            } else {
                crc = crc << 1u16;
            }
            proof {
                lemma_crc16_bits_step(entry ^ ((byte as u16) << 8), j as nat);
            }
            j = j + 1;
        }
        proof {
            assert(bytes@.take(i + 1).drop_last() =~= bytes@.take(i as int));
            assert(bytes@.take(i + 1).last() == byte);
        }
        i = i + 1;
    }
    proof {
        assert(bytes@.take(n as int) =~= bytes@);
    }
    crc
}

/// The checksum is a pure function of the byte sequence: equal inputs give
/// equal checksums.
pub proof fn lemma_crc_deterministic(a: Seq<u8>, b: Seq<u8>)
    requires
        a == b,
    ensures
        crc16(a) == crc16(b),
{
}

} // verus!
