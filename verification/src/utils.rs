//! Bit utilities: extraction of bit ranges from a 32-bit word and sign
//! extension of a width-N value into 32 bits.

use vstd::prelude::*;

verus! {

/// Bits `[lsb, msb]` of `number`, right-aligned: the value of that slice.
pub open spec fn bits_of(number: u32, lsb: u8, msb: u8) -> u32
    recommends
        lsb <= msb,
        msb <= 31,
{
    if msb - lsb == 31 {
        number
    } else {
        (number >> (lsb as u32)) & (((1u32 << ((msb - lsb + 1) as u32)) - 1) as u32)
    }
}

/// `number` with bit `nb_bits - 1` replicated into bits `nb_bits..=31` when
/// that bit is set: two's-complement sign extension of the low `nb_bits` bits.
pub open spec fn sign_extend_spec(number: u32, nb_bits: u32) -> u32
    recommends
        0 < nb_bits < 32,
{
    if bits_of(number, (nb_bits - 1) as u8, (nb_bits - 1) as u8) == 1 {
        number | (0xffff_ffffu32 << nb_bits)
    } else {
        number
    }
}

pub fn get_bits(number: u32, lsb: u8, msb: u8) -> (r: u32)
    requires
        lsb <= msb,
        msb <= 31,
    ensures
        r == bits_of(number, lsb, msb),
{
    let nb_bits: u8 = msb - lsb + 1;
    let shifted: u32 = number >> (lsb as u32);
    if nb_bits == 32 {
        proof {
            assert(number >> 0u32 == number) by (bit_vector);
        }
        shifted
    } else {
        proof {
            let s = nb_bits as u32;
            assert(1u32 << s >= 1) by (bit_vector)
                requires
                    s < 32u32,
            ;
        }
        let mask: u32 = (1u32 << (nb_bits as u32)) - 1;
        shifted & mask
    }
}

pub fn sign_extend_number(number: u32, nb_bits: u32) -> (r: u32)
    requires
        0 < nb_bits,
        nb_bits < 32,
    ensures
        r == sign_extend_spec(number, nb_bits),
{
    let bit: u8 = (nb_bits - 1) as u8;
    let is_signed = get_bits(number, bit, bit) == 1;
    if is_signed {
        number | (0xffff_ffffu32 << nb_bits)
    } else {
        number
    }
}

/// A bit-range extraction is bounded by 2 to the power of its width.
pub proof fn lemma_bits_of_bound(number: u32, lsb: u8, msb: u8)
    requires
        lsb <= msb,
        msb <= 31,
        msb - lsb < 31,
    ensures
        bits_of(number, lsb, msb) < (1u32 << ((msb - lsb + 1) as u32)),
{
    assert(bits_of(number, lsb, msb) < (1u32 << ((msb - lsb + 1) as u32))) by (bit_vector)
        requires
            lsb <= msb,
            msb <= 31u8,
            msb - lsb < 31,
    ;
}

/// Extracting bits `[lsb, msb]` is exactly the composition of a right shift
/// by `lsb` with the mask `(1 << (msb - lsb + 1)) - 1`; shifting the slice
/// back up by `lsb` reproduces the bits of `number` in that range, so the
/// extraction is the identity on the slice.
pub proof fn lemma_bits_of_slice_identity(number: u32, lsb: u8, msb: u8)
    requires
        lsb <= msb,
        msb <= 31,
        msb - lsb < 31,
    ensures
        bits_of(number, lsb, msb) == (number >> (lsb as u32)) & (((1u32 << ((msb - lsb + 1)
            as u32)) - 1) as u32),
        bits_of(number, lsb, msb) << (lsb as u32) == number & ((((1u32 << ((msb - lsb + 1)
            as u32)) - 1) as u32) << (lsb as u32)),
{
    assert(bits_of(number, lsb, msb) << (lsb as u32) == number & ((((1u32 << ((msb - lsb + 1)
        as u32)) - 1) as u32) << (lsb as u32))) by (bit_vector)
        requires
            lsb <= msb,
            msb <= 31u8,
            msb - lsb < 31,
    ;
}

/// With the top bit of the width-`nb_bits` slice set, sign extension turns on
/// every bit from `nb_bits` up to 31.
pub proof fn lemma_sign_extend_high_bits(number: u32, nb_bits: u32, i: u8)
    requires
        0 < nb_bits < 32,
        bits_of(number, (nb_bits - 1) as u8, (nb_bits - 1) as u8) == 1,
        nb_bits <= i < 32,
    ensures
        bits_of(sign_extend_spec(number, nb_bits), i, i) == 1,
{
    assert(bits_of(sign_extend_spec(number, nb_bits), i, i) == 1) by (bit_vector)
        requires
            0 < nb_bits < 32u32,
            bits_of(number, (nb_bits - 1) as u8, (nb_bits - 1) as u8) == 1,
            nb_bits <= i < 32u8,
    ;
}

} // verus!
