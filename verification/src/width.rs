//! How many bits an index needs, and which unsigned integer type stores it.

use vstd::arithmetic::power2::{lemma2_to64, lemma_pow2_strictly_increases, lemma_pow2_unfold, pow2};
use vstd::prelude::*;

verus! {

/// The number of binary digits of `value`; zero has none.
pub open spec fn bit_length(value: nat) -> nat
    decreases value,
{
    if value == 0 {
        0
    } else {
        1 + bit_length(value / 2)
    }
}

/// The number of bits that tell `values_amount` values apart: the binary logarithm, rounded up.
/// A single value needs no bits.
pub open spec fn min_bits(values_amount: nat) -> nat
    recommends
        values_amount >= 1,
{
    bit_length((values_amount - 1) as nat)
}

/// The width in bits of the smallest of the four unsigned storage types that holds `bits` bits.
pub open spec fn storage_width_for_bits(bits: nat) -> nat
    recommends
        bits <= 64,
{
    if bits <= 8 {
        8
    } else if bits <= 16 {
        16
    } else if bits <= 32 {
        32
    } else {
        64
    }
}

/// The width in bits of the storage type for an index into `values_amount` values.
pub open spec fn storage_width(values_amount: nat) -> nat {
    if values_amount <= 0x100 {
        8
    } else if values_amount <= 0x1_0000 {
        16
    } else if values_amount <= 0x1_0000_0000 {
        32
    } else {
        64
    }
}

/// The C name of the unsigned integer type that is `width` bits wide.
pub open spec fn int_type_name(width: nat) -> Seq<char>
    recommends
        width == 8 || width == 16 || width == 32 || width == 64,
{
    if width == 8 {
        "uint8_t"@
    } else if width == 16 {
        "uint16_t"@
    } else if width == 32 {
        "uint32_t"@
    } else {
        "uint64_t"@
    }
}

/// A number has at most as many binary digits as its value, and lies between the two powers
/// of two that its digit count names.
pub proof fn lemma_bit_length_bounds(value: nat)
    ensures
        bit_length(value) <= value,
        value < pow2(bit_length(value)),
        value > 0 ==> pow2((bit_length(value) - 1) as nat) <= value,
    decreases value,
{
    lemma2_to64();
    if value > 0 {
        lemma_bit_length_bounds(value / 2);
        lemma_pow2_unfold(bit_length(value));
        if value / 2 > 0 {
            lemma_pow2_unfold(bit_length(value / 2));
        }
    }
}

/// `min_bits` is the binary logarithm rounded up: the least exponent whose power of two
/// reaches the number of values.
pub proof fn lemma_min_bits_is_ceil_log2(values_amount: nat)
    requires
        values_amount >= 1,
    ensures
        values_amount <= pow2(min_bits(values_amount)),
        min_bits(values_amount) > 0 ==> pow2((min_bits(values_amount) - 1) as nat) < values_amount,
{
    lemma_bit_length_bounds((values_amount - 1) as nat);
}

/// `bits` bits are enough for `values_amount` values exactly when there are at most two to
/// the power of `bits` of them.
pub proof fn lemma_min_bits_at_most(values_amount: nat, bits: nat)
    requires
        values_amount >= 1,
    ensures
        min_bits(values_amount) <= bits <==> values_amount <= pow2(bits),
{
    lemma_min_bits_is_ceil_log2(values_amount);
    let needed = min_bits(values_amount);
    if needed < bits {
        lemma_pow2_strictly_increases(needed, bits);
    }
    if needed > bits {
        if needed - 1 > bits {
            lemma_pow2_strictly_increases(bits, (needed - 1) as nat);
        }
    }
}

/// More values never need fewer bits.
pub proof fn lemma_min_bits_monotonic(values_amount: nat)
    requires
        values_amount >= 1,
    ensures
        min_bits(values_amount) <= min_bits(values_amount + 1),
{
    lemma_min_bits_is_ceil_log2(values_amount + 1);
    lemma_min_bits_at_most(values_amount, min_bits(values_amount + 1));
}

/// The storage type chosen by the number of values is the smallest one that holds the bits
/// which that many values need.
pub proof fn lemma_storage_width_holds_min_bits(values_amount: nat)
    requires
        values_amount >= 1,
    ensures
        storage_width(values_amount) == storage_width_for_bits(min_bits(values_amount)),
        values_amount <= 0x1_0000_0000_0000_0000 ==> min_bits(values_amount) <= storage_width(
            values_amount,
        ),
{
    lemma2_to64();
    lemma_min_bits_at_most(values_amount, 8);
    lemma_min_bits_at_most(values_amount, 16);
    lemma_min_bits_at_most(values_amount, 32);
    lemma_min_bits_at_most(values_amount, 64);
}

} // verus!
