//! Decoding of single pixels.

use vstd::arithmetic::div_mod::{lemma_div_multiples_vanish_quotient, lemma_fundamental_div_mod};
use vstd::arithmetic::mul::lemma_mul_is_commutative;
use vstd::arithmetic::power::pow;
use vstd::arithmetic::power2::{lemma_pow2_pos, pow2};
use vstd::bits::{lemma_u32_shl_is_mul, lemma_u32_shr_is_div};
use vstd::prelude::*;
use vstd::std_specs::bits::{axiom_u32_trailing_zeros, u32_trailing_zeros};

verus! {

/// The number that `bytes` spell with the least significant byte first.
pub open spec fn little_endian(bytes: Seq<u8>) -> int
    decreases bytes.len(),
{
    if bytes.len() == 0 {
        0
    } else {
        little_endian(bytes.drop_last()) + bytes.last() * pow(256, (bytes.len() - 1) as nat)
    }
}

/// The number that `bytes` spell with the most significant byte first.
pub open spec fn big_endian(bytes: Seq<u8>) -> int
    decreases bytes.len(),
{
    if bytes.len() == 0 {
        0
    } else {
        big_endian(bytes.drop_last()) * 256 + bytes.last()
    }
}

/// The value of a pixel of the given bytes: the low 32 bits of the number that they spell.
pub open spec fn pixel_number(bytes: Seq<u8>, least_first: bool) -> int {
    if least_first {
        little_endian(bytes) % 0x1_0000_0000
    } else {
        big_endian(bytes) % 0x1_0000_0000
    }
}

/// The intensity, from 0 to 255, of the component of `pixel` that lies under `mask`:
/// 0 where the mask is empty, else its share of the largest value under the mask, rounded down.
pub open spec fn intensity(pixel: u32, mask: u32) -> int {
    if mask == 0 {
        0
    } else {
        (pixel & mask) * 255 / mask as int
    }
}

/// Reads the bytes of one pixel in the byte order of the server.
pub fn pixel_value(bytes: &[u8], little_endian: bool) -> (r: u32)
    requires
        little_endian ==> bytes@.len() <= 4,
    ensures
        r == pixel_number(bytes@, little_endian),
{
    let mut value: u32 = 0;
    proof {
        lemma_powers_of_256();
    }
    if little_endian {
        let mut index: usize = 0;
        while index < bytes.len()
            invariant
                index <= bytes@.len() <= 4,
                value == self::little_endian(bytes@.take(index as int)),
                value < pow(256, index as nat),
            decreases bytes@.len() - index,
        {
            let byte: u32 = bytes[index] as u32;
            let shift: u32 = index as u32 * 8;
            proof {
                assert(bytes@.take(index + 1).drop_last() =~= bytes@.take(index as int));
                lemma_or_places_byte(value, byte, index as nat, shift);
            }
            value = value | (byte << shift);
            index = index + 1;
        }
        proof {
            assert(bytes@.take(index as int) =~= bytes@);
        }
    } else {
        let mut index: usize = 0;
        while index < bytes.len()
            invariant
                index <= bytes@.len(),
                value == big_endian(bytes@.take(index as int)) % 0x1_0000_0000,
            decreases bytes@.len() - index,
        {
            let byte: u32 = bytes[index] as u32;
            proof {
                assert(bytes@.take(index + 1).drop_last() =~= bytes@.take(index as int));
                lemma_shift_makes_room(big_endian(bytes@.take(index as int)), value, byte);
            }
            value = (value << 8u32) | byte;
            index = index + 1;
        }
        proof {
            assert(bytes@.take(index as int) =~= bytes@);
        }
    }
    value
}

/// Scales the component of `pixel` under `mask` to the range of a byte.
pub fn component(pixel: u32, mask: u32) -> (r: u8)
    ensures
        r == intensity(pixel, mask),
{
    if mask == 0 {
        return 0;
    }
    let shift: u32 = mask.trailing_zeros();
    proof {
        lemma_shifted_share(pixel, mask);
    }
    let maximum: u32 = mask >> shift;
    let level: u32 = (pixel & mask) >> shift;
    ((level as u64 * 255) / maximum as u64) as u8
}

proof fn lemma_powers_of_256()
    ensures
        pow(256, 0) == 1,
        pow(256, 1) == 0x100,
        pow(256, 2) == 0x1_0000,
        pow(256, 3) == 0x100_0000,
        pow(256, 4) == 0x1_0000_0000,
{
    reveal(pow);
    assert(pow(256, 0) == 1);
    assert(pow(256, 1) == 256 * pow(256, 0));
    assert(pow(256, 2) == 256 * pow(256, 1));
    assert(pow(256, 3) == 256 * pow(256, 2));
    assert(pow(256, 4) == 256 * pow(256, 3));
}

/// Or-ing a byte above the bits in use adds it at its place value.
proof fn lemma_or_places_byte(value: u32, byte: u32, index: nat, shift: u32)
    requires
        index < 4,
        shift == index * 8,
        value < pow(256, index),
        byte < 0x100,
    ensures
        value | (byte << shift) == value + byte * pow(256, index),
        value | (byte << shift) < pow(256, index + 1),
{
    lemma_powers_of_256();
    if index == 0 {
        assert(0u32 | (byte << 0u32) == byte) by (bit_vector);
    } else if index == 1 {
        assert(value < 0x100 && byte < 0x100 ==> (value | (byte << 8u32)) == value + byte * 0x100)
            by (bit_vector);
    } else if index == 2 {
        assert(value < 0x1_0000 && byte < 0x100 ==> (value | (byte << 16u32)) == value + byte
            * 0x1_0000) by (bit_vector);
    } else {
        assert(value < 0x100_0000 && byte < 0x100 ==> (value | (byte << 24u32)) == value + byte
            * 0x100_0000) by (bit_vector);
    }
}

/// Shifting by a byte and or-ing one in appends it to the low 32 bits of a number.
proof fn lemma_shift_makes_room(number: int, value: u32, byte: u32)
    requires
        value == number % 0x1_0000_0000,
        byte < 0x100,
    ensures
        (value << 8u32) | byte == (number * 256 + byte) % 0x1_0000_0000,
{
    assert(byte < 0x100 ==> ((value << 8u32) | byte) == (value % 0x100_0000) * 0x100 + byte)
        by (bit_vector);
    let high = number / 0x1_0000_0000;
    let dropped = value as int / 0x100_0000;
    assert(number * 256 + byte == (high * 256 + dropped) * 0x1_0000_0000 + ((value % 0x100_0000)
        * 0x100 + byte));
}

/// The zero bits below a mask drop out of the share that a component has of its mask.
proof fn lemma_shifted_share(pixel: u32, mask: u32)
    requires
        mask != 0,
    ensures
        u32_trailing_zeros(mask) < 32,
        (mask >> u32_trailing_zeros(mask)) > 0,
        ((pixel & mask) >> u32_trailing_zeros(mask)) <= (mask >> u32_trailing_zeros(mask)),
        ((pixel & mask) >> u32_trailing_zeros(mask)) * 255 / (mask >> u32_trailing_zeros(
            mask,
        )) as int == intensity(pixel, mask),
        0 <= intensity(pixel, mask) <= 255,
{
    let shift = u32_trailing_zeros(mask);
    axiom_u32_trailing_zeros(mask);
    let rest = (32 - shift) as u32;
    assert(mask << rest == 0);
    let maximum = mask >> shift;
    let level = (pixel & mask) >> shift;
    assert(maximum > 0) by (bit_vector)
        requires
            maximum == mask >> shift,
            (mask >> shift) & 1u32 == 1u32,
    ;
    assert(level <= maximum && maximum << shift == mask && level << shift == pixel & mask)
        by (bit_vector)
        requires
            shift < 32,
            rest == 32 - shift,
            mask << rest == 0,
            maximum == mask >> shift,
            level == (pixel & mask) >> shift,
    ;
    lemma_shift_scales(mask, shift, maximum);
    lemma_shift_scales(pixel & mask, shift, level);
    lemma_pow2_pos(shift as nat);
    let unit = pow2(shift as nat) as int;
    assert(level * unit * 255 == unit * (level * 255)) by (nonlinear_arith);
    lemma_mul_is_commutative(maximum as int, unit);
    lemma_div_multiples_vanish_quotient(unit, level * 255, maximum as int);
    assert(0 <= level * 255 / maximum as int <= 255) by (nonlinear_arith)
        requires
            0 <= level <= maximum,
            maximum > 0,
    ;
}

proof fn lemma_shift_scales(whole: u32, shift: u32, part: u32)
    requires
        shift < 32,
        part == whole >> shift,
        part << shift == whole,
    ensures
        whole == part * pow2(shift as nat),
{
    lemma_u32_shr_is_div(whole, shift);
    lemma_pow2_pos(shift as nat);
    lemma_fundamental_div_mod(whole as int, pow2(shift as nat) as int);
    lemma_mul_is_commutative(part as int, pow2(shift as nat) as int);
    lemma_u32_shl_is_mul(part, shift);
}

/// A leading byte weighs as much as the bytes behind it have places.
proof fn lemma_big_endian_prepend(byte: u8, bytes: Seq<u8>)
    ensures
        big_endian(seq![byte] + bytes) == byte * pow(256, bytes.len()) + big_endian(bytes),
    decreases bytes.len(),
{
    reveal(pow);
    let all = seq![byte] + bytes;
    if bytes.len() == 0 {
        assert(all.drop_last() =~= Seq::<u8>::empty());
        assert(big_endian(all.drop_last()) == 0);
    } else {
        lemma_big_endian_prepend(byte, bytes.drop_last());
        assert(all.drop_last() =~= seq![byte] + bytes.drop_last());
        assert(all.last() == bytes.last());
        let rest = (bytes.len() - 1) as nat;
        assert(pow(256, bytes.len()) == 256 * pow(256, rest));
        assert(byte * pow(256, rest) * 256 == byte * (256 * pow(256, rest))) by (nonlinear_arith);
    }
}

/// The two byte orders read each other's bytes backwards.
pub proof fn law_byte_orders_mirror(bytes: Seq<u8>)
    ensures
        little_endian(bytes) == big_endian(bytes.reverse()),
        pixel_number(bytes, true) == pixel_number(bytes.reverse(), false),
    decreases bytes.len(),
{
    if bytes.len() > 0 {
        law_byte_orders_mirror(bytes.drop_last());
        lemma_big_endian_prepend(bytes.last(), bytes.drop_last().reverse());
        assert(bytes.reverse() =~= seq![bytes.last()] + bytes.drop_last().reverse());
    }
}

/// A component is at full intensity exactly where every bit under its mask is set,
/// and dark where none is.
pub proof fn law_component_extremes(pixel: u32, mask: u32)
    requires
        mask != 0,
    ensures
        intensity(pixel, mask) == 255 <==> pixel & mask == mask,
        pixel & mask == 0 ==> intensity(pixel, mask) == 0,
        0 <= intensity(pixel, mask) <= 255,
{
    lemma_shifted_share(pixel, mask);
    let part = (pixel & mask) as int;
    let whole = mask as int;
    assert(pixel & mask <= mask) by (bit_vector);
    assert(part == whole ==> part * 255 / whole == 255) by (nonlinear_arith)
        requires
            whole > 0,
    ;
    assert(part < whole ==> part * 255 / whole < 255) by (nonlinear_arith)
        requires
            0 <= part,
            whole > 0,
    ;
}

/// A larger value under a mask is never darker.
pub proof fn law_component_is_monotone(darker: u32, brighter: u32, mask: u32)
    requires
        darker & mask <= brighter & mask,
    ensures
        intensity(darker, mask) <= intensity(brighter, mask),
{
    if mask != 0 {
        let low = (darker & mask) as int;
        let high = (brighter & mask) as int;
        let whole = mask as int;
        assert(low * 255 / whole <= high * 255 / whole) by (nonlinear_arith)
            requires
                low <= high,
                whole > 0,
        ;
    }
}

/// A component of eight bits is taken over as it is.
pub proof fn law_byte_component_is_exact(pixel: u32, shift: u32)
    requires
        shift <= 24,
    ensures
        intensity(pixel, 0xffu32 << shift) == (pixel >> shift) & 0xff,
{
    let mask = 0xffu32 << shift;
    let level = (pixel >> shift) & 0xff;
    assert(mask != 0 && mask >> shift == 0xff && (0xffu32 << shift) == mask && level <= 0xff
        && (pixel & mask) >> shift == level && level << shift == pixel & mask) by (bit_vector)
        requires
            shift <= 24,
            mask == 0xffu32 << shift,
            level == (pixel >> shift) & 0xff,
    ;
    lemma_shift_scales(mask, shift, 0xff);
    lemma_shift_scales(pixel & mask, shift, level);
    lemma_pow2_pos(shift as nat);
    let unit = pow2(shift as nat) as int;
    assert(level * unit * 255 == unit * (level * 255)) by (nonlinear_arith);
    lemma_div_multiples_vanish_quotient(unit, level * 255, 255);
}

/// The level of a component is the share that it has of the largest value under its mask, in
/// parts of 255: the largest number of such parts that does not exceed it.
pub proof fn law_component_is_its_share(pixel: u32, mask: u32)
    ensures
        mask == 0 ==> intensity(pixel, mask) == 0,
        mask != 0 ==> intensity(pixel, mask) * mask <= (pixel & mask) * 255 < (intensity(
            pixel,
            mask,
        ) + 1) * mask,
{
    if mask != 0 {
        let part = (pixel & mask) * 255;
        let whole = mask as int;
        let level = intensity(pixel, mask);
        assert(level * whole <= part < (level + 1) * whole) by (nonlinear_arith)
            requires
                whole > 0,
                level == part / whole,
        ;
    }
}

/// The byte with the number `k`, or nothing where there is none.
pub open spec fn byte_at(bytes: Seq<u8>, k: int) -> int {
    if 0 <= k < bytes.len() {
        bytes[k] as int
    } else {
        0
    }
}

/// Every byte of a pixel weighs what its place gives it: with the least significant byte first,
/// the first one counts once and each further one 256 times the one before it; with the most
/// significant first, so it is from the last one backwards.
pub proof fn law_bytes_weigh_by_their_places(bytes: Seq<u8>)
    ensures
        bytes.len() <= 4 ==> pixel_number(bytes, true) == byte_at(bytes, 0) + 0x100 * byte_at(
            bytes,
            1,
        ) + 0x1_0000 * byte_at(bytes, 2) + 0x100_0000 * byte_at(bytes, 3),
        pixel_number(bytes, false) == byte_at(bytes, bytes.len() - 1) + 0x100 * byte_at(
            bytes,
            bytes.len() - 2,
        ) + 0x1_0000 * byte_at(bytes, bytes.len() - 3) + 0x100_0000 * byte_at(
            bytes,
            bytes.len() - 4,
        ),
{
    lemma_powers_of_256();
    if bytes.len() <= 4 {
        let none = Seq::<u8>::empty();
        reveal_with_fuel(little_endian, 5);
        let a = bytes.drop_last();
        let b = a.drop_last();
        let c = b.drop_last();
        assert(little_endian(none) == 0);
        if bytes.len() == 1 {
            assert(a =~= none);
        } else if bytes.len() == 2 {
            assert(b =~= none);
        } else if bytes.len() == 3 {
            assert(c =~= none);
        } else if bytes.len() == 4 {
            assert(c.drop_last() =~= none);
        }
    }
    let zero = big_endian(bytes.drop_last().drop_last().drop_last().drop_last());
    if bytes.len() >= 4 {
        let a = bytes.drop_last();
        let b = a.drop_last();
        let c = b.drop_last();
        assert(big_endian(bytes) == big_endian(a) * 256 + bytes[bytes.len() - 1]);
        assert(big_endian(a) == big_endian(b) * 256 + bytes[bytes.len() - 2]);
        assert(big_endian(b) == big_endian(c) * 256 + bytes[bytes.len() - 3]);
        assert(big_endian(c) == zero * 256 + bytes[bytes.len() - 4]);
    } else {
        reveal_with_fuel(big_endian, 5);
    }
}

} // verus!
