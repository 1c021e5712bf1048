//! Bit-level helpers shared by the decoder and the executer.
use vstd::prelude::*;

verus! {

/// The value of the `width`-bit two's complement number `num`
/// (`num` taken below `2^width`).
pub open spec fn twos_complement(num: int, width: nat) -> int {
    if num >= vstd::arithmetic::power2::pow2((width - 1) as nat) as int {
        num - vstd::arithmetic::power2::pow2(width) as int
    } else {
        num
    }
}

/// The integer `v` reduced modulo `2^32`, as a 32-bit value.
pub open spec fn wrap(v: int) -> u32 {
    (v % 0x1_0000_0000) as u32
}

/// `u` plus the signed `s`, wrapping around at `2^32`.
pub open spec fn spec_add_signed(u: u32, s: i32) -> u32 {
    wrap(u as int + s as int)
}

/// Adds the signed `s` to `u`, wrapping around at `2^32`.
pub fn add_signed(u: u32, s: i32) -> (r: u32)
    ensures
        r == spec_add_signed(u, s),
{
    if s < 0 {
        u.wrapping_sub((-(s as i64)) as u32)
    } else {
        u.wrapping_add(s as u32)
    }
}

/// Bits above `bitnum` set exactly when bit `bitnum - 1` of `num` is set.
pub open spec fn spec_sign_extend(num: u32, bitnum: u32) -> u32 {
    if num >> ((bitnum - 1) as u32) == 0 {
        num
    } else if bitnum < 32 {
        (!0u32 << bitnum) | num
    } else {
        num
    }
}

/// Sign-extends `num`, read as a `bitnum`-bit number, to 32 bits.
///
/// Only the bits from `bitnum` upwards are filled: bits of `num` that are
/// already set there stay set.
pub fn sign_extend(num: u32, bitnum: u32) -> (r: u32)
    requires
        1 <= bitnum <= 32,
    ensures
        r == spec_sign_extend(num, bitnum),
        bitnum < 32 && num < (1u64 << bitnum) ==> (r as i32) as int
            == twos_complement(num as int, bitnum as nat),
{
    let msb = num >> (bitnum - 1);
    let sign_filled = if msb == 0 {
        0x0
    } else if bitnum < 32 {
        !0x0u32 << bitnum
    } else {
        0
    };
    let r = sign_filled | num;
    assert(0u32 | num == num) by (bit_vector);
    proof {
        if bitnum < 32 && num < (1u64 << bitnum) {
            lemma_sign_extend_value(num, bitnum);
        }
    }
    r
}

pub proof fn lemma_sign_extend_value(num: u32, bitnum: u32)
    requires
        1 <= bitnum < 32,
        num < (1u64 << bitnum),
    ensures
        (spec_sign_extend(num, bitnum) as i32) as int == twos_complement(num as int, bitnum as nat),
{
    vstd::bits::lemma_u64_pow2_no_overflow(bitnum as nat);
    vstd::bits::lemma_u64_pow2_no_overflow((bitnum - 1) as nat);
    vstd::bits::lemma_u64_shl_is_mul(1, bitnum as u64);
    vstd::bits::lemma_u64_shl_is_mul(1, (bitnum - 1) as u64);
    vstd::arithmetic::power2::lemma_pow2_unfold(bitnum as nat);
    let half = vstd::arithmetic::power2::pow2((bitnum - 1) as nat);
    let full = vstd::arithmetic::power2::pow2(bitnum as nat);
    assert(full == 2 * half);
    assert((1u64 << bitnum) == full);
    assert((1u64 << ((bitnum - 1) as u64)) == half);
    if num >= half {
        assert(num >> ((bitnum - 1) as u32) != 0 && ((!0u32 << bitnum) | num) as i32 as int
            == num as int - (1u64 << bitnum) as int) by (bit_vector)
            requires
                1 <= bitnum < 32,
                num < (1u64 << bitnum),
                num >= (1u64 << ((bitnum - 1) as u64)),
        ;
    } else {
        assert(num >> ((bitnum - 1) as u32) == 0) by (bit_vector)
            requires
                1 <= bitnum < 32,
                num < (1u64 << ((bitnum - 1) as u64)),
        ;
        assert((num as i32) as int == num as int) by (bit_vector)
            requires
                1 <= bitnum < 32,
                num < (1u64 << ((bitnum - 1) as u64)),
        ;
    }
}

/// Sign extension keeps the lowest bit of `num`, so even numbers stay even.
pub proof fn lemma_sign_extend_even(num: u32, bitnum: u32)
    requires
        2 <= bitnum <= 32,
        num & 1 == 0,
    ensures
        (spec_sign_extend(num, bitnum) as i32) % 2 == 0,
{
    let r = spec_sign_extend(num, bitnum);
    assert(r & 1 == 0) by (bit_vector)
        requires
            2 <= bitnum <= 32,
            num & 1 == 0,
            r == (if num >> ((bitnum - 1) as u32) == 0 { num } else if bitnum < 32 { (!0u32 << bitnum) | num } else { num }),
    ;
    assert(r & 1 == 0 ==> (r as i32) % 2 == 0) by (bit_vector);
}

/// Moves bit `from` of `inst` to bit position `to`; all other bits are zero.
pub fn bit_from_to(inst: u32, from: u32, to: u32) -> (r: u32)
    requires
        from < 32,
        to < 32,
    ensures
        r == ((inst >> from) & 1) << to,
        r == (if inst & (1u32 << from) != 0 { 1u32 << to } else { 0 }),
        r == 0 || r as nat == vstd::arithmetic::power2::pow2(to as nat),
{
    proof {
        vstd::bits::lemma_u32_pow2_no_overflow(to as nat);
        vstd::bits::lemma_u32_shl_is_mul(1, to);
    }
    let r = ((inst >> from) & 1) << to;
    assert(r == (if inst & (1u32 << from) != 0 { 1u32 << to } else { 0u32 })) by (bit_vector)
        requires
            from < 32,
            to < 32,
            r == ((inst >> from) & 1) << to,
    ;
    r
}

} // verus!
