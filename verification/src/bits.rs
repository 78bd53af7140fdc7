//! Single-bit manipulation of 8-bit register values.
use vstd::prelude::*;

verus! {

/// Bit `i` of `v` (bit 0 is the least significant).
pub open spec fn bit_of(v: u8, i: u8) -> bool {
    (v >> i) & 1u8 == 1u8
}

/// `reg` with bit `bit` set to `val`.
pub open spec fn with_bit(reg: u8, bit: u8, val: bool) -> u8 {
    if val {
        reg | (1u8 << bit)
    } else {
        reg & !(1u8 << bit)
    }
}

proof fn lemma_with_bit_at(reg: u8, bit: u8, val: bool, i: u8)
    by (bit_vector)
    requires
        bit < 8,
        i < 8,
    ensures
        (((if val { reg | (1u8 << bit) } else { reg & !(1u8 << bit) }) >> i) & 1u8 == 1u8) == (if i
            == bit {
            val
        } else {
            (reg >> i) & 1u8 == 1u8
        }),
{
}

/// Bit-level description of `with_bit`: bit `bit` becomes `val`, every other bit is kept.
pub proof fn lemma_with_bit_bits(reg: u8, bit: u8, val: bool)
    requires
        bit < 8,
    ensures
        forall|i: u8|
            i < 8 ==> #[trigger] bit_of(with_bit(reg, bit, val), i) == if i == bit {
                val
            } else {
                bit_of(reg, i)
            },
{
    assert forall|i: u8| i < 8 implies #[trigger] bit_of(with_bit(reg, bit, val), i) == if i
        == bit {
        val
    } else {
        bit_of(reg, i)
    } by {
        lemma_with_bit_at(reg, bit, val, i);
    }
}

/// Two bytes are equal when all their eight bits agree.
pub proof fn lemma_bits_determine_byte(a: u8, b: u8)
    requires
        forall|i: u8| i < 8 ==> #[trigger] bit_of(a, i) == bit_of(b, i),
    ensures
        a == b,
{
    assert(bit_of(a, 0) == bit_of(b, 0));
    assert(bit_of(a, 1) == bit_of(b, 1));
    assert(bit_of(a, 2) == bit_of(b, 2));
    assert(bit_of(a, 3) == bit_of(b, 3));
    assert(bit_of(a, 4) == bit_of(b, 4));
    assert(bit_of(a, 5) == bit_of(b, 5));
    assert(bit_of(a, 6) == bit_of(b, 6));
    assert(bit_of(a, 7) == bit_of(b, 7));
    assert(a == b) by (bit_vector)
        requires
            ((a >> 0u8) & 1u8 == 1u8) == ((b >> 0u8) & 1u8 == 1u8),
            ((a >> 1u8) & 1u8 == 1u8) == ((b >> 1u8) & 1u8 == 1u8),
            ((a >> 2u8) & 1u8 == 1u8) == ((b >> 2u8) & 1u8 == 1u8),
            ((a >> 3u8) & 1u8 == 1u8) == ((b >> 3u8) & 1u8 == 1u8),
            ((a >> 4u8) & 1u8 == 1u8) == ((b >> 4u8) & 1u8 == 1u8),
            ((a >> 5u8) & 1u8 == 1u8) == ((b >> 5u8) & 1u8 == 1u8),
            ((a >> 6u8) & 1u8 == 1u8) == ((b >> 6u8) & 1u8 == 1u8),
            ((a >> 7u8) & 1u8 == 1u8) == ((b >> 7u8) & 1u8 == 1u8),
    ;
}

/// No bit of 0 is set.
pub proof fn lemma_zero_has_no_bits()
    ensures
        forall|i: u8| i < 8 ==> !#[trigger] bit_of(0u8, i),
{
    assert forall|i: u8| i < 8 implies !#[trigger] bit_of(0u8, i) by {
        assert((0u8 >> i) & 1u8 != 1u8) by (bit_vector);
    }
}

/// Changes the bit at position `bit` within `reg` to `val`.
pub fn write_bit(reg: u8, bit: u8, val: bool) -> (res: u8)
    requires
        bit < 8,
    ensures
        res == with_bit(reg, bit, val),
        bit_of(res, bit) == val,
        forall|i: u8| i < 8 && i != bit ==> #[trigger] bit_of(res, i) == bit_of(reg, i),
{
    proof {
        lemma_with_bit_bits(reg, bit, val);
    }
    let mut res = reg;
    if val {
        res |= 1 << bit;
    } else {
        res &= !(1 << bit);
    }
    res
}

/// Returns whether the bit at position `bit` within `reg` is set.
pub fn read_bit(reg: u8, bit: u8) -> (set: bool)
    requires
        bit < 8,
    ensures
        set == bit_of(reg, bit),
{
    assert((reg & (1u8 << bit) != 0u8) == ((reg >> bit) & 1u8 == 1u8)) by (bit_vector)
        requires
            bit < 8,
    ;
    reg & (1 << bit) != 0
}

/// Returns the bit index associated with a given pin.
pub fn bit_for_pin(pin: u8) -> (bit: u8)
    ensures
        bit == pin % 8,
        bit < 8,
{
    pin % 8
}

} // verus!
