use vstd::prelude::*;

verus! {

/// Zero flag rule: set exactly when the value is zero.
pub open spec fn zero_of(value: u8) -> bool {
    value == 0
}

/// Sign flag rule: set exactly when bit 7 of the value is one.
pub open spec fn sign_of(value: u8) -> bool {
    value >= 0x80
}

/// The number of one bits among the lowest `n` bits of `value`.
pub open spec fn ones(value: nat, n: nat) -> nat
    decreases n,
{
    if n == 0 {
        0
    } else {
        value % 2 + ones(value / 2, (n - 1) as nat)
    }
}

/// Parity flag rule: set exactly when the low eight bits of the value hold an
/// even number of ones.
pub open spec fn parity_of(value: u16) -> bool {
    ones(value as nat % 256, 8) % 2 == 0
}

/// Auxiliary carry after an addition: bit 4 of `first ^ second ^ result`,
/// which is the carry out of the low nibble of `first + second`.
pub open spec fn aux_carry_add(first: u8, second: u8, result: u8) -> bool {
    (first ^ second ^ result) & 0x10 != 0
}

/// Auxiliary carry after a subtraction: a borrow at the nibble boundary.
pub open spec fn aux_carry_sub(first: u8, second: u8) -> bool {
    first % 16 < second % 16
}

/// Carry after a rotation: bit 7 of the value before it was rotated.
pub open spec fn carry_rotate(value: u8) -> bool {
    value >= 0x80
}

/// Carry after an 8-bit addition computed in 16 bits: bit 8 of the sum.
pub open spec fn carry_add(sum: u16) -> bool {
    (sum / 256) % 2 == 1
}

/// Carry after a subtraction: a borrow out of the byte.
pub open spec fn carry_sub(first: u8, second: u8) -> bool {
    first < second
}

/// The two's complement of `value`: the byte that added to `value` gives zero
/// modulo 256.
pub fn get_twos_compliment(value: u8) -> (r: u8)
    ensures
        r == (256 - value) % 256,
{
    assert(!value == 255 - value) by (bit_vector);
    (!value).wrapping_add(1)
}

} // verus!
