//! Integer facts the equations rely on: what Rust's truncating `as` casts
//! compute, and bounds on quotients.
use vstd::prelude::*;

verus! {

/// Value of an integer cast to `u16`: the residue modulo 2^16.
pub open spec fn wrap_u16(x: int) -> int {
    x % 65536
}

/// Value of an integer cast to `i16`: the residue modulo 2^16 in `[-2^15, 2^15)`.
pub open spec fn wrap_i16(x: int) -> int {
    (x + 32768) % 65536 - 32768
}

/// Casting a `u32` to `u16` keeps the low 16 bits.
pub proof fn lemma_u32_as_u16(x: u32)
    ensures
        (x as u16) as int == wrap_u16(x as int),
{
    let r = x as u16;
    assert(r == x & 0xffff) by (bit_vector)
        requires
            r == x as u16,
    ;
    assert(x & 0xffff == x % 65536) by (bit_vector);
}

/// Casting an `i32` to `u16` keeps the low 16 bits of its two's complement.
pub proof fn lemma_i32_as_u16(x: i32)
    ensures
        (x as u16) as int == wrap_u16(x as int),
{
    let r = x as u16;
    let y = x as u32;
    assert(r == y & 0xffff) by (bit_vector)
        requires
            r == x as u16,
            y == x as u32,
    ;
    assert(y & 0xffff == y % 65536) by (bit_vector);
    assert(x >= 0 ==> y == x) by (bit_vector)
        requires
            y == x as u32,
    ;
    assert(x < 0 ==> y == x + 0x1_0000_0000) by (bit_vector)
        requires
            y == x as u32,
    ;
    if x < 0 {
        assert((x as int + 0x1_0000_0000) % 65536 == (x as int) % 65536) by (nonlinear_arith);
    }
}

/// Casting an `i32` to `i16` keeps the low 16 bits, read as two's complement.
pub proof fn lemma_i32_as_i16(x: i32)
    ensures
        (x as i16) as int == wrap_i16(x as int),
{
    let r = x as i16;
    let y = x as u16;
    lemma_i32_as_u16(x);
    assert(r == y as i16) by (bit_vector)
        requires
            r == x as i16,
            y == x as u16,
    ;
    assert(y < 32768 ==> r == y) by (bit_vector)
        requires
            r == y as i16,
    ;
    assert(y >= 32768 ==> r == y - 65536) by (bit_vector)
        requires
            r == y as i16,
    ;
    assert(((x as int) + 32768) % 65536 == ((y as int) + 32768) % 65536) by (nonlinear_arith)
        requires
            y == (x as int) % 65536,
    ;
}

/// A quotient is at most `m` when the dividend is at most `m` times the divisor.
pub proof fn lemma_div_le_bound(a: int, b: int, m: int)
    requires
        a >= 0,
        b > 0,
        a <= m * b,
    ensures
        0 <= a / b <= m,
{
    vstd::arithmetic::div_mod::lemma_fundamental_div_mod(a, b);
    assert(0 <= a / b <= m) by (nonlinear_arith)
        requires
            a >= 0,
            b > 0,
            a <= m * b,
            a == b * (a / b) + a % b,
            0 <= a % b < b,
    ;
}

/// A quotient is at least `m` when the dividend is at least `m` times the divisor.
pub proof fn lemma_div_ge_bound(a: int, b: int, m: int)
    requires
        b > 0,
        a >= m * b,
    ensures
        a / b >= m,
{
    vstd::arithmetic::div_mod::lemma_fundamental_div_mod(a, b);
    assert(a / b >= m) by (nonlinear_arith)
        requires
            b > 0,
            a >= m * b,
            a == b * (a / b) + a % b,
            0 <= a % b < b,
    ;
}

/// A quotient is at most `m` when the dividend is below `m + 1` times the divisor.
pub proof fn lemma_div_lt_bound(a: int, b: int, m: int)
    requires
        a >= 0,
        b > 0,
        a < (m + 1) * b,
    ensures
        a / b <= m,
{
    vstd::arithmetic::div_mod::lemma_fundamental_div_mod(a, b);
    assert(a / b <= m) by (nonlinear_arith)
        requires
            b > 0,
            a < (m + 1) * b,
            a == b * (a / b) + a % b,
            0 <= a % b < b,
    ;
}

} // verus!
