//! Sums and products of `i32` values.
//!
//! Both operations are total. Where the mathematical result fits in an `i32`
//! it is returned as it is; where it does not, the result wraps around, as
//! the machine's own arithmetic does.

use vstd::arithmetic::div_mod::{lemma_fundamental_div_mod, lemma_fundamental_div_mod_converse};
use vstd::prelude::*;

verus! {

/// Whether the integer `n` can be held in an `i32`.
pub open spec fn representable(n: int) -> bool {
    i32::MIN <= n <= i32::MAX
}

/// The two's-complement reading of `n` in 32 bits: the one representable
/// integer that differs from `n` by a multiple of 2^32.
pub open spec fn wrapped(n: int) -> int {
    (n + 0x8000_0000) % 0x1_0000_0000 - 0x8000_0000
}

/// What `add` returns for `a` and `b`.
pub open spec fn sum(a: i32, b: i32) -> int {
    wrapped(a + b)
}

/// What `multiply` returns for `a` and `b`.
pub open spec fn product(a: i32, b: i32) -> int {
    wrapped(a * b)
}

/// `wrapped(n)` is characterised by two facts: it is representable, and it is
/// congruent to `n` modulo 2^32. No other integer has both.
pub proof fn lemma_wrapped_is_unique(n: int, r: int)
    ensures
        r == wrapped(n) <==> representable(r) && (r - n) % 0x1_0000_0000 == 0,
{
    let modulus: int = 0x1_0000_0000;
    let half: int = 0x8000_0000;
    if r == wrapped(n) {
        let q: int = (n + half) / modulus;
        lemma_fundamental_div_mod(n + half, modulus);
        lemma_fundamental_div_mod_converse(r - n, modulus, -q, 0);
    }
    if representable(r) && (r - n) % modulus == 0 {
        let k: int = (r - n) / modulus;
        lemma_fundamental_div_mod(r - n, modulus);
        lemma_fundamental_div_mod_converse(n + half, modulus, -k, r + half);
    }
}

/// Addition does not depend on the order of its arguments.
pub proof fn lemma_add_commutes(a: i32, b: i32)
    ensures
        sum(a, b) == sum(b, a),
{
}

/// Multiplication does not depend on the order of its arguments.
pub proof fn lemma_multiply_commutes(a: i32, b: i32)
    ensures
        product(a, b) == product(b, a),
{
    assert(a * b == b * a) by (nonlinear_arith);
}

/// Returns the sum of `a` and `b`, wrapped into the range of `i32`.
pub fn add(a: i32, b: i32) -> (total: i32)
    ensures
        total == sum(a, b),
        representable(a + b) ==> total == a + b,
{
    a.wrapping_add(b)
}

/// Returns the product of `a` and `b`, wrapped into the range of `i32`.
pub fn multiply(a: i32, b: i32) -> (total: i32)
    ensures
        total == product(a, b),
        representable(a * b) ==> total == a * b,
{
    a.wrapping_mul(b)
}

} // verus!
