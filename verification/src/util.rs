use vstd::prelude::*;

verus! {

use vstd::arithmetic::power2::{pow2, lemma_pow2_pos};
use vstd::arithmetic::div_mod::{
    lemma_fundamental_div_mod,
    lemma_mod_multiples_basic,
    lemma_mod_multiples_vanish,
    lemma_small_mod,
    lemma_div_is_ordered,
};
use vstd::bits::{
    low_bits_mask,
    lemma_usize_shl_is_mul,
    lemma_usize_pow2_no_overflow,
    lemma_usize_low_bits_mask_is_mod,
};

/// The value `val` rounded down to a multiple of `2^order`.
pub open spec fn align_down_spec(val: int, order: nat) -> int {
    val - val % (pow2(order) as int)
}

/// The value `val` rounded up to a multiple of `2^order`.
pub open spec fn align_up_spec(val: int, order: nat) -> int {
    align_down_spec(val + pow2(order) - 1, order)
}

/// `1 << order` is `2^order`, and it leaves room for its mask.
proof fn lemma_unit(order: usize)
    requires
        order < usize::BITS,
    ensures
        (1usize << order) == pow2(order as nat),
        0 < pow2(order as nat) < usize::MAX,
        low_bits_mask(order as nat) == pow2(order as nat) - 1,
{
    lemma_usize_pow2_no_overflow(order as nat);
    lemma_usize_shl_is_mul(1, order);
}

/// Clearing the low `order` bits of `x` subtracts `x % 2^order`.
proof fn lemma_clear_low_bits(x: usize, order: usize)
    requires
        order < usize::BITS,
    ensures
        x & !(((1usize << order) - 1) as usize) == (x as int) - (x as int) % (pow2(order as nat) as int),
{
    lemma_unit(order);
    let k: usize = ((1usize << order) - 1) as usize;
    lemma_usize_low_bits_mask_is_mod(x, order as nat);
    assert(x & k == x % (pow2(order as nat) as usize));
    assert(x & !k == x - (x & k)) by (bit_vector);
}

/// Rounds `val` down to a multiple of `2^order`.
pub fn align_down_pow2(val: usize, order: usize) -> (r: usize)
    requires
        order < usize::BITS,
    ensures
        r == align_down_spec(val as int, order as nat),
{
    proof {
        lemma_unit(order);
        lemma_clear_low_bits(val, order);
    }
    let modulus = 1usize << order;
    let mask = !(modulus - 1);
    val & mask
}

/// Rounds `val` up to a multiple of `2^order`.
pub fn align_up_pow2(val: usize, order: usize) -> (r: usize)
    requires
        order < usize::BITS,
        val + (pow2(order as nat) - 1) <= usize::MAX,
    ensures
        r == align_up_spec(val as int, order as nat),
{
    proof {
        lemma_unit(order);
    }
    let modulus = 1usize << order;
    let mask = modulus - 1;
    proof {
        lemma_clear_low_bits((val + mask) as usize, order);
    }
    (val + mask) & !mask
}

/// `val - val % p` is the multiple `p * (val / p)` of `p`.
proof fn lemma_floor_multiple(val: int, p: int)
    requires
        p > 0,
    ensures
        val - val % p == p * (val / p),
        (val - val % p) % p == 0,
        0 <= val % p < p,
{
    lemma_fundamental_div_mod(val, p);
    lemma_mod_multiples_basic(val / p, p);
    assert((val / p) * p == p * (val / p)) by (nonlinear_arith);
}

/// Rounding down gives the greatest multiple of `2^order` that is not above `val`.
pub proof fn law_align_down_is_floor(val: int, order: nat)
    ensures
        align_down_spec(val, order) % (pow2(order) as int) == 0,
        align_down_spec(val, order) <= val < align_down_spec(val, order) + pow2(order),
{
    lemma_pow2_pos(order);
    lemma_floor_multiple(val, pow2(order) as int);
}

/// Rounding up gives the least multiple of `2^order` that is not below `val`.
pub proof fn law_align_up_is_ceiling(val: int, order: nat)
    ensures
        align_up_spec(val, order) % (pow2(order) as int) == 0,
        val <= align_up_spec(val, order) < val + pow2(order),
{
    lemma_pow2_pos(order);
    lemma_floor_multiple(val + pow2(order) - 1, pow2(order) as int);
}

/// A value that is already a multiple of `2^order` is left as it is by both roundings.
pub proof fn law_align_aligned_is_identity(val: int, order: nat)
    requires
        val % (pow2(order) as int) == 0,
    ensures
        align_down_spec(val, order) == val,
        align_up_spec(val, order) == val,
{
    let p = pow2(order) as int;
    lemma_pow2_pos(order);
    lemma_fundamental_div_mod(val, p);
    lemma_mod_multiples_vanish(val / p, p - 1, p);
    lemma_small_mod((p - 1) as nat, p as nat);
    assert(val + p - 1 == p * (val / p) + (p - 1));
}

/// Rounding twice in the same direction gives what rounding once gives.
pub proof fn law_align_idempotent(val: int, order: nat)
    ensures
        align_down_spec(align_down_spec(val, order), order) == align_down_spec(val, order),
        align_up_spec(align_up_spec(val, order), order) == align_up_spec(val, order),
{
    law_align_down_is_floor(val, order);
    law_align_up_is_ceiling(val, order);
    law_align_aligned_is_identity(align_down_spec(val, order), order);
    law_align_aligned_is_identity(align_up_spec(val, order), order);
}

/// Rounding up and rounding down agree exactly on multiples of `2^order`; elsewhere
/// they are one unit `2^order` apart.
pub proof fn law_align_up_down_gap(val: int, order: nat)
    ensures
        val % (pow2(order) as int) == 0 ==> align_up_spec(val, order) == align_down_spec(val, order),
        val % (pow2(order) as int) != 0 ==> align_up_spec(val, order) == align_down_spec(val, order) + pow2(order),
{
    let p = pow2(order) as int;
    lemma_pow2_pos(order);
    if val % p == 0 {
        law_align_aligned_is_identity(val, order);
    } else {
        let d = align_down_spec(val, order);
        let u = align_up_spec(val, order);
        law_align_down_is_floor(val, order);
        law_align_up_is_ceiling(val, order);
        lemma_floor_multiple(val, p);
        lemma_floor_multiple(val + p - 1, p);
        let qd = val / p;
        let qu = (val + p - 1) / p;
        assert(d == p * qd);
        assert(u == p * qu);
        assert(d < val);
        assert(qu == qd + 1) by (nonlinear_arith)
            requires
                p > 0,
                d == p * qd,
                u == p * qu,
                d < val,
                val <= u,
                u < val + p,
                val < d + p,
        ;
        assert(p * (qd + 1) == p * qd + p) by (nonlinear_arith);
    }
}

/// Both roundings preserve order.
pub proof fn law_align_monotonic(a: int, b: int, order: nat)
    requires
        a <= b,
    ensures
        align_down_spec(a, order) <= align_down_spec(b, order),
        align_up_spec(a, order) <= align_up_spec(b, order),
{
    let p = pow2(order) as int;
    lemma_pow2_pos(order);
    lemma_floor_multiple(a, p);
    lemma_floor_multiple(b, p);
    lemma_floor_multiple(a + p - 1, p);
    lemma_floor_multiple(b + p - 1, p);
    lemma_div_is_ordered(a, b, p);
    lemma_div_is_ordered(a + p - 1, b + p - 1, p);
    assert(p * (a / p) <= p * (b / p)) by (nonlinear_arith)
        requires p > 0, a / p <= b / p;
    assert(p * ((a + p - 1) / p) <= p * ((b + p - 1) / p)) by (nonlinear_arith)
        requires p > 0, (a + p - 1) / p <= (b + p - 1) / p;
}

} // verus!
