use vstd::arithmetic::power2::pow2;
use vstd::bits::low_bits_mask;
use vstd::prelude::*;

verus! {

/// `a` is `2^k` for some `k` below the width of `usize`.
pub open spec fn is_power_of_two(a: usize) -> bool {
    exists|k: nat| k < usize::BITS && #[trigger] pow2(k) == a
}

/// `r` is `v` rounded up to the next multiple of `a`: the only multiple of `a`
/// in `v..v + a`.
pub open spec fn is_rounded_up(r: int, v: int, a: int) -> bool {
    &&& r % a == 0
    &&& v <= r
    &&& r < v + a
}

/// `v` rounded up to the next multiple of `a`.
pub open spec fn round_up(v: int, a: int) -> int {
    ((v + a - 1) / a) * a
}

/// `round_up` is the multiple of `a` that lies in `v..v + a`.
pub proof fn lemma_round_up_is_rounded_up(v: int, a: int)
    requires
        a > 0,
        v >= 0,
    ensures
        is_rounded_up(round_up(v, a), v, a),
        round_up(v, a) >= 0,
{
    let q = (v + a - 1) / a;
    vstd::arithmetic::div_mod::lemma_fundamental_div_mod(v + a - 1, a);
    vstd::arithmetic::div_mod::lemma_mod_multiples_basic(q, a);
    assert(q * a == a * q) by (nonlinear_arith);
    assert(q >= 0) by {
        vstd::arithmetic::div_mod::lemma_div_pos_is_pos(v + a - 1, a);
    }
    assert(q * a >= 0) by (nonlinear_arith)
        requires
            q >= 0,
            a > 0,
    ;
}

/// Zero is not a power of two, so a zero alignment is always refused.
pub proof fn lemma_zero_not_power_of_two()
    ensures
        !is_power_of_two(0),
{
    assert forall|k: nat| k < usize::BITS implies #[trigger] pow2(k) != 0 by {
        vstd::arithmetic::power2::lemma_pow2_pos(k);
    }
}

/// std's `usize::is_power_of_two`, which its documentation describes as true
/// if and only if the value is `2^k` for some `k`.
#[verifier::external_body]
pub(crate) fn usize_is_power_of_two(a: usize) -> (b: bool)
    ensures
        b == is_power_of_two(a),
    no_unwind
{
    a.is_power_of_two()
}

/// Masking `v + (a - 1)` with `!(a - 1)` rounds `v` up to a multiple of the
/// power of two `a`.
pub proof fn lemma_mask_rounds_up(v: usize, a: usize)
    requires
        is_power_of_two(a),
        v + (a - 1) <= usize::MAX,
    ensures
        a > 0,
        is_rounded_up((((v + (a - 1)) as usize) & !((a - 1) as usize)) as int, v as int, a as int),
        (((v + (a - 1)) as usize) & !((a - 1) as usize)) as int == round_up(v as int, a as int),
{
    let k = choose|k: nat| k < usize::BITS && #[trigger] pow2(k) == a;
    vstd::arithmetic::power2::lemma_pow2_pos(k);
    let m: usize = (a - 1) as usize;
    let s: usize = (v + m) as usize;
    let r: usize = s & !m;
    assert(r <= s && s - r <= m) by (bit_vector)
        requires
            r == s & !m,
    ;
    assert(r & m == 0) by (bit_vector)
        requires
            r == s & !m,
    ;
    assert(low_bits_mask(k) == m);
    vstd::bits::lemma_usize_low_bits_mask_is_mod(r, k);
    assert(r % a == 0);
    lemma_round_up_is_rounded_up(v as int, a as int);
    lemma_rounded_up_unique(r as int, round_up(v as int, a as int), v as int, a as int);
}

/// The multiple of `a` in `v..v + a` is unique.
pub proof fn lemma_rounded_up_unique(r1: int, r2: int, v: int, a: int)
    requires
        a > 0,
        is_rounded_up(r1, v, a),
        is_rounded_up(r2, v, a),
    ensures
        r1 == r2,
{
    vstd::arithmetic::div_mod::lemma_fundamental_div_mod(r1, a);
    vstd::arithmetic::div_mod::lemma_fundamental_div_mod(r2, a);
    let k1 = r1 / a;
    let k2 = r2 / a;
    if k1 < k2 {
        assert(a * k1 + a <= a * k2) by (nonlinear_arith)
            requires
                k1 < k2,
                a > 0,
        ;
    } else if k2 < k1 {
        assert(a * k2 + a <= a * k1) by (nonlinear_arith)
            requires
                k2 < k1,
                a > 0,
        ;
    }
}

} // verus!
