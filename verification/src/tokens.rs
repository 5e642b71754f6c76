//! The token estimate: a quarter of a text's byte length, rounded up.
//!
//! The length is first rounded to single precision, as IEEE 754 rounds an
//! integer: to the nearest number with 24 significant bits, a tie going to the
//! one whose last bit is zero. Up to 2^24 bytes that changes nothing.
use vstd::arithmetic::power2::{lemma2_to64, lemma_pow2_pos, lemma_pow2_unfold, pow2};
use vstd::prelude::*;

verus! {

/// Every integer below this one has at most 24 significant bits.
pub const EXACT_LIMIT: u128 = 0x100_0000;

/// The distance between the numbers of 24 significant bits around `n`.
pub open spec fn spacing(n: nat) -> nat
    decreases n,
{
    if n < EXACT_LIMIT {
        1
    } else {
        2 * spacing(n / 2)
    }
}

/// `n` in single precision: the nearest multiple of the spacing at `n`, a tie
/// going to the even one.
pub open spec fn single_precision(n: nat) -> nat {
    let unit = spacing(n);
    let steps = n / unit;
    let rest = n % unit;
    if 2 * rest < unit || (2 * rest == unit && steps % 2 == 0) {
        steps * unit
    } else {
        (steps + 1) * unit
    }
}

/// The tokens that a text of `len` bytes is estimated to have: a quarter of the
/// length in single precision, rounded up, and at most what a `u32` holds.
pub open spec fn estimated_tokens(len: nat) -> nat {
    let quarter = (single_precision(len) + 3) / 4;
    if quarter <= u32::MAX {
        quarter
    } else {
        u32::MAX as nat
    }
}

proof fn lemma_spacing_positive(n: nat)
    ensures
        spacing(n) >= 1,
    decreases n,
{
    if n >= EXACT_LIMIT {
        lemma_spacing_positive(n / 2);
    }
}

/// The spacing at `len`.
fn spacing_at(len: u128) -> (unit: u128)
    requires
        len <= u64::MAX,
    ensures
        unit == spacing(len as nat),
        1 <= unit <= len + 1,
{
    let mut unit: u128 = 1;
    let mut head: u128 = len;
    proof {
        assert(1 * spacing(len as nat) == spacing(len as nat));
    }
    while head >= EXACT_LIMIT
        invariant
            len <= u64::MAX,
            unit >= 1,
            unit * spacing(head as nat) == spacing(len as nat),
            unit * head <= len,
            unit <= len + 1,
        decreases head,
    {
        proof {
            let half = (head / 2) as int;
            assert(unit * (2 * spacing(half as nat)) == (2 * unit) * spacing(half as nat))
                by (nonlinear_arith);
            assert((2 * unit) * half <= unit * head) by (nonlinear_arith)
                requires
                    2 * half <= head,
                    unit >= 1,
            ;
            assert(2 * unit <= (2 * unit) * half) by (nonlinear_arith)
                requires
                    half >= 1,
                    unit >= 1,
            ;
        }
        unit = 2 * unit;
        head = head / 2;
    }
    proof {
        assert(unit * 1 == unit);
    }
    unit
}

/// The tokens that a text of `len` bytes is estimated to have.
pub fn estimate_tokens(len: usize) -> (r: u32)
    ensures
        r == estimated_tokens(len as nat),
{
    let len: u128 = len as u128;
    let unit: u128 = spacing_at(len);
    let steps: u128 = len / unit;
    let rest: u128 = len % unit;
    proof {
        assert(steps * unit <= len) by (nonlinear_arith)
            requires
                steps == len / unit,
                unit >= 1,
        ;
        assert((steps + 1) * unit == steps * unit + unit) by (nonlinear_arith);
        assert(rest < unit);
    }
    let rounded: u128 = if 2 * rest < unit || (2 * rest == unit && steps % 2 == 0) {
        steps * unit
    } else {
        (steps + 1) * unit
    };
    let quarter: u128 = (rounded + 3) / 4;
    if quarter <= u32::MAX as u128 {
        quarter as u32
    } else {
        u32::MAX
    }
}

/// Up to 2^24 bytes the estimate is exactly a quarter of the length, rounded up.
pub proof fn lemma_estimate_exact(len: nat)
    requires
        len <= EXACT_LIMIT,
    ensures
        estimated_tokens(len) == (len + 3) / 4,
        len <= 4 * estimated_tokens(len) < len + 4,
{
    reveal_with_fuel(spacing, 2);
    let unit = spacing(len);
    if len < EXACT_LIMIT {
        assert(unit == 1);
        assert(len / 1 == len);
        assert(len % 1 == 0);
    } else {
        assert(unit == 2);
        assert(len % 2 == 0);
    }
}

/// Single precision is never further from the length than half the spacing there.
pub proof fn lemma_single_precision_nearest(len: nat)
    ensures
        2 * single_precision(len) <= 2 * len + spacing(len),
        2 * len <= 2 * single_precision(len) + spacing(len),
        single_precision(len) % spacing(len) == 0,
{
    lemma_spacing_positive(len);
    let unit = spacing(len);
    let steps = len / unit;
    let rest = len % unit;
    vstd::arithmetic::div_mod::lemma_fundamental_div_mod(len as int, unit as int);
    assert(unit * steps == steps * unit) by (nonlinear_arith);
    assert((steps + 1) * unit == steps * unit + unit) by (nonlinear_arith);
    vstd::arithmetic::div_mod::lemma_mod_multiples_basic(steps as int, unit as int);
    vstd::arithmetic::div_mod::lemma_mod_multiples_basic((steps + 1) as int, unit as int);
}

proof fn lemma_spacing_bounds(n: nat)
    ensures
        n < EXACT_LIMIT * spacing(n),
        n >= EXACT_LIMIT ==> 2 * n >= EXACT_LIMIT * spacing(n),
    decreases n,
{
    if n >= EXACT_LIMIT {
        lemma_spacing_bounds(n / 2);
    }
}

proof fn lemma_spacing_grows(m: nat, n: nat)
    requires
        m <= n,
    ensures
        spacing(m) == spacing(n) || 2 * spacing(m) <= spacing(n),
    decreases n,
{
    lemma_spacing_positive(n / 2);
    if m >= EXACT_LIMIT {
        lemma_spacing_grows(m / 2, n / 2);
    }
}

proof fn lemma_steps(n: nat)
    ensures
        n == (n / spacing(n)) * spacing(n) + n % spacing(n),
        n % spacing(n) < spacing(n),
        (n / spacing(n) + 1) * spacing(n) == (n / spacing(n)) * spacing(n) + spacing(n),
        n / spacing(n) < EXACT_LIMIT,
{
    lemma_spacing_positive(n);
    lemma_spacing_bounds(n);
    let unit = spacing(n) as int;
    let steps = n as int / unit;
    vstd::arithmetic::div_mod::lemma_fundamental_div_mod(n as int, unit);
    vstd::arithmetic::div_mod::lemma_mod_bound(n as int, unit);
    assert(unit * steps == steps * unit) by (nonlinear_arith);
    assert((steps + 1) * unit == steps * unit + unit) by (nonlinear_arith);
    assert(steps < EXACT_LIMIT) by (nonlinear_arith)
        requires
            steps * unit <= n,
            n < EXACT_LIMIT * unit,
            unit >= 1,
    ;
}

/// A longer text is never estimated at fewer tokens.
pub proof fn lemma_estimate_monotone(m: nat, n: nat)
    requires
        m <= n,
    ensures
        estimated_tokens(m) <= estimated_tokens(n),
{
    lemma_spacing_positive(m);
    lemma_spacing_positive(n);
    lemma_spacing_grows(m, n);
    lemma_spacing_bounds(n);
    lemma_steps(m);
    lemma_steps(n);
    let unit = spacing(m) as int;
    let wide = spacing(n) as int;
    let low = m as int / unit;
    let high = n as int / wide;
    if unit == wide {
        assert(low <= high) by {
            vstd::arithmetic::div_mod::lemma_div_is_ordered(m as int, n as int, unit);
        }
        if low < high {
            assert((low + 1) * unit <= high * unit) by (nonlinear_arith)
                requires
                    low + 1 <= high,
                    unit >= 1,
            ;
        }
    } else {
        let limit = EXACT_LIMIT as int;
        assert((low + 1) * unit <= limit * unit) by (nonlinear_arith)
            requires
                low + 1 <= limit,
                unit >= 1,
        ;
        assert(n >= EXACT_LIMIT);
        assert(2 * high >= limit) by {
            if 2 * high < limit {
                assert(2 * (high + 1) <= limit);
                assert(2 * ((high + 1) * wide) <= limit * wide) by (nonlinear_arith)
                    requires
                        2 * (high + 1) <= limit,
                        wide >= 1,
                ;
            }
        }
        assert(limit * unit <= high * wide) by (nonlinear_arith)
            requires
                2 * high >= limit,
                wide >= 2 * unit,
                unit >= 1,
                limit >= 0,
        ;
    }
    assert(single_precision(m) <= single_precision(n));
}

proof fn lemma_spacing_of_binade(m: nat, e: nat, r: nat)
    requires
        0x80_0000 <= m < 0x100_0000,
        r < pow2(e),
    ensures
        spacing(m * pow2(e) + r) == pow2(e),
    decreases e,
{
    let n = m * pow2(e) + r;
    if e == 0 {
        lemma2_to64();
        assert(n == m);
    } else {
        let half = (e - 1) as nat;
        lemma_pow2_unfold(e);
        lemma_pow2_pos(half);
        assert(m * (2 * pow2(half)) == 2 * (m * pow2(half))) by (nonlinear_arith);
        assert(n / 2 == m * pow2(half) + r / 2);
        assert(m * pow2(half) >= 0x80_0000) by (nonlinear_arith)
            requires
                m >= 0x80_0000,
                pow2(half) >= 1,
        ;
        lemma_spacing_of_binade(m, half, r / 2);
    }
}

/// The estimate of a text of more than 2^24 bytes. Its length is 24 significant
/// bits `m`, then `e` bits `r` that single precision has no room for: these are
/// dropped, and `m` goes up by one where they are more than half of what they can
/// be, or just half and `m` is odd. A quarter of that, rounded up, is the estimate,
/// or the largest `u32` where that is less.
pub proof fn lemma_estimate_of_long_text(m: nat, e: nat, r: nat)
    requires
        0x80_0000 <= m < 0x100_0000,
        1 <= e,
        r < pow2(e),
    ensures
        ({
            let up = 2 * r > pow2(e) || (2 * r == pow2(e) && m % 2 == 1);
            let rounded = if up {
                (m + 1) * pow2(e)
            } else {
                m * pow2(e)
            };
            let tokens = estimated_tokens(m * pow2(e) + r);
            &&& rounded <= 4 * 0xffff_ffff ==> rounded <= 4 * tokens < rounded + 4
            &&& rounded > 4 * 0xffff_ffff ==> tokens == 0xffff_ffff
        }),
{
    let unit = pow2(e);
    let n = m * unit + r;
    lemma_spacing_of_binade(m, e, r);
    lemma_pow2_pos(e);
    vstd::arithmetic::div_mod::lemma_fundamental_div_mod_converse(
        n as int,
        unit as int,
        m as int,
        r as int,
    );
}

} // verus!
