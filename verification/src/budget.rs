//! Proportional budget allocation: one fixed total budget is split over the
//! categories that have data, in proportion to fixed per-category weights.
//! Categories without data carry no weight, so the remaining categories
//! expand to fill their share.

use vstd::prelude::*;
use vstd::string::StrSliceExecFns;
use vstd::arithmetic::div_mod::{
    lemma_fundamental_div_mod, lemma_div_multiples_vanish, lemma_div_multiples_vanish_fancy,
    lemma_div_is_ordered,
};
use vstd::arithmetic::mul::{lemma_mul_is_distributive_add, lemma_mul_inequality};

verus! {

/// Characters of raw text granted per budget unit when truncating category
/// text ahead of squeezing.
pub const CHARS_PER_UNIT: u64 = 3;

/// The weight a category contributes to the denominator: absent categories
/// contribute nothing.
pub open spec fn opt_weight(w: Option<u64>) -> int {
    match w {
        Some(x) => x as int,
        None => 0,
    }
}

/// The sum of the present weights.
pub open spec fn present_sum(ws: Seq<Option<u64>>) -> int
    decreases ws.len(),
{
    if ws.len() == 0 {
        0
    } else {
        opt_weight(ws[0]) + present_sum(ws.drop_first())
    }
}

/// The budget a category receives: `floor(total * weight / wsum)` when
/// present, zero when absent.
pub open spec fn alloc_for(total: int, w: Option<u64>, wsum: int) -> int {
    match w {
        Some(x) => (total * x as int) / wsum,
        None => 0,
    }
}

/// The sum of all allocations.
pub open spec fn allocs_sum(total: int, ws: Seq<Option<u64>>, wsum: int) -> int
    decreases ws.len(),
{
    if ws.len() == 0 {
        0
    } else {
        alloc_for(total, ws[0], wsum) + allocs_sum(total, ws.drop_first(), wsum)
    }
}

proof fn lemma_present_sum_nonneg(ws: Seq<Option<u64>>)
    ensures
        present_sum(ws) >= 0,
    decreases ws.len(),
{
    if ws.len() > 0 {
        lemma_present_sum_nonneg(ws.drop_first());
    }
}

/// Floor division distributes superadditively over addition.
proof fn lemma_div_superadd(a: int, b: int, d: int)
    requires
        a >= 0,
        b >= 0,
        d > 0,
    ensures
        a / d + b / d <= (a + b) / d,
{
    lemma_fundamental_div_mod(a, d);
    lemma_fundamental_div_mod(b, d);
    let q = a / d + b / d;
    let r = a % d + b % d;
    assert(a + b == d * q + r) by (nonlinear_arith)
        requires
            a == d * (a / d) + a % d,
            b == d * (b / d) + b % d,
            q == a / d + b / d,
            r == a % d + b % d,
    ;
    if r < d {
        lemma_div_multiples_vanish_fancy(q, r, d);
    } else {
        assert(d * q + r == d * (q + 1) + (r - d)) by (nonlinear_arith);
        lemma_div_multiples_vanish_fancy(q + 1, r - d, d);
    }
}

proof fn lemma_allocs_sum_le(total: int, ws: Seq<Option<u64>>, wsum: int)
    requires
        total >= 0,
        wsum > 0,
    ensures
        allocs_sum(total, ws, wsum) <= (total * present_sum(ws)) / wsum,
    decreases ws.len(),
{
    if ws.len() == 0 {
        assert(total * 0 == 0) by (nonlinear_arith);
    } else {
        let rest = ws.drop_first();
        lemma_allocs_sum_le(total, rest, wsum);
        lemma_present_sum_nonneg(rest);
        let w0 = opt_weight(ws[0]);
        let ps = present_sum(rest);
        assert(total * w0 >= 0) by (nonlinear_arith)
            requires
                total >= 0,
                w0 >= 0,
        ;
        assert(total * ps >= 0) by (nonlinear_arith)
            requires
                total >= 0,
                ps >= 0,
        ;
        // The first allocation is at most (total * w0) / wsum in both cases.
        assert(alloc_for(total, ws[0], wsum) <= (total * w0) / wsum);
        lemma_div_superadd(total * w0, total * ps, wsum);
        lemma_mul_is_distributive_add(total, w0, ps);
    }
}

/// The allocations for the present categories never exceed the total budget.
pub proof fn lemma_allocations_within_total(total: int, ws: Seq<Option<u64>>)
    requires
        total >= 0,
        present_sum(ws) > 0,
    ensures
        allocs_sum(total, ws, present_sum(ws)) <= total,
{
    let wsum = present_sum(ws);
    lemma_allocs_sum_le(total, ws, wsum);
    lemma_div_multiples_vanish(total, wsum);
    assert(total * wsum == wsum * total) by (nonlinear_arith);
}

/// Every present weight is at most the sum of the present weights.
proof fn lemma_weight_le_sum(ws: Seq<Option<u64>>, i: int)
    requires
        0 <= i < ws.len(),
    ensures
        opt_weight(ws[i]) <= present_sum(ws),
    decreases ws.len(),
{
    lemma_present_sum_nonneg(ws.drop_first());
    if i == 0 {
    } else {
        lemma_weight_le_sum(ws.drop_first(), i - 1);
    }
}

proof fn lemma_present_sum_skip_step(ws: Seq<Option<u64>>, i: int)
    requires
        0 <= i < ws.len(),
    ensures
        present_sum(ws.skip(i)) == opt_weight(ws[i]) + present_sum(ws.skip(i + 1)),
{
    assert(ws.skip(i)[0] == ws[i]);
    assert(ws.skip(i).drop_first() =~= ws.skip(i + 1));
}

/// Sums the present weights.
pub fn sum_present_weights(weights: &Vec<Option<u64>>) -> (wsum: u128)
    requires
        weights@.len() <= 0x1_0000_0000,
    ensures
        wsum as int == present_sum(weights@),
{
    let n = weights.len();
    let mut wsum: u128 = 0;
    let mut i: usize = 0;
    proof {
        assert(weights@.skip(0) =~= weights@);
    }
    while i < n
        invariant
            n == weights@.len() <= 0x1_0000_0000,
            i <= n,
            present_sum(weights@) == wsum as int + present_sum(weights@.skip(i as int)),
            wsum as int <= i as int * 0xFFFF_FFFF_FFFF_FFFF,
        decreases n - i,
    {
        proof {
            lemma_present_sum_skip_step(weights@, i as int);
            assert((i as int + 1) * 0xFFFF_FFFF_FFFF_FFFF == i as int * 0xFFFF_FFFF_FFFF_FFFF
                + 0xFFFF_FFFF_FFFF_FFFF) by (nonlinear_arith);
        }
        match weights[i] {
            Some(w) => {
                wsum = wsum + w as u128;
            },
            None => {},
        }
        i = i + 1;
    }
    proof {
        assert(weights@.skip(n as int) =~= Seq::<Option<u64>>::empty());
    }
    wsum
}

/// Computes the per-category budgets: `floor(total * weight / wsum)` for each
/// present category, zero for absent ones.  When no category is present every
/// budget is zero and the caller produces no report.
pub fn allocate_budgets(total: u64, weights: &Vec<Option<u64>>) -> (out: Vec<u64>)
    requires
        weights@.len() <= 0x1_0000_0000,
    ensures
        out@.len() == weights@.len(),
        present_sum(weights@) > 0 ==> forall|i: int|
            0 <= i < out@.len() ==> out@[i] as int == alloc_for(
                total as int,
                weights@[i],
                present_sum(weights@),
            ),
        present_sum(weights@) == 0 ==> forall|i: int| 0 <= i < out@.len() ==> out@[i] == 0u64,
{
    let wsum = sum_present_weights(weights);
    let n = weights.len();
    let mut out: Vec<u64> = Vec::new();
    let mut i: usize = 0;
    if wsum == 0 {
        while i < n
            invariant
                n == weights@.len(),
                i <= n,
                out@.len() == i,
                forall|j: int| 0 <= j < i ==> out@[j] == 0u64,
            decreases n - i,
        {
            out.push(0);
            i = i + 1;
        }
        return out;
    }
    proof {
        lemma_present_sum_nonneg(weights@);
    }
    while i < n
        invariant
            n == weights@.len(),
            i <= n,
            out@.len() == i,
            wsum as int == present_sum(weights@),
            wsum > 0,
            forall|j: int|
                0 <= j < i ==> out@[j] as int == alloc_for(
                    total as int,
                    weights@[j],
                    present_sum(weights@),
                ),
        decreases n - i,
    {
        match weights[i] {
            Some(w) => {
                proof {
                    assert(total as int * w as int <= 0xFFFF_FFFF_FFFF_FFFFint
                        * 0xFFFF_FFFF_FFFF_FFFFint) by (nonlinear_arith)
                        requires
                            0 <= total as int <= 0xFFFF_FFFF_FFFF_FFFFint,
                            0 <= w as int <= 0xFFFF_FFFF_FFFF_FFFFint,
                    ;
                }
                let prod: u128 = total as u128 * w as u128;
                let a: u128 = prod / wsum;
                proof {
                    lemma_weight_le_sum(weights@, i as int);
                    lemma_mul_inequality(w as int, wsum as int, total as int);
                    assert(w as int * total as int == total as int * w as int) by (nonlinear_arith);
                    assert(wsum as int * total as int == total as int * wsum as int)
                        by (nonlinear_arith);
                    lemma_div_is_ordered(
                        total as int * w as int,
                        total as int * wsum as int,
                        wsum as int,
                    );
                    lemma_div_multiples_vanish(total as int, wsum as int);
                    assert(a as int <= total as int);
                }
                out.push(a as u64);
            },
            None => {
                out.push(0);
            },
        }
        i = i + 1;
    }
    out
}

/// The number of characters of raw text a budget of `units` admits before
/// squeezing.
pub fn char_allowance(units: u64) -> (r: u64)
    requires
        units <= 0xFFFF_FFFF_FFFF_FFFFu64 / 3,
    ensures
        r as int == units as int * CHARS_PER_UNIT as int,
{
    units * CHARS_PER_UNIT
}

/// Truncates a text to its first `n` characters; shorter text is unchanged.
pub fn truncate_chars(s: &str, n: usize) -> (r: String)
    ensures
        r@ == s@.take(if n as int <= s@.len() {
            n as int
        } else {
            s@.len() as int
        }),
{
    let len = s.unicode_len();
    let end = if n <= len {
        n
    } else {
        len
    };
    let r = s.substring_char(0, end).to_owned();
    proof {
        assert(s@.subrange(0, end as int) =~= s@.take(end as int));
    }
    r
}

} // verus!
