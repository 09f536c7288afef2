//! The growth function that seeds the pool allocator's forward data cursor.

use vstd::prelude::*;

verus! {

/// What `calc` returns: the sum of the doubling bases at the odd steps
/// (349504) plus one copy of `i` for each of the seven odd steps.
pub open spec fn calc_spec(i: int) -> int {
    349504 + 7 * i
}

/// `pow2(n)` is two to the `n`-th power.
pub open spec fn pow2(n: nat) -> nat
    decreases n,
{
    if n == 0 {
        1
    } else {
        2 * pow2((n - 1) as nat)
    }
}

/// The sum accumulated by the first `x` steps of `calc`'s schedule: step `k`
/// carries the base `32 * pow2(k)` and contributes `base + i` when `k` is
/// odd, nothing otherwise.
pub open spec fn calc_partial(x: nat, i: int) -> int
    decreases x,
{
    if x == 0 {
        0
    } else {
        calc_partial((x - 1) as nat, i) + if (x - 1) % 2 == 1 {
            32 * pow2((x - 1) as nat) + i
        } else {
            0
        }
    }
}

proof fn lemma_pow2_mono(a: nat, b: nat)
    requires
        a <= b,
    ensures
        pow2(a) <= pow2(b),
    decreases b,
{
    if a < b {
        lemma_pow2_mono(a, (b - 1) as nat);
    }
}

proof fn lemma_calc_partial_mono(x: nat, y: nat, i: int)
    requires
        x <= y,
        i >= 0,
    ensures
        calc_partial(x, i) <= calc_partial(y, i),
    decreases y,
{
    if x < y {
        lemma_calc_partial_mono(x, (y - 1) as nat, i);
    }
}

/// Fifteen steps of the schedule add up to the closed form.
proof fn lemma_calc_partial_full(i: int)
    ensures
        calc_partial(15, i) == calc_spec(i),
{
    reveal_with_fuel(pow2, 16);
    reveal_with_fuel(calc_partial, 16);
}

/// Maps a generation index to the byte offset that seeds the forward data
/// cursor: starting from a base of 32 and doubling it through fifteen steps,
/// every step with an odd index contributes `base + i` to the sum.
pub fn calc(i: usize) -> (r: usize)
    requires
        calc_spec(i as int) <= usize::MAX,
    ensures
        r == calc_spec(i as int),
{
    let mut sum: usize = 0;
    let mut base: usize = 32;
    let mut x: usize = 0;
    while x <= 14
        invariant
            x <= 15,
            sum == calc_partial(x as nat, i as int),
            base == 32 * pow2(x as nat),
            calc_spec(i as int) <= usize::MAX,
        decreases 15 - x,
    {
        if x % 2 == 1 {
            proof {
                lemma_calc_partial_mono((x + 1) as nat, 15, i as int);
                lemma_calc_partial_full(i as int);
            }
            sum = sum + base;
            sum = sum + i;
        }
        proof {
            lemma_pow2_mono(x as nat, 14);
            reveal_with_fuel(pow2, 15);
        }
        base = base * 2;
        x = x + 1;
    }
    proof {
        lemma_calc_partial_full(i as int);
    }
    sum
}

} // verus!
