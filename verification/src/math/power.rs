//! Powers of ten, as used to move prices and amounts between decimal exponents.
use vstd::prelude::*;

verus! {

/// `10^n`.
pub open spec fn pow10(n: nat) -> nat
    decreases n,
{
    if n == 0 {
        1
    } else {
        10 * pow10((n - 1) as nat)
    }
}

/// `10^n` grows with `n` and is never zero.
pub proof fn lemma_pow10_monotone(a: nat, b: nat)
    requires
        a <= b,
    ensures
        1 <= pow10(a) <= pow10(b),
    decreases b,
{
    if b == 0 {
    } else if a == b {
        lemma_pow10_monotone((b - 1) as nat, (b - 1) as nat);
    } else {
        lemma_pow10_monotone(a, (b - 1) as nat);
    }
}

/// `10^19` is the largest power of ten a `u64` holds.
pub proof fn lemma_pow10_19()
    ensures
        pow10(19) == 10_000_000_000_000_000_000,
        pow10(19) <= u64::MAX,
        pow10(20) > u64::MAX,
{
    reveal_with_fuel(pow10, 21);
}

/// `10^n` for `n <= 19` (a larger power does not fit a `u64`).
pub fn pow10_u64(n: u32) -> (r: u64)
    requires
        n <= 19,
    ensures
        r == pow10(n as nat),
{
    proof {
        lemma_pow10_19();
    }
    let mut r: u64 = 1;
    let mut i: u32 = 0;
    while i < n
        invariant
            i <= n <= 19,
            r == pow10(i as nat),
            pow10(19) <= u64::MAX,
        decreases n - i,
    {
        proof {
            lemma_pow10_monotone((i + 1) as nat, 19);
        }
        r = r * 10;
        i = i + 1;
    }
    r
}

} // verus!
