//! Checked arithmetic on the 192- and 256-bit integers: the operations that
//! make them usable with `SafeMath` and `CheckedCeilDiv`.
use vstd::prelude::*;
use vstd::arithmetic::div_mod::lemma_fundamental_div_mod_converse;
use vstd::arithmetic::power2::{lemma_pow2_adds, lemma_pow2_pos, pow2};
use crate::error::{ErrorCode, TYieldResult};
use crate::math::bn::{div_wide, lemma_two128, mul_u128_wide, two128, U192, U256};
use crate::math::ceil_div::CheckedCeilDiv;
use crate::math::int_spec::ceil_div_int;
use crate::math::safe_math::SafeMath;

verus! {

/// `2^256`, one past the largest 256-bit number.
pub open spec fn two256() -> nat {
    two128() * two128()
}

/// `2^192`, one past the largest 192-bit number.
pub open spec fn two192() -> nat {
    two128() * 0x1_0000_0000_0000_0000nat
}

/// Every 256-bit number is below `2^256`.
proof fn lemma_u256_bound(a: U256)
    ensures
        a.value() < two256(),
{
    assert(a.hi * two128() + a.lo < two128() * two128()) by (nonlinear_arith)
        requires
            a.hi < two128(),
            a.lo < two128(),
    ;
}

impl U256 {
    /// Whether this number is at most `other`.
    pub fn is_at_most(&self, other: &U256) -> (r: bool)
        ensures
            r == (self.value() <= other.value()),
    {
        proof {
            assert(self.value() <= other.value() <==> (self.hi < other.hi || (self.hi == other.hi
                && self.lo <= other.lo))) by (nonlinear_arith)
                requires
                    self.lo < two128(),
                    other.lo < two128(),
                    self.value() == self.hi * two128() + self.lo,
                    other.value() == other.hi * two128() + other.lo,
            ;
        }
        self.hi < other.hi || (self.hi == other.hi && self.lo <= other.lo)
    }

    /// The difference, or `None` below zero.
    pub fn checked_sub(self, other: U256) -> (r: Option<U256>)
        ensures
            match r {
                Some(d) => d.value() == self.value() - other.value(),
                None => self.value() < other.value(),
            },
    {
        if !other.is_at_most(&self) {
            return None;
        }
        if self.lo >= other.lo {
            let r = U256 { lo: self.lo - other.lo, hi: self.hi - other.hi };
            assert(r.value() == self.value() - other.value()) by (nonlinear_arith)
                requires
                    r.lo == self.lo - other.lo,
                    r.hi == self.hi - other.hi,
                    r.value() == r.hi * two128() + r.lo,
                    self.value() == self.hi * two128() + self.lo,
                    other.value() == other.hi * two128() + other.lo,
            ;
            Some(r)
        } else {
            assert(self.hi > other.hi) by (nonlinear_arith)
                requires
                    self.lo < other.lo,
                    other.lo < two128(),
                    other.hi * two128() + other.lo <= self.hi * two128() + self.lo,
            ;
            let r = U256 { lo: self.lo + (u128::MAX - other.lo) + 1, hi: self.hi - other.hi - 1 };
            assert(r.value() == self.value() - other.value()) by (nonlinear_arith)
                requires
                    r.lo == self.lo + two128() - other.lo,
                    r.hi == self.hi - other.hi - 1,
                    r.value() == r.hi * two128() + r.lo,
                    self.value() == self.hi * two128() + self.lo,
                    other.value() == other.hi * two128() + other.lo,
            ;
            Some(r)
        }
    }

    /// The product, or `None` past 256 bits.
    pub fn checked_mul(self, other: U256) -> (r: Option<U256>)
        ensures
            match r {
                Some(p) => p.value() == self.value() * other.value(),
                None => self.value() * other.value() >= two256(),
            },
    {
        if self.hi != 0 && other.hi != 0 {
            assert(self.value() * other.value() >= two256()) by (nonlinear_arith)
                requires
                    self.hi >= 1,
                    other.hi >= 1,
                    self.value() == self.hi * two128() + self.lo,
                    other.value() == other.hi * two128() + other.lo,
                    self.lo >= 0,
                    other.lo >= 0,
            ;
            return None;
        }
        let (small, big) = if self.hi == 0 {
            (self.lo, other)
        } else {
            (other.lo, self)
        };
        assert(small * big.value() == self.value() * other.value()) by (nonlinear_arith)
            requires
                (self.hi == 0 && small == self.lo && big == other) || (other.hi == 0 && small
                    == other.lo && big == self),
                self.value() == self.hi * two128() + self.lo,
                other.value() == other.hi * two128() + other.lo,
        ;
        let low = mul_u128_wide(small, big.lo);
        let high = mul_u128_wide(small, big.hi);
        assert(small * big.value() == high.value() * two128() + low.value()) by (nonlinear_arith)
            requires
                low.value() == small * big.lo,
                high.value() == small * big.hi,
                big.value() == big.hi * two128() + big.lo,
        ;
        if high.hi != 0 {
            assert(high.value() * two128() + low.value() >= two256()) by (nonlinear_arith)
                requires
                    high.hi >= 1,
                    high.value() == high.hi * two128() + high.lo,
                    high.lo >= 0,
                    low.value() >= 0,
            ;
            return None;
        }
        if low.hi > u128::MAX - high.lo {
            assert(high.value() * two128() + low.value() >= two256()) by (nonlinear_arith)
                requires
                    low.hi + high.lo >= two128(),
                    high.value() == high.lo,
                    low.value() == low.hi * two128() + low.lo,
                    low.lo >= 0,
            ;
            return None;
        }
        let r = U256 { lo: low.lo, hi: low.hi + high.lo };
        assert(r.value() == high.value() * two128() + low.value()) by (nonlinear_arith)
            requires
                r.lo == low.lo,
                r.hi == low.hi + high.lo,
                r.value() == r.hi * two128() + r.lo,
                high.value() == high.lo,
                low.value() == low.hi * two128() + low.lo,
        ;
        Some(r)
    }

    /// The quotient and remainder of a division by a number below `2^128`.
    fn div_rem_small(self, d: u128) -> (r: (U256, U256))
        requires
            d > 0,
        ensures
            r.0.value() == (self.value() as int) / (d as int),
            r.1.value() == (self.value() as int) % (d as int),
    {
        let q_hi = self.hi / d;
        let r1 = self.hi % d;
        let q_lo = div_wide(r1, self.lo, d);
        proof {
            lemma_two128();
        }
        let prod = mul_u128_wide(q_lo, d);
        let top = U256 { lo: self.lo, hi: r1 };
        let ghost low_part: int = r1 * two128() + self.lo;
        assert(top.value() == low_part);
        proof {
            vstd::arithmetic::div_mod::lemma_fundamental_div_mod(low_part, d as int);
            vstd::arithmetic::div_mod::lemma_mod_pos_bound(low_part, d as int);
            vstd::arithmetic::div_mod::lemma_fundamental_div_mod(self.hi as int, d as int);
        }
        assert(prod.value() <= top.value()) by (nonlinear_arith)
            requires
                prod.value() == q_lo * d,
                q_lo == low_part / (d as int),
                low_part == (d as int) * (low_part / (d as int)) + low_part % (d as int),
                low_part % (d as int) >= 0,
                top.value() == low_part,
        ;
        let rem = match top.checked_sub(prod) {
            Some(v) => v,
            None => {
                proof {
                    assert(false);
                }
                U256 { lo: 0, hi: 0 }
            },
        };
        let q = U256 { lo: q_lo, hi: q_hi };
        proof {
            assert(rem.value() == low_part % (d as int)) by (nonlinear_arith)
                requires
                    rem.value() == low_part - q_lo * d,
                    q_lo == low_part / (d as int),
                    low_part == (d as int) * (low_part / (d as int)) + low_part % (d as int),
            ;
            assert(self.value() == q.value() * d + rem.value()) by (nonlinear_arith)
                requires
                    self.value() == self.hi * two128() + self.lo,
                    self.hi == (d as int) * q_hi + r1,
                    low_part == r1 * two128() + self.lo,
                    rem.value() == low_part - q_lo * d,
                    q.value() == q_hi * two128() + q_lo,
            ;
            lemma_fundamental_div_mod_converse(self.value() as int, d as int, q.value() as int, rem.value() as int);
        }
        (q, rem)
    }

    /// The quotient and remainder of a division by a number of at least
    /// `2^128`: the quotient fits 128 bits and is found one bit at a time,
    /// from the top, keeping each bit whose product stays at most `self`.
    fn div_rem_large(self, d: U256) -> (r: (U256, U256))
        requires
            d.hi > 0,
        ensures
            r.0.value() == (self.value() as int) / (d.value() as int),
            r.1.value() == (self.value() as int) % (d.value() as int),
    {
        proof {
            lemma_two128();
            lemma_u256_bound(self);
            assert(self.value() < two128() * d.value()) by (nonlinear_arith)
                requires
                    self.value() < two128() * two128(),
                    d.value() == d.hi * two128() + d.lo,
                    d.hi >= 1,
                    d.lo >= 0,
            ;
            lemma_pow2_adds(127, 1);
            vstd::arithmetic::power2::lemma2_to64();
        }
        let mut q: u128 = 0;
        let mut bit: u128 = 0x8000_0000_0000_0000_0000_0000_0000_0000;
        let mut i: u32 = 128;
        proof {
            assert(bit == pow2(127)) by {
                lemma_pow2_adds(63, 64);
                vstd::arithmetic::power2::lemma2_to64_rest();
            }
        }
        while i > 0
            invariant
                i <= 128,
                i > 0 ==> bit == pow2((i - 1) as nat),
                pow2(128) == two128(),
                q * d.value() <= self.value(),
                self.value() < (q + pow2(i as nat)) * d.value(),
                q + pow2(i as nat) <= two128(),
            decreases i,
        {
            proof {
                lemma_pow2_adds((i - 1) as nat, 1);
                vstd::arithmetic::power2::lemma2_to64();
                lemma_pow2_pos((i - 1) as nat);
            }
            let c = q + bit;
            let fits = match U256::from_u128(c).checked_mul(d) {
                Some(p) => p.is_at_most(&self),
                None => {
                    proof {
                        lemma_u256_bound(self);
                    }
                    false
                },
            };
            let ghost q0 = q;
            if fits {
                q = c;
            }
            proof {
                if !fits {
                    lemma_u256_bound(self);
                }
                assert(self.value() < (q + pow2((i - 1) as nat)) * d.value()) by (nonlinear_arith)
                    requires
                        fits ==> q == q0 + pow2((i - 1) as nat),
                        !fits ==> q == q0,
                        !fits ==> self.value() < (q0 + pow2((i - 1) as nat)) * d.value(),
                        self.value() < (q0 + pow2(i as nat)) * d.value(),
                        pow2(i as nat) == pow2((i - 1) as nat) * 2,
                ;
            }
            if i > 1 {
                proof {
                    lemma_pow2_adds((i - 2) as nat, 1);
                }
                bit = bit / 2;
            }
            i = i - 1;
        }
        proof {
            assert(pow2(0) == 1) by {
                vstd::arithmetic::power2::lemma2_to64();
            }
        }
        let prod = match U256::from_u128(q).checked_mul(d) {
            Some(p) => p,
            None => {
                proof {
                    lemma_u256_bound(self);
                }
                U256 { lo: 0, hi: 0 }
            },
        };
        let rem = match self.checked_sub(prod) {
            Some(v) => v,
            None => U256 { lo: 0, hi: 0 },
        };
        proof {
            assert(rem.value() < d.value()) by (nonlinear_arith)
                requires
                    self.value() < (q + 1) * d.value(),
                    rem.value() == self.value() - prod.value(),
                    prod.value() == q * d.value(),
            ;
            lemma_fundamental_div_mod_converse(self.value() as int, d.value() as int, q as int, rem.value() as int);
        }
        (U256::from_u128(q), rem)
    }
    /// The quotient and remainder; `d` must not be zero.
    fn div_rem(self, d: U256) -> (r: (U256, U256))
        requires
            d.value() > 0,
        ensures
            r.0.value() == (self.value() as int) / (d.value() as int),
            r.1.value() == (self.value() as int) % (d.value() as int),
    {
        if d.hi == 0 {
            self.div_rem_small(d.lo)
        } else {
            self.div_rem_large(d)
        }
    }

    /// The quotient rounded down, or `None` when dividing by zero.
    pub fn checked_div(self, other: U256) -> (r: Option<U256>)
        ensures
            match r {
                Some(q) => other.value() > 0 && q.value() == (self.value() as int) / (
                other.value() as int),
                None => other.value() == 0,
            },
    {
        if other.hi == 0 && other.lo == 0 {
            return None;
        }
        Some(self.div_rem(other).0)
    }

    /// The remainder, or `None` when dividing by zero.
    pub fn checked_rem(self, other: U256) -> (r: Option<U256>)
        ensures
            match r {
                Some(m) => other.value() > 0 && m.value() == (self.value() as int) % (
                other.value() as int),
                None => other.value() == 0,
            },
    {
        if other.hi == 0 && other.lo == 0 {
            return None;
        }
        Some(self.div_rem(other).1)
    }
}

impl CheckedCeilDiv for U256 {
    fn checked_ceil_div(&self, rhs: U256) -> (r: Option<U256>)
        ensures
            match r {
                Some(q) => rhs.value() > 0 && q.value() == ceil_div_int(
                    self.value() as int,
                    rhs.value() as int,
                ),
                None => rhs.value() == 0,
            },
    {
        let quotient = self.checked_div(rhs)?;
        let remainder = self.checked_rem(rhs)?;
        proof {
            crate::math::int_spec::lemma_unsigned_rounding(self.value() as int, rhs.value() as int);
            vstd::arithmetic::div_mod::lemma_fundamental_div_mod(self.value() as int, rhs.value() as int);
            lemma_u256_bound(*self);
        }
        if remainder.hi != 0 || remainder.lo != 0 {
            match quotient.checked_add(U256 { lo: 1, hi: 0 }) {
                Some(q) => Some(q),
                None => {
                    proof {
                        assert(quotient.value() < two256() - 1) by (nonlinear_arith)
                            requires
                                quotient.value() == (self.value() as int) / (rhs.value() as int),
                                rhs.value() >= 1,
                                self.value() < two256(),
                                remainder.value() > 0,
                                self.value() == rhs.value() * quotient.value() + remainder.value(),
                        ;
                    }
                    None
                },
            }
        } else {
            Some(quotient)
        }
    }
}


impl SafeMath for U256 {
    fn safe_add(self, v: U256) -> (r: TYieldResult<U256>)
        ensures
            match r {
                Ok(s) => s.value() == self.value() + v.value(),
                Err(e) => e == ErrorCode::MathError && self.value() + v.value() >= two256(),
            },
    {
        match self.checked_add(v) {
            Some(result) => Ok(result),
            None => Err(ErrorCode::MathError),
        }
    }

    fn safe_sub(self, v: U256) -> (r: TYieldResult<U256>)
        ensures
            match r {
                Ok(d) => d.value() == self.value() - v.value(),
                Err(e) => e == ErrorCode::MathError && self.value() < v.value(),
            },
    {
        match self.checked_sub(v) {
            Some(result) => Ok(result),
            None => Err(ErrorCode::MathError),
        }
    }

    fn safe_mul(self, v: U256) -> (r: TYieldResult<U256>)
        ensures
            match r {
                Ok(p) => p.value() == self.value() * v.value(),
                Err(e) => e == ErrorCode::MathError && self.value() * v.value() >= two256(),
            },
    {
        match self.checked_mul(v) {
            Some(result) => Ok(result),
            None => Err(ErrorCode::MathError),
        }
    }

    fn safe_div(self, v: U256) -> (r: TYieldResult<U256>)
        ensures
            match r {
                Ok(q) => v.value() > 0 && q.value() == (self.value() as int) / (v.value() as int),
                Err(e) => e == ErrorCode::MathError && v.value() == 0,
            },
    {
        match self.checked_div(v) {
            Some(result) => Ok(result),
            None => Err(ErrorCode::MathError),
        }
    }

    fn safe_div_ceil(self, v: U256) -> (r: TYieldResult<U256>)
        ensures
            match r {
                Ok(q) => v.value() > 0 && q.value() == ceil_div_int(
                    self.value() as int,
                    v.value() as int,
                ),
                Err(e) => e == ErrorCode::MathError && v.value() == 0,
            },
    {
        match self.checked_ceil_div(v) {
            Some(result) => Ok(result),
            None => Err(ErrorCode::MathError),
        }
    }
}

impl U192 {
    /// The same number in 256 bits.
    pub fn widen(self) -> (r: U256)
        ensures
            r.value() == self.value(),
    {
        U256 { lo: self.lo, hi: self.hi as u128 }
    }

    /// The same number in 192 bits, when it fits.
    pub fn narrow(v: U256) -> (r: Option<U192>)
        ensures
            match r {
                Some(n) => n.value() == v.value(),
                None => v.value() >= two192(),
            },
    {
        if v.hi <= u64::MAX as u128 {
            Some(U192 { lo: v.lo, hi: v.hi as u64 })
        } else {
            assert(v.value() >= two192()) by (nonlinear_arith)
                requires
                    v.hi >= 0x1_0000_0000_0000_0000nat,
                    v.value() == v.hi * two128() + v.lo,
                    v.lo >= 0,
            ;
            None
        }
    }

    /// The sum, or `None` past 192 bits.
    pub fn checked_add(self, other: U192) -> (r: Option<U192>)
        ensures
            match r {
                Some(s) => s.value() == self.value() + other.value(),
                None => self.value() + other.value() >= two192(),
            },
    {
        proof {
            lemma_two128();
        }
        match self.widen().checked_add(other.widen()) {
            Some(s) => U192::narrow(s),
            None => None,
        }
    }

    /// The difference, or `None` below zero.
    pub fn checked_sub(self, other: U192) -> (r: Option<U192>)
        ensures
            match r {
                Some(d) => d.value() == self.value() - other.value(),
                None => self.value() < other.value(),
            },
    {
        match self.widen().checked_sub(other.widen()) {
            Some(d) => {
                let r = U192::narrow(d);
                proof {
                    if r is None {
                        lemma_u192_bound(self);
                    }
                }
                r
            },
            None => None,
        }
    }

    /// The product, or `None` past 192 bits.
    pub fn checked_mul(self, other: U192) -> (r: Option<U192>)
        ensures
            match r {
                Some(p) => p.value() == self.value() * other.value(),
                None => self.value() * other.value() >= two192(),
            },
    {
        proof {
            lemma_two128();
        }
        match self.widen().checked_mul(other.widen()) {
            Some(p) => U192::narrow(p),
            None => None,
        }
    }

    /// The quotient rounded down, or `None` when dividing by zero.
    pub fn checked_div(self, other: U192) -> (r: Option<U192>)
        ensures
            match r {
                Some(q) => other.value() > 0 && q.value() == (self.value() as int) / (
                other.value() as int),
                None => other.value() == 0,
            },
    {
        match self.widen().checked_div(other.widen()) {
            Some(q) => {
                let r = U192::narrow(q);
                proof {
                    if r is None {
                        lemma_u192_bound(self);
                        vstd::arithmetic::div_mod::lemma_div_is_ordered_by_denominator(
                            self.value() as int,
                            1,
                            other.value() as int,
                        );
                        vstd::arithmetic::div_mod::lemma_div_basics(self.value() as int);
                    }
                }
                r
            },
            None => None,
        }
    }

    /// The remainder, or `None` when dividing by zero.
    pub fn checked_rem(self, other: U192) -> (r: Option<U192>)
        ensures
            match r {
                Some(m) => other.value() > 0 && m.value() == (self.value() as int) % (
                other.value() as int),
                None => other.value() == 0,
            },
    {
        match self.widen().checked_rem(other.widen()) {
            Some(m) => {
                let r = U192::narrow(m);
                proof {
                    if r is None {
                        lemma_u192_bound(other);
                        vstd::arithmetic::div_mod::lemma_mod_pos_bound(
                            self.value() as int,
                            other.value() as int,
                        );
                    }
                }
                r
            },
            None => None,
        }
    }
}

/// Every 192-bit number is below `2^192`.
proof fn lemma_u192_bound(a: U192)
    ensures
        a.value() < two192(),
{
    assert(a.hi * two128() + a.lo < two128() * 0x1_0000_0000_0000_0000nat) by (nonlinear_arith)
        requires
            a.hi < 0x1_0000_0000_0000_0000nat,
            a.lo < two128(),
    ;
}

impl CheckedCeilDiv for U192 {
    fn checked_ceil_div(&self, rhs: U192) -> (r: Option<U192>)
        ensures
            match r {
                Some(q) => rhs.value() > 0 && q.value() == ceil_div_int(
                    self.value() as int,
                    rhs.value() as int,
                ),
                None => rhs.value() == 0,
            },
    {
        match self.widen().checked_ceil_div(rhs.widen()) {
            Some(q) => {
                let r = U192::narrow(q);
                proof {
                    if r is None {
                        lemma_u192_bound(*self);
                        crate::math::int_spec::lemma_unsigned_rounding(
                            self.value() as int,
                            rhs.value() as int,
                        );
                    }
                }
                r
            },
            None => None,
        }
    }
}

impl SafeMath for U192 {
    fn safe_add(self, v: U192) -> (r: TYieldResult<U192>)
        ensures
            match r {
                Ok(s) => s.value() == self.value() + v.value(),
                Err(e) => e == ErrorCode::MathError && self.value() + v.value() >= two192(),
            },
    {
        match self.checked_add(v) {
            Some(result) => Ok(result),
            None => Err(ErrorCode::MathError),
        }
    }

    fn safe_sub(self, v: U192) -> (r: TYieldResult<U192>)
        ensures
            match r {
                Ok(d) => d.value() == self.value() - v.value(),
                Err(e) => e == ErrorCode::MathError && self.value() < v.value(),
            },
    {
        match self.checked_sub(v) {
            Some(result) => Ok(result),
            None => Err(ErrorCode::MathError),
        }
    }

    fn safe_mul(self, v: U192) -> (r: TYieldResult<U192>)
        ensures
            match r {
                Ok(p) => p.value() == self.value() * v.value(),
                Err(e) => e == ErrorCode::MathError && self.value() * v.value() >= two192(),
            },
    {
        match self.checked_mul(v) {
            Some(result) => Ok(result),
            None => Err(ErrorCode::MathError),
        }
    }

    fn safe_div(self, v: U192) -> (r: TYieldResult<U192>)
        ensures
            match r {
                Ok(q) => v.value() > 0 && q.value() == (self.value() as int) / (v.value() as int),
                Err(e) => e == ErrorCode::MathError && v.value() == 0,
            },
    {
        match self.checked_div(v) {
            Some(result) => Ok(result),
            None => Err(ErrorCode::MathError),
        }
    }

    fn safe_div_ceil(self, v: U192) -> (r: TYieldResult<U192>)
        ensures
            match r {
                Ok(q) => v.value() > 0 && q.value() == ceil_div_int(
                    self.value() as int,
                    v.value() as int,
                ),
                Err(e) => e == ErrorCode::MathError && v.value() == 0,
            },
    {
        match self.checked_ceil_div(v) {
            Some(result) => Ok(result),
            None => Err(ErrorCode::MathError),
        }
    }
}

} // verus!
