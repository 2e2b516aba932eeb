//! Unsigned integers of 192 and 256 bits, their conversions to machine
//! integers and little-endian bytes, and the 128-bit multiply-then-divide the
//! proportional helpers rely on.
use vstd::prelude::*;
use vstd::arithmetic::div_mod::{lemma_div_denominator, lemma_fundamental_div_mod};
use vstd::arithmetic::power2::{lemma_pow2_adds, lemma_pow2_pos, pow2, lemma2_to64, lemma2_to64_rest};
use crate::error::{ErrorCode, TYieldResult};

verus! {

/// The number little-endian bytes stand for: the first byte is the lowest.
pub open spec fn le_value(bytes: Seq<u8>) -> nat
    decreases bytes.len(),
{
    if bytes.len() == 0 {
        0
    } else {
        bytes[0] as nat + 256 * le_value(bytes.drop_first())
    }
}

/// A 256-bit unsigned integer, `hi * 2^128 + lo`.
#[derive(Clone, Copy, PartialEq, Eq, Structural, Debug)]
pub struct U256 {
    pub lo: u128,
    pub hi: u128,
}

/// A 192-bit unsigned integer, `hi * 2^128 + lo`.
#[derive(Clone, Copy, PartialEq, Eq, Structural, Debug)]
pub struct U192 {
    pub lo: u128,
    pub hi: u64,
}

/// `2^128`.
pub open spec fn two128() -> nat {
    0x1_0000_0000_0000_0000_0000_0000_0000_0000nat
}

impl U256 {
    /// The number.
    pub open spec fn value(self) -> nat {
        (self.hi * two128() + self.lo) as nat
    }

    /// The number, from a `u128`.
    pub fn from_u128(v: u128) -> (r: U256)
        ensures
            r.value() == v,
    {
        U256 { lo: v, hi: 0 }
    }

    /// The sum, or `None` past 256 bits.
    pub fn checked_add(self, other: U256) -> (r: Option<U256>)
        ensures
            match r {
                Some(s) => s.value() == self.value() + other.value(),
                None => self.value() + other.value() >= two128() * two128(),
            },
    {
        let (lo, carry) = if self.lo <= u128::MAX - other.lo {
            (self.lo + other.lo, 0u128)
        } else {
            (self.lo - (u128::MAX - other.lo) - 1, 1u128)
        };
        if self.hi > u128::MAX - other.hi || self.hi + other.hi > u128::MAX - carry {
            proof {
                assert(self.value() + other.value() >= two128() * two128()) by (nonlinear_arith)
                    requires
                        self.hi + other.hi + carry >= two128(),
                        self.lo + other.lo == lo + carry * two128(),
                        lo >= 0,
                        self.value() == self.hi * two128() + self.lo,
                        other.value() == other.hi * two128() + other.lo,
                ;
            }
            return None;
        }
        let r = U256 { lo, hi: self.hi + other.hi + carry };
        assert(r.value() == self.value() + other.value()) by (nonlinear_arith)
            requires
                self.lo + other.lo == lo + carry * two128(),
                r.hi == self.hi + other.hi + carry,
                r.value() == r.hi * two128() + r.lo,
                r.lo == lo,
                self.value() == self.hi * two128() + self.lo,
                other.value() == other.hi * two128() + other.lo,
        ;
        Some(r)
    }

    /// The number as a `u64`, when it fits.
    pub fn to_u64(self) -> (r: Option<u64>)
        ensures
            r == (if self.value() <= u64::MAX {
                Some(self.value() as u64)
            } else {
                None::<u64>
            }),
    {
        match self.try_to_u64() {
            Ok(v) => Some(v),
            Err(_) => None,
        }
    }

    /// The number as a `u64`; `BnConversionError` when it does not fit.
    pub fn try_to_u64(self) -> (r: TYieldResult<u64>)
        ensures
            r == (if self.value() <= u64::MAX {
                Ok(self.value() as u64)
            } else {
                Err::<u64, ErrorCode>(ErrorCode::BnConversionError)
            }),
    {
        if self.hi == 0 && self.lo <= u64::MAX as u128 {
            Ok(self.lo as u64)
        } else {
            Err(ErrorCode::BnConversionError)
        }
    }

    /// The number as a `u128`, when it fits.
    pub fn to_u128(self) -> (r: Option<u128>)
        ensures
            r == (if self.value() <= u128::MAX {
                Some(self.value() as u128)
            } else {
                None::<u128>
            }),
    {
        match self.try_to_u128() {
            Ok(v) => Some(v),
            Err(_) => None,
        }
    }

    /// The number as a `u128`; `BnConversionError` when it does not fit.
    pub fn try_to_u128(self) -> (r: TYieldResult<u128>)
        ensures
            r == (if self.value() <= u128::MAX {
                Ok(self.value() as u128)
            } else {
                Err::<u128, ErrorCode>(ErrorCode::BnConversionError)
            }),
    {
        if self.hi == 0 {
            Ok(self.lo)
        } else {
            Err(ErrorCode::BnConversionError)
        }
    }

    /// The number 32 little-endian bytes stand for.
    pub fn from_le_bytes(bytes: [u8; 32]) -> (r: Self)
        ensures
            r.value() == le_value(bytes@),
    {
        let lo = le_u128(&bytes, 0);
        let hi = le_u128(&bytes, 16);
        proof {
            lemma_le_value_split(bytes@, 16);
            assert(bytes@.subrange(0, 16) =~= bytes@.subrange(0, 16));
            assert(bytes@.subrange(16, 32) =~= bytes@.subrange(16, 32));
            assert(bytes@.subrange(16, 32) =~= bytes@.skip(16));
            assert(bytes@.take(16) =~= bytes@.subrange(0, 16));
            assert(pow2(128) == two128()) by {
                lemma_two128();
            }
            assert(le_value(bytes@) == lo + two128() * hi);
            assert(le_value(bytes@) == hi * two128() + lo) by (nonlinear_arith)
                requires
                    le_value(bytes@) == lo + two128() * hi,
            ;
        }
        U256 { lo, hi }
    }

    /// The 32 little-endian bytes of the number.
    pub fn to_le_bytes(self) -> (r: [u8; 32])
        ensures
            le_value(r@) == self.value(),
    {
        let mut bytes = [0u8; 32];
        write_le_u128(&mut bytes, 0, self.lo);
        let ghost after_lo = bytes@;
        write_le_u128(&mut bytes, 16, self.hi);
        proof {
            assert(bytes@.subrange(0, 16) =~= after_lo.subrange(0, 16));
            lemma_le_value_split(bytes@, 16);
            assert(bytes@.skip(16) =~= bytes@.subrange(16, 32));
            assert(bytes@.take(16) =~= bytes@.subrange(0, 16));
            lemma_two128();
            assert(le_value(bytes@) == self.lo + pow2(128) * self.hi);
            assert(le_value(bytes@) == self.hi * two128() + self.lo) by (nonlinear_arith)
                requires
                    le_value(bytes@) == self.lo + pow2(128) * self.hi,
                    pow2(128) == two128(),
            ;
        }
        bytes
    }
}

impl U192 {
    /// The number.
    pub open spec fn value(self) -> nat {
        (self.hi * two128() + self.lo) as nat
    }

    /// The number, from a `u128`.
    pub fn from_u128(v: u128) -> (r: U192)
        ensures
            r.value() == v,
    {
        U192 { lo: v, hi: 0 }
    }

    /// The number as a `u64`, when it fits.
    pub fn to_u64(self) -> (r: Option<u64>)
        ensures
            r == (if self.value() <= u64::MAX {
                Some(self.value() as u64)
            } else {
                None::<u64>
            }),
    {
        match self.try_to_u64() {
            Ok(v) => Some(v),
            Err(_) => None,
        }
    }

    /// The number as a `u64`; `BnConversionError` when it does not fit.
    pub fn try_to_u64(self) -> (r: TYieldResult<u64>)
        ensures
            r == (if self.value() <= u64::MAX {
                Ok(self.value() as u64)
            } else {
                Err::<u64, ErrorCode>(ErrorCode::BnConversionError)
            }),
    {
        if self.hi == 0 && self.lo <= u64::MAX as u128 {
            Ok(self.lo as u64)
        } else {
            Err(ErrorCode::BnConversionError)
        }
    }

    /// The number as a `u128`, when it fits.
    pub fn to_u128(self) -> (r: Option<u128>)
        ensures
            r == (if self.value() <= u128::MAX {
                Some(self.value() as u128)
            } else {
                None::<u128>
            }),
    {
        match self.try_to_u128() {
            Ok(v) => Some(v),
            Err(_) => None,
        }
    }

    /// The number as a `u128`; `BnConversionError` when it does not fit.
    pub fn try_to_u128(self) -> (r: TYieldResult<u128>)
        ensures
            r == (if self.value() <= u128::MAX {
                Ok(self.value() as u128)
            } else {
                Err::<u128, ErrorCode>(ErrorCode::BnConversionError)
            }),
    {
        if self.hi == 0 {
            Ok(self.lo)
        } else {
            Err(ErrorCode::BnConversionError)
        }
    }

    /// The number 24 little-endian bytes stand for.
    pub fn from_le_bytes(bytes: [u8; 24]) -> (r: Self)
        ensures
            r.value() == le_value(bytes@),
    {
        let mut wide = [0u8; 32];
        let mut i: usize = 0;
        while i < 24
            invariant
                i <= 24,
                forall|j: int| 0 <= j < i ==> wide@[j] == bytes@[j],
                forall|j: int| 24 <= j < 32 ==> wide@[j] == 0,
            decreases 24 - i,
        {
            wide[i] = bytes[i];
            i = i + 1;
        }
        let lo = le_u128(&wide, 0);
        let hi = le_u128(&wide, 16);
        proof {
            lemma_le_value_split(wide@, 16);
            lemma_le_value_split(wide@.skip(16), 8);
            lemma_le_value_split(bytes@, 16);
            assert(wide@.take(16) =~= bytes@.take(16));
            assert(wide@.skip(16).take(8) =~= bytes@.skip(16));
            lemma_le_value_zeros(wide@.skip(16).skip(8));
            assert(wide@.subrange(0, 16) =~= wide@.take(16));
            assert(wide@.subrange(16, 32) =~= wide@.skip(16));
            lemma_two128();
            lemma_le_value_bound(wide@.skip(16).take(8));
            lemma2_to64();
            let z = le_value(wide@.skip(16).skip(8));
            assert(z == 0);
            assert(hi == le_value(bytes@.skip(16)) + pow2(64) * z);
            assert(hi == le_value(bytes@.skip(16))) by (nonlinear_arith)
                requires
                    hi == le_value(bytes@.skip(16)) + pow2(64) * z,
                    z == 0,
            ;
            assert(hi < pow2(64));
            assert(le_value(bytes@) == lo + pow2(128) * hi);
            assert(le_value(bytes@) == hi * two128() + lo) by (nonlinear_arith)
                requires
                    le_value(bytes@) == lo + pow2(128) * hi,
                    pow2(128) == two128(),
            ;
        }
        U192 { lo, hi: hi as u64 }
    }

    /// The 24 little-endian bytes of the number.
    pub fn to_le_bytes(self) -> (r: [u8; 24])
        ensures
            le_value(r@) == self.value(),
    {
        let mut wide = [0u8; 32];
        write_le_u128(&mut wide, 0, self.lo);
        let ghost after_lo = wide@;
        write_le_u128(&mut wide, 16, self.hi as u128);
        assert(wide@.subrange(0, 16) =~= after_lo.subrange(0, 16));
        let mut out = [0u8; 24];
        let mut i: usize = 0;
        while i < 24
            invariant
                i <= 24,
                forall|j: int| 0 <= j < i ==> out@[j] == wide@[j],
            decreases 24 - i,
        {
            out[i] = wide[i];
            i = i + 1;
        }
        proof {
            lemma_le_value_split(wide@, 16);
            lemma_le_value_split(wide@.skip(16), 8);
            lemma_le_value_split(out@, 16);
            assert(wide@.take(16) =~= out@.take(16));
            assert(wide@.skip(16).take(8) =~= out@.skip(16));
            assert(wide@.subrange(0, 16) =~= wide@.take(16));
            assert(wide@.subrange(16, 32) =~= wide@.skip(16));
            lemma_two128();
            lemma_le_value_bound(wide@.skip(16).take(8));
            lemma2_to64();
            lemma_le_upper_zero(wide@.skip(16), 8, self.hi as nat);
            assert(le_value(out@) == le_value(out@.take(16)) + pow2(128) * le_value(out@.skip(16)));
            assert(le_value(out@) == self.lo + pow2(128) * self.hi);
            assert(le_value(out@) == self.hi * two128() + self.lo) by (nonlinear_arith)
                requires
                    le_value(out@) == self.lo + pow2(128) * self.hi,
                    pow2(128) == two128(),
            ;
        }
        out
    }
}

/// `2^128` is `pow2(128)`.
pub(crate) proof fn lemma_two128()
    ensures
        pow2(128) == two128(),
        pow2(64) == 0x1_0000_0000_0000_0000,
{
    lemma2_to64();
    lemma2_to64_rest();
    lemma_pow2_adds(64, 64);
}

/// Little-endian bytes of one length that stand for the same number are the
/// same bytes: `to_le_bytes` writes the one encoding of a number, so reading
/// bytes back and writing them again gives them unchanged.
pub proof fn lemma_le_value_injective(a: Seq<u8>, b: Seq<u8>)
    requires
        a.len() == b.len(),
        le_value(a) == le_value(b),
    ensures
        a == b,
    decreases a.len(),
{
    if a.len() > 0 {
        let ra = le_value(a.drop_first());
        let rb = le_value(b.drop_first());
        assert(a[0] == b[0] && ra == rb) by (nonlinear_arith)
            requires
                a[0] + 256 * ra == b[0] + 256 * rb,
                a[0] < 256,
                b[0] < 256,
                ra >= 0,
                rb >= 0,
        ;
        lemma_le_value_injective(a.drop_first(), b.drop_first());
        assert(a =~= seq![a[0]] + a.drop_first());
        assert(b =~= seq![b[0]] + b.drop_first());
    } else {
        assert(a =~= b);
    }
}

/// A 256-bit number is its value: two with the same value are equal, so
/// `from_le_bytes` gives back exactly the number `to_le_bytes` wrote.
pub proof fn lemma_u256_value_injective(a: U256, b: U256)
    requires
        a.value() == b.value(),
    ensures
        a == b,
{
    assert(a.hi == b.hi && a.lo == b.lo) by (nonlinear_arith)
        requires
            a.hi * two128() + a.lo == b.hi * two128() + b.lo,
            a.lo < two128(),
            b.lo < two128(),
            a.lo >= 0,
            b.lo >= 0,
            a.hi >= 0,
            b.hi >= 0,
    ;
}

/// The sum of the first `n` bytes, byte `i` weighted by `2^(8i)`.
pub open spec fn weighted_byte_sum(bytes: Seq<u8>, n: nat) -> nat
    decreases n,
{
    if n == 0 {
        0
    } else {
        weighted_byte_sum(bytes, (n - 1) as nat) + bytes[n - 1] as nat * pow2((8 * (n - 1)) as nat)
    }
}

/// The number little-endian bytes stand for is the sum of each byte shifted
/// left by eight bits per position, the first byte the lowest: this is what
/// `from_le_bytes` gives and what `to_le_bytes` writes.
pub proof fn lemma_le_value_is_weighted_sum(bytes: Seq<u8>)
    ensures
        le_value(bytes) == weighted_byte_sum(bytes, bytes.len()),
    decreases bytes.len(),
{
    if bytes.len() > 0 {
        let n = bytes.len();
        let front = bytes.take(n - 1);
        lemma_le_value_split(bytes, n - 1);
        lemma_le_value_is_weighted_sum(front);
        lemma_weighted_sum_prefix(bytes, front, (n - 1) as nat);
        let last = bytes.skip(n - 1);
        assert(last.len() == 1 && last[0] == bytes[n - 1]);
        assert(last.drop_first() =~= Seq::<u8>::empty());
        assert(le_value(last.drop_first()) == 0);
        assert(le_value(last) == bytes[n - 1] as nat);
        let p = pow2((8 * (n - 1)) as nat);
        assert(p * (bytes[n - 1] as nat) == (bytes[n - 1] as nat) * p) by (nonlinear_arith);
        assert(weighted_byte_sum(bytes, n) == weighted_byte_sum(bytes, (n - 1) as nat)
            + bytes[n - 1] as nat * p);
    }
}

/// The weighted sum of a prefix depends only on the bytes in it.
proof fn lemma_weighted_sum_prefix(a: Seq<u8>, b: Seq<u8>, n: nat)
    requires
        n <= a.len(),
        n <= b.len(),
        forall|i: int| 0 <= i < n ==> a[i] == b[i],
    ensures
        weighted_byte_sum(a, n) == weighted_byte_sum(b, n),
    decreases n,
{
    if n > 0 {
        lemma_weighted_sum_prefix(a, b, (n - 1) as nat);
    }
}

/// Byte `i` of little-endian bytes is the number they stand for shifted
/// right by `8i` bits, taken modulo 256: `to_le_bytes` writes each byte
/// that way.
pub proof fn lemma_le_byte_is_shifted_value(bytes: Seq<u8>, i: int)
    requires
        0 <= i < bytes.len(),
    ensures
        (le_value(bytes) / pow2((8 * i) as nat)) % 256 == bytes[i] as nat,
{
    lemma_le_value_split(bytes, i);
    lemma_le_value_bound(bytes.take(i));
    assert(bytes.take(i).len() == i);
    let low = le_value(bytes.take(i));
    let high = le_value(bytes.skip(i));
    let p = pow2((8 * i) as nat);
    lemma_pow2_pos((8 * i) as nat);
    assert((low + p * high) / p == high) by (nonlinear_arith)
        requires
            p > 0,
            0 <= low < p,
            high >= 0,
    ;
    assert(bytes.skip(i)[0] == bytes[i]);
    assert(high == bytes[i] as nat + 256 * le_value(bytes.skip(i).drop_first()));
    let rest = le_value(bytes.skip(i).drop_first());
    assert((bytes[i] as nat + 256 * rest) % 256 == bytes[i] as nat) by (nonlinear_arith)
        requires
            0 <= bytes[i] < 256,
            rest >= 0,
    ;
}

/// The value of bytes splits at position `k`.
proof fn lemma_le_value_split(bytes: Seq<u8>, k: int)
    requires
        0 <= k <= bytes.len(),
    ensures
        le_value(bytes) == le_value(bytes.take(k)) + pow2((8 * k) as nat) * le_value(bytes.skip(k)),
    decreases k,
{
    if k == 0 {
        assert(bytes.skip(0) =~= bytes);
        assert(bytes.take(0) =~= Seq::<u8>::empty());
        lemma2_to64();
    } else {
        lemma_le_value_split(bytes.drop_first(), k - 1);
        assert(bytes.drop_first().take(k - 1) =~= bytes.take(k).drop_first());
        assert(bytes.drop_first().skip(k - 1) =~= bytes.skip(k));
        lemma_pow2_adds(8, (8 * (k - 1)) as nat);
        assert(pow2(8) == 256) by {
            lemma2_to64();
        }
        let a = le_value(bytes.drop_first().take(k - 1));
        let b = le_value(bytes.skip(k));
        let p = pow2((8 * (k - 1)) as nat);
        assert(256 * (a + p * b) == 256 * a + (256 * p) * b) by (nonlinear_arith);
    }
}

/// A value of `n` bytes is below `2^(8n)`.
proof fn lemma_le_value_bound(bytes: Seq<u8>)
    ensures
        le_value(bytes) < pow2((8 * bytes.len()) as nat),
    decreases bytes.len(),
{
    if bytes.len() == 0 {
        lemma2_to64();
    } else {
        lemma_le_value_bound(bytes.drop_first());
        lemma_pow2_adds(8, (8 * (bytes.len() - 1)) as nat);
        assert(pow2(8) == 256) by {
            lemma2_to64();
        }
        let p = pow2((8 * (bytes.len() - 1)) as nat);
        let v = le_value(bytes.drop_first());
        assert(bytes[0] + 256 * v < 256 * p) by (nonlinear_arith)
            requires
                bytes[0] < 256,
                v < p,
                v >= 0,
        ;
    }
}

/// Zero bytes stand for zero.
proof fn lemma_le_value_zeros(bytes: Seq<u8>)
    requires
        forall|i: int| 0 <= i < bytes.len() ==> bytes[i] == 0,
    ensures
        le_value(bytes) == 0,
    decreases bytes.len(),
{
    if bytes.len() > 0 {
        lemma_le_value_zeros(bytes.drop_first());
    }
}

/// When bytes stand for a number below `2^(8k)`, the bytes past `k` are zero.
proof fn lemma_le_upper_zero(bytes: Seq<u8>, k: int, v: nat)
    requires
        0 <= k <= bytes.len(),
        le_value(bytes) == v,
        v < pow2((8 * k) as nat),
    ensures
        le_value(bytes.take(k)) == v,
{
    lemma_le_value_split(bytes, k);
    lemma_le_value_bound(bytes.take(k));
    let t = le_value(bytes.take(k));
    let s = le_value(bytes.skip(k));
    let p = pow2((8 * k) as nat);
    lemma_pow2_pos((8 * k) as nat);
    assert(s == 0 && t == v) by (nonlinear_arith)
        requires
            t + p * s == v,
            v < p,
            t >= 0,
            s >= 0,
            p > 0,
    ;
}

/// The number the 16 little-endian bytes of `bytes` from `start` stand for.
fn le_u128(bytes: &[u8; 32], start: usize) -> (r: u128)
    requires
        start + 16 <= 32,
    ensures
        r == le_value(bytes@.subrange(start as int, start + 16)),
{
    let mut r: u128 = 0;
    let mut i: usize = 16;
    proof {
        lemma_two128();
        lemma2_to64();
        assert(bytes@.subrange(start + 16, start + 16) =~= Seq::<u8>::empty());
    }
    while i > 0
        invariant
            i <= 16,
            start + 16 <= 32,
            r == le_value(bytes@.subrange(start + i, start + 16)),
            r < pow2((8 * (16 - i)) as nat),
            pow2(128) == two128(),
        decreases i,
    {
        i = i - 1;
        let b = bytes[start + i];
        proof {
            let s = bytes@.subrange(start + i, start + 16);
            assert(s.drop_first() =~= bytes@.subrange(start + i + 1, start + 16));
            lemma_pow2_adds(8, (8 * (15 - i)) as nat);
            assert(pow2(8) == 256) by {
                lemma2_to64();
            }
            let p = pow2((8 * (15 - i)) as nat);
            assert(b + 256 * r < 256 * p) by (nonlinear_arith)
                requires
                    b < 256,
                    r < p,
            ;
            assert(256 * p <= pow2(128)) by {
                if i > 0 {
                    vstd::arithmetic::power2::lemma_pow2_strictly_increases((8 * (16 - i)) as nat, 128);
                }
            }
            assert(256 * p == pow2((8 * (16 - i)) as nat));
        }
        r = (b as u128) + 256 * r;
    }
    r
}

/// Writes the 16 little-endian bytes of `v` at `start`, leaving the other
/// bytes alone.
fn write_le_u128(bytes: &mut [u8; 32], start: usize, v: u128)
    requires
        start + 16 <= 32,
    ensures
        le_value(final(bytes)@.subrange(start as int, start + 16)) == v,
        forall|j: int| 0 <= j < 32 && !(start <= j < start + 16) ==> final(bytes)@[j] == old(
        bytes)@[j],
{
    let mut rest = v;
    let mut i: usize = 0;
    proof {
        lemma2_to64();
        lemma_two128();
        assert(bytes@.subrange(start as int, start as int) =~= Seq::<u8>::empty());
        assert(le_value(Seq::<u8>::empty()) == 0);
        assert(le_value(bytes@.subrange(start as int, start as int)) == 0);
        assert(pow2(0) * v == v) by (nonlinear_arith)
            requires
                pow2(0) == 1,
        ;
    }
    while i < 16
        invariant
            i <= 16,
            start + 16 <= 32,
            v == le_value(bytes@.subrange(start as int, start + i)) + pow2((8 * i) as nat) * rest,
            forall|j: int| 0 <= j < 32 && !(start <= j < start + 16) ==> bytes@[j] == old(bytes)@[j],
            rest < pow2((8 * (16 - i)) as nat),
        decreases 16 - i,
    {
        let b = (rest % 256) as u8;
        let ghost before = bytes@;
        bytes[start + i] = b;
        proof {
            lemma_le_value_split(bytes@.subrange(start as int, start + i + 1), i as int);
            assert(bytes@.subrange(start as int, start + i + 1).take(i as int) =~= before.subrange(
                start as int,
                start + i,
            ));
            assert(bytes@.subrange(start as int, start + i + 1).skip(i as int) =~= seq![b]);
            assert(le_value(seq![b]) == b) by {
                assert(seq![b].drop_first() =~= Seq::<u8>::empty());
                assert(le_value(Seq::<u8>::empty()) == 0);
            }
            lemma_pow2_adds((8 * i) as nat, 8);
            assert(pow2(8) == 256) by {
                lemma2_to64();
            }
            lemma_pow2_adds(8, (8 * (15 - i)) as nat);
            let p = pow2((8 * i) as nat);
            let q = pow2((8 * (15 - i)) as nat);
            assert(rest == 256 * (rest / 256) + rest % 256) by (nonlinear_arith);
            assert(rest / 256 < q) by (nonlinear_arith)
                requires
                    rest < 256 * q,
            ;
            assert(p * rest == p * (rest % 256) + (p * 256) * (rest / 256)) by (nonlinear_arith)
                requires
                    rest == 256 * (rest / 256) + rest % 256,
            ;
        }
        rest = rest / 256;
        i = i + 1;
    }
    proof {
        lemma_pow2_pos(0);
        lemma2_to64();
    }
}

/// `value * numerator / denominator` with a 256-bit product: `MathError` when
/// the product needs more than 192 bits or the denominator is zero,
/// `CastingFailure` when the quotient needs more than 128 bits.
pub open spec fn wide_mul_div(value: u128, numerator: u128, denominator: u128) -> Result<u128, ErrorCode> {
    if value * numerator >= two128() * 0x1_0000_0000_0000_0000 || denominator == 0 {
        Err(ErrorCode::MathError)
    } else if value * numerator / (denominator as int) > u128::MAX {
        Err(ErrorCode::CastingFailure)
    } else {
        Ok((value * numerator / (denominator as int)) as u128)
    }
}

/// The 256-bit product of two `u128`.
pub fn mul_u128_wide(a: u128, b: u128) -> (r: U256)
    ensures
        r.value() == a * b,
{
    proof {
        lemma_two128();
    }
    let base: u128 = 0x1_0000_0000_0000_0000;
    let a0 = a % base;
    let a1 = a / base;
    let b0 = b % base;
    let b1 = b / base;
    assert(a == a1 * base + a0 && a0 < base && a1 < base) by (nonlinear_arith)
        requires
            a0 == a % base,
            a1 == a / base,
            base == 0x1_0000_0000_0000_0000,
            a <= u128::MAX,
    ;
    assert(b == b1 * base + b0 && b0 < base && b1 < base) by (nonlinear_arith)
        requires
            b0 == b % base,
            b1 == b / base,
            base == 0x1_0000_0000_0000_0000,
            b <= u128::MAX,
    ;
    assert(a0 * b0 < base * base && a0 * b1 < base * base && a1 * b0 < base * base && a1 * b1
        < base * base) by (nonlinear_arith)
        requires
            a0 < base,
            a1 < base,
            b0 < base,
            b1 < base,
            a0 >= 0,
            a1 >= 0,
            b0 >= 0,
            b1 >= 0,
    ;
    let p00 = a0 * b0;
    let p01 = a0 * b1;
    let p10 = a1 * b0;
    let p11 = a1 * b1;
    let t = p00 / base + p01 % base + p10 % base;
    let lo = p00 % base + (t % base) * base;
    let hi_part = p01 / base + p10 / base + t / base;
    assert(hi_part < base * 3 + 3) by (nonlinear_arith)
        requires
            p01 < base * base,
            p10 < base * base,
            t < base * 3,
            hi_part == p01 / base + p10 / base + t / base,
            base > 0,
    ;
    proof {
        assert(a * b == p11 * (base * base) + (p01 + p10) * base + p00) by (nonlinear_arith)
            requires
                a == a1 * base + a0,
                b == b1 * base + b0,
                p00 == a0 * b0,
                p01 == a0 * b1,
                p10 == a1 * b0,
                p11 == a1 * b1,
        ;
        assert(p00 == (p00 / base) * base + p00 % base) by (nonlinear_arith)
            requires
                base > 0,
        ;
        assert(p01 == (p01 / base) * base + p01 % base) by (nonlinear_arith)
            requires
                base > 0,
        ;
        assert(p10 == (p10 / base) * base + p10 % base) by (nonlinear_arith)
            requires
                base > 0,
        ;
        assert(t == (t / base) * base + t % base) by (nonlinear_arith)
            requires
                base > 0,
        ;
        assert(a * b == (p11 + hi_part) * (base * base) + lo) by (nonlinear_arith)
            requires
                a * b == p11 * (base * base) + (p01 + p10) * base + p00,
                p00 == (p00 / base) * base + p00 % base,
                p01 == (p01 / base) * base + p01 % base,
                p10 == (p10 / base) * base + p10 % base,
                t == (t / base) * base + t % base,
                t == p00 / base + p01 % base + p10 % base,
                lo == p00 % base + (t % base) * base,
                hi_part == p01 / base + p10 / base + t / base,
        ;
        assert(a * b < two128() * two128()) by (nonlinear_arith)
            requires
                a < two128(),
                b < two128(),
                a >= 0,
                b >= 0,
        ;
        assert(lo < base * base) by (nonlinear_arith)
            requires
                p00 % base < base,
                t % base < base,
                lo == p00 % base + (t % base) * base,
                base > 0,
        ;
        assert(p11 + hi_part < two128()) by (nonlinear_arith)
            requires
                a * b == (p11 + hi_part) * two128() + lo,
                a * b < two128() * two128(),
                lo >= 0,
                p11 >= 0,
                hi_part >= 0,
        ;
    }
    U256 { lo, hi: p11 + hi_part }
}

/// `hi * 2^128 + lo` divided by `d`, when the quotient fits 128 bits
/// (`hi < d`): shift-and-subtract long division, one bit of `lo` at a time.
pub(crate) fn div_wide(hi: u128, lo: u128, d: u128) -> (r: u128)
    requires
        hi < d,
    ensures
        r == ((hi * two128() + lo) as int) / (d as int),
{
    proof {
        lemma_two128();
    }
    let mut rem: u128 = hi;
    let mut q: u128 = 0;
    let mut m: u128 = 0x8000_0000_0000_0000_0000_0000_0000_0000;
    let mut k: u32 = 0;
    proof {
        lemma_pow2_adds(127, 1);
        lemma2_to64();
        assert(m == pow2(127)) by {
            lemma_pow2_adds(63, 64);
            lemma2_to64_rest();
            lemma_two128();
        }
        lemma_div_of_pow2_128(lo);
    }
    while k < 128
        invariant
            k <= 128,
            hi < d,
            rem < d,
            0 < d,
            k < 128 ==> m == pow2((127 - k) as nat),
            pow2(128) == two128(),
            q * d + rem == hi * pow2(k as nat) + (lo as int) / (pow2((128 - k) as nat) as int),
            q < pow2(k as nat),
        decreases 128 - k,
    {
        proof {
            lemma_pow2_pos((127 - k) as nat);
        }
        let bit = (lo / m) % 2;
        proof {
            lemma_prefix_step(lo, k as nat);
            lemma_pow2_adds(k as nat, 1);
            lemma_pow2_pos(k as nat);
            lemma2_to64();
            vstd::arithmetic::power2::lemma_pow2_strictly_increases(k as nat, 128);
            if k + 1 < 128 {
                vstd::arithmetic::power2::lemma_pow2_strictly_increases((k + 1) as nat, 128);
            }
            assert(2 * q + 1 <= u128::MAX);
        }
        let t = d - rem;
        let ghost q0 = q;
        let ghost r0 = rem;
        if bit == 0 {
            if rem >= t {
                rem = rem - t;
                q = 2 * q + 1;
            } else {
                rem = 2 * rem;
                q = 2 * q;
            }
        } else {
            if rem >= t - 1 {
                rem = rem - (t - 1);
                q = 2 * q + 1;
            } else {
                rem = 2 * rem + 1;
                q = 2 * q;
            }
        }
        proof {
            assert(q * d + rem == 2 * (q0 * d + r0) + bit) by (nonlinear_arith)
                requires
                    (q == 2 * q0 + 1 && rem == 2 * r0 + bit - d) || (q == 2 * q0 && rem == 2 * r0
                        + bit),
            ;
            let pk = pow2(k as nat);
            let prev = hi * pk + (lo as int) / (pow2((128 - k) as nat) as int);
            let next = hi * pow2((k + 1) as nat) + (lo as int) / (pow2((127 - k) as nat) as int);
            assert(next == 2 * prev + bit) by (nonlinear_arith)
                requires
                    pow2((k + 1) as nat) == pk * 2,
                    (lo as int) / (pow2((127 - k) as nat) as int) == 2 * ((lo as int) / (pow2((128 - k) as nat) as int))
                        + bit,
                    prev == hi * pk + (lo as int) / (pow2((128 - k) as nat) as int),
                    next == hi * pow2((k + 1) as nat) + (lo as int) / (pow2((127 - k) as nat) as int),
            ;
            lemma_quotient_bound(hi, lo, d, (k + 1) as nat, q as int, rem as int);
        }
        if k < 127 {
            m = m / 2;
            proof {
                lemma_pow2_adds((126 - k) as nat, 1);
                lemma2_to64();
            }
        }
        k = k + 1;
    }
    proof {
        lemma2_to64();
        assert((lo as int) / 1 == lo);
        vstd::arithmetic::div_mod::lemma_fundamental_div_mod_converse(
            hi * two128() + lo,
            d as int,
            q as int,
            rem as int,
        );
    }
    q
}

/// `lo / 2^128` is zero.
proof fn lemma_div_of_pow2_128(lo: u128)
    ensures
        (lo as int) / (pow2(128) as int) == 0,
{
    lemma_two128();
    vstd::arithmetic::div_mod::lemma_basic_div(lo as int, pow2(128) as int);
}

/// One more bit of `lo`: the prefix of `k + 1` bits is twice the prefix of `k`
/// bits plus the next bit.
proof fn lemma_prefix_step(lo: u128, k: nat)
    requires
        k < 128,
    ensures
        (lo as int) / (pow2((127 - k) as nat) as int) == 2 * ((lo as int) / (pow2((128 - k) as nat) as int)) + ((lo as int) / (
        pow2((127 - k) as nat) as int)) % 2,
{
    let m = pow2((127 - k) as nat) as int;
    lemma_pow2_pos((127 - k) as nat);
    lemma_pow2_adds((127 - k) as nat, 1);
    lemma2_to64();
    lemma_div_denominator(lo as int, m, 2);
    lemma_fundamental_div_mod((lo as int) / m, 2);
}

/// The quotient so far stays below `2^k`, and the invariant of the long
/// division is kept, after a step.
proof fn lemma_quotient_bound(hi: u128, lo: u128, d: u128, k: nat, q: int, rem: int)
    requires
        hi < d,
        0 <= rem < d,
        q >= 0,
        k <= 128,
        q * d + rem == hi * pow2(k) + (lo as int) / (pow2((128 - k) as nat) as int),
    ensures
        q < pow2(k),
{
    lemma_pow2_pos((128 - k) as nat);
    lemma_pow2_adds(k, (128 - k) as nat);
    lemma_two128();
    let p = pow2((128 - k) as nat) as int;
    let pk = pow2(k) as int;
    assert((lo as int) / p < pk) by {
        vstd::arithmetic::div_mod::lemma_div_by_multiple_is_strongly_ordered(lo as int, (pk * p), pk, p);
        assert(lo < pk * p);
        vstd::arithmetic::div_mod::lemma_multiply_divide_lt(lo as int, p, pk);
    }
    assert(q < pk) by (nonlinear_arith)
        requires
            q * d + rem == hi * pk + (lo as int) / p,
            (lo as int) / p < pk,
            hi < d,
            hi >= 0,
            rem >= 0,
            q >= 0,
            d > 0,
            pk > 0,
    ;
}

/// `value * numerator / denominator` through a 256-bit product (see
/// `wide_mul_div`).
pub fn mul_div_u128(value: u128, numerator: u128, denominator: u128) -> (r: TYieldResult<u128>)
    ensures
        r == wide_mul_div(value, numerator, denominator),
{
    let product = mul_u128_wide(value, numerator);
    if product.hi >= 0x1_0000_0000_0000_0000 {
        proof {
            assert(product.value() >= two128() * 0x1_0000_0000_0000_0000) by (nonlinear_arith)
                requires
                    product.hi >= 0x1_0000_0000_0000_0000,
                    product.value() == product.hi * two128() + product.lo,
                    product.lo >= 0,
            ;
        }
        return Err(ErrorCode::MathError);
    }
    if denominator == 0 {
        return Err(ErrorCode::MathError);
    }
    if product.hi >= denominator {
        proof {
            assert((product.value() as int) / (denominator as int) > u128::MAX) by (nonlinear_arith)
                requires
                    product.hi >= denominator,
                    denominator > 0,
                    product.value() == product.hi * two128() + product.lo,
                    two128() == u128::MAX + 1,
                    product.lo >= 0,
            {
                assert(product.value() >= denominator * two128());
                vstd::arithmetic::div_mod::lemma_div_is_ordered(
                    denominator * two128(),
                    product.value() as int,
                    denominator as int,
                );
                vstd::arithmetic::div_mod::lemma_div_by_multiple(two128() as int, denominator as int);
            }
        }
        return Err(ErrorCode::CastingFailure);
    }
    let q = div_wide(product.hi, product.lo, denominator);
    Ok(q)
}

/// Shows an addition of 256-bit numbers: 42 + 10.
pub fn example_u256_usage() -> (r: TYieldResult<()>)
    ensures
        r == Ok::<(), ErrorCode>(()),
{
    let x = U256::from_u128(42);
    let y = U256::from_u128(10);
    let _result = x.checked_add(y);
    Ok(())
}

} // verus!
