//! Double-precision numbers by their bit patterns.
//!
//! The driver carries measurements and limits without computing on them: it decodes them,
//! compares them, rounds them toward zero and passes them on. That much is exact, and is
//! done here on the IEEE 754 binary64 encoding. Arithmetic on the values is left to the
//! program around this library.

use vstd::arithmetic::power2::{
    lemma_pow2_adds, lemma_pow2_pos, lemma_pow2_strictly_increases, lemma_pow2_unfold, lemma2_to64,
    pow2,
};
use vstd::prelude::*;

verus! {

/// The weight of the sign bit.
pub const SIGN: u64 = 0x8000_0000_0000_0000;

/// The weight of one exponent step, which is also the hidden bit of a normal number.
pub const STEP: u64 = 0x10_0000_0000_0000;

/// The magnitude of an infinity; every larger magnitude is not a number.
pub const INFINITE: u64 = 0x7FF0_0000_0000_0000;

/// A number in IEEE 754 binary64 encoding. `==` compares the encodings.
#[derive(Clone, Copy, PartialEq, Eq, Debug, Structural)]
pub struct Double {
    pub bits: u64,
}

/// The encoding of zero.
pub const ZERO: u64 = 0;

/// The encoding of one.
pub const ONE: u64 = 0x3FF0_0000_0000_0000;

impl Double {
    pub open spec fn is_negative(self) -> bool {
        self.bits >= SIGN
    }

    /// The encoding without its sign bit.
    pub open spec fn magnitude(self) -> int {
        if self.is_negative() {
            self.bits - SIGN
        } else {
            self.bits as int
        }
    }

    pub open spec fn is_nan(self) -> bool {
        self.magnitude() > INFINITE
    }

    /// Where the number stands in the order of all numbers. Both zeros stand at 0.
    pub open spec fn rank(self) -> int {
        if self.is_negative() {
            -self.magnitude()
        } else {
            self.magnitude()
        }
    }

    /// Whether this number is less than `other`. Nothing is less or more than what is not a
    /// number.
    pub open spec fn lt(self, other: Double) -> bool {
        !self.is_nan() && !other.is_nan() && self.rank() < other.rank()
    }

    /// Whether this number is at most `other`.
    pub open spec fn le(self, other: Double) -> bool {
        !self.is_nan() && !other.is_nan() && self.rank() <= other.rank()
    }

    /// Whether this number equals `other` in value.
    pub open spec fn equal(self, other: Double) -> bool {
        !self.is_nan() && !other.is_nan() && self.rank() == other.rank()
    }

    /// The biased exponent.
    pub open spec fn exponent(self) -> int {
        self.magnitude() / STEP as int
    }

    /// The significand of a normal number, hidden bit included.
    pub open spec fn significand(self) -> int {
        self.magnitude() % STEP as int + STEP
    }

    /// The integer part of the number's absolute value. (An infinity counts as the power of
    /// two that its encoding would stand for.)
    pub open spec fn whole(self) -> int {
        let e = self.exponent();
        if e < 1023 {
            0
        } else if e < 1075 {
            self.significand() / pow2((1075 - e) as nat) as int
        } else {
            self.significand() * pow2((e - 1075) as nat)
        }
    }

    /// The number rounded toward zero and brought into `low..=high`; what is not a number
    /// gives 0.
    pub open spec fn clamped(self, low: int, high: int) -> int {
        let n = if self.is_negative() {
            -self.whole()
        } else {
            self.whole()
        };
        if self.is_nan() {
            0
        } else if n < low {
            low
        } else if n > high {
            high
        } else {
            n
        }
    }

    fn magnitude_bits(self) -> (r: u64)
        ensures
            r == self.magnitude(),
    {
        if self.bits >= SIGN {
            self.bits - SIGN
        } else {
            self.bits
        }
    }

    /// Whether this is not a number.
    pub fn nan(self) -> (r: bool)
        ensures
            r == self.is_nan(),
    {
        self.magnitude_bits() > INFINITE
    }

    /// Whether this number is less than `other`.
    pub fn less(self, other: Double) -> (r: bool)
        ensures
            r == self.lt(other),
    {
        if self.nan() || other.nan() {
            return false;
        }
        let a = self.magnitude_bits();
        let b = other.magnitude_bits();
        if self.bits >= SIGN {
            if other.bits >= SIGN {
                b < a
            } else {
                a > 0 || b > 0
            }
        } else {
            other.bits < SIGN && a < b
        }
    }

    /// Whether this number is at most `other`.
    pub fn at_most(self, other: Double) -> (r: bool)
        ensures
            r == self.le(other),
    {
        !self.nan() && !other.nan() && !other.less(self)
    }

    /// Whether this number equals `other` in value.
    pub fn equals(self, other: Double) -> (r: bool)
        ensures
            r == self.equal(other),
    {
        self.at_most(other) && other.at_most(self)
    }

    /// The integer part of the absolute value, where it is less than 2^32; otherwise 2^32.
    fn whole_bits(self) -> (r: u64)
        ensures
            r == (if self.whole() < 0x1_0000_0000 {
                self.whole()
            } else {
                0x1_0000_0000
            }),
    {
        let m = self.magnitude_bits();
        let e: u64 = m / STEP;
        let s: u64 = m % STEP + STEP;
        if e < 1023 {
            return 0;
        }
        if e >= 1055 {
            proof {
                lemma_large(self);
            }
            return 0x1_0000_0000;
        }
        let p = two_to((1075 - e) as u32);
        proof {
            lemma_pow2_pos((1075 - e) as nat);
        }
        let w: u64 = s / p;
        if w < 0x1_0000_0000 {
            w
        } else {
            0x1_0000_0000
        }
    }

    /// The number as an `i32`, rounded toward zero and saturated.
    pub fn to_i32(self) -> (r: i32)
        ensures
            r == self.clamped(i32::MIN as int, i32::MAX as int),
    {
        if self.nan() {
            return 0;
        }
        let w = self.whole_bits();
        if self.bits >= SIGN {
            if w > 0x8000_0000 {
                i32::MIN
            } else {
                (0 - w as i64) as i32
            }
        } else if w > 0x7FFF_FFFF {
            i32::MAX
        } else {
            w as i32
        }
    }

    /// The number as a `u32`, rounded toward zero and saturated.
    pub fn to_u32(self) -> (r: u32)
        ensures
            r == self.clamped(0, u32::MAX as int),
    {
        if self.nan() {
            return 0;
        }
        let w = self.whole_bits();
        if self.bits >= SIGN {
            0
        } else if w > 0xFFFF_FFFF {
            u32::MAX
        } else {
            w as u32
        }
    }

    /// The encoding of twice the number: an exponent step more, or the infinity where there is
    /// no such step, or twice the fraction where there is no exponent yet. An infinity and what
    /// is not a number stay what they are.
    pub open spec fn twice_encoded(self) -> int {
        let m = self.magnitude();
        let doubled = if m >= INFINITE {
            m
        } else if m < STEP {
            2 * m
        } else if m + STEP >= INFINITE {
            INFINITE as int
        } else {
            m + STEP
        };
        if self.is_negative() {
            SIGN + doubled
        } else {
            doubled
        }
    }

    /// Twice the number.
    pub fn twice(self) -> (r: Double)
        ensures
            r.bits == self.twice_encoded(),
    {
        let m = self.magnitude_bits();
        let doubled: u64 = if m >= INFINITE {
            m
        } else if m < STEP {
            2 * m
        } else if m + STEP >= INFINITE {
            INFINITE
        } else {
            m + STEP
        };
        if self.bits >= SIGN {
            Double { bits: SIGN + doubled }
        } else {
            Double { bits: doubled }
        }
    }

    /// The double nearest to `i`; of two that are as near, the one with an even significand.
    pub fn from_int(i: i64) -> (r: Double)
        ensures
            r.bits == encoded_int(i as int),
    {
        let n: u64 = if i < 0 {
            (0 - i as i128) as u64
        } else {
            i as u64
        };
        if n == 0 {
            return Double { bits: 0 };
        }
        let e = highest_bit(n);
        proof {
            lemma_top_bit(n as nat);
            lemma_small_top_bit(n as nat);
            lemma2_to64();
            lemma_pow2_adds(32, 20);
            lemma_pow2_adds(32, 21);
        }
        let m: u64 = if e <= 52 {
            let p = two_to(52 - e);
            proof {
                lemma_pow2_adds(e as nat, (52 - e) as nat);
                lemma_pow2_adds((e + 1) as nat, (52 - e) as nat);
                lemma_scale(n as int, pow2(e as nat) as int, pow2((e + 1) as nat) as int, p as int);
            }
            n * p
        } else {
            let p = two_to(e - 52);
            let half = two_to(e - 53);
            proof {
                lemma_pow2_pos((e - 52) as nat);
                lemma_pow2_adds(52, (e - 52) as nat);
                lemma_pow2_adds(53, (e - 52) as nat);
                lemma_quotient(n as int, 0x10_0000_0000_0000, 0x20_0000_0000_0000, p as int);
            }
            let q: u64 = n / p;
            let rest: u64 = n % p;
            if rest > half || (rest == half && q % 2 == 1) {
                q + 1
            } else {
                q
            }
        };
        let b: u64 = (e as u64 + 1022) * STEP + m;
        if i < 0 {
            Double { bits: b + SIGN }
        } else {
            Double { bits: b }
        }
    }
}

/// The position of the highest bit of `n` that is set.
pub open spec fn top_bit(n: nat) -> nat
    decreases n,
{
    if n < 2 {
        0
    } else {
        1 + top_bit(n / 2)
    }
}

/// The significand of `n`, scaled to 53 bits: exact where it fits, else rounded to the
/// nearest, and to the even one of two that are as near.
pub open spec fn rounded_significand(n: nat) -> nat {
    let e = top_bit(n);
    if e <= 52 {
        n * pow2((52 - e) as nat)
    } else {
        let p = pow2((e - 52) as nat);
        let half = pow2((e - 53) as nat);
        let q = n / p;
        let rest = n % p;
        if rest > half || (rest == half && q % 2 == 1) {
            q + 1
        } else {
            q
        }
    }
}

/// The encoding of the double nearest to `i`.
pub open spec fn encoded_int(i: int) -> int {
    let n = if i < 0 {
        -i
    } else {
        i
    } as nat;
    if n == 0 {
        0
    } else {
        (if i < 0 {
            SIGN as int
        } else {
            0
        }) + (top_bit(n) + 1022) * STEP + rounded_significand(n)
    }
}

/// The power of two that `e` names.
fn two_to(e: u32) -> (r: u64)
    requires
        e < 64,
    ensures
        r == pow2(e as nat),
        r > 0,
{
    let mut r: u64 = 1;
    let mut i: u32 = 0;
    proof {
        lemma2_to64();
    }
    while i < e
        invariant
            i <= e < 64,
            r == pow2(i as nat),
            r > 0,
            pow2(64) == 0x1_0000_0000_0000_0000,
        decreases e - i,
    {
        proof {
            lemma_pow2_unfold((i + 1) as nat);
            if i + 1 < 64 {
                lemma_pow2_strictly_increases((i + 1) as nat, 64);
            }
        }
        r = r * 2;
        i = i + 1;
    }
    r
}

/// The position of the highest bit of `n` that is set.
fn highest_bit(n: u64) -> (r: u32)
    ensures
        r == top_bit(n as nat),
        r < 64,
{
    let mut m: u64 = n;
    let mut e: u32 = 0;
    proof {
        lemma_small_top_bit(n as nat);
    }
    while m >= 2
        invariant
            e + top_bit(m as nat) == top_bit(n as nat),
            top_bit(n as nat) < 64,
        decreases m,
    {
        m = m / 2;
        e = e + 1;
    }
    e
}

proof fn lemma_top_bit(n: nat)
    requires
        n > 0,
    ensures
        pow2(top_bit(n)) <= n < pow2(top_bit(n) + 1),
    decreases n,
{
    lemma2_to64();
    if n >= 2 {
        lemma_top_bit(n / 2);
        lemma_pow2_unfold(top_bit(n));
        lemma_pow2_unfold(top_bit(n) + 1);
    }
}

proof fn lemma_small_top_bit(n: nat)
    requires
        n <= u64::MAX,
    ensures
        top_bit(n) < 64,
{
    if n > 0 {
        lemma_top_bit(n);
        lemma2_to64();
        if top_bit(n) > 64 {
            lemma_pow2_strictly_increases(64, top_bit(n));
        }
    }
}

proof fn lemma_scale(n: int, low: int, high: int, p: int)
    requires
        low <= n < high,
        p > 0,
    ensures
        low * p <= n * p < high * p,
{
    assert(low * p <= n * p && n * p < high * p) by (nonlinear_arith)
        requires
            low <= n < high,
            p > 0,
    ;
}

proof fn lemma_quotient(n: int, low: int, high: int, p: int)
    requires
        low * p <= n < high * p,
        p > 0,
    ensures
        low <= n / p < high,
{
    assert(low <= n / p && n / p < high) by (nonlinear_arith)
        requires
            low * p <= n < high * p,
            p > 0,
    ;
}

/// A number with a biased exponent of 1055 or more has an integer part of 2^32 or more.
proof fn lemma_large(d: Double)
    requires
        d.exponent() >= 1055,
    ensures
        d.whole() >= 0x1_0000_0000,
{
    let e = d.exponent();
    let s = d.significand();
    lemma2_to64();
    assert(s >= STEP);
    if e < 1075 {
        let p = pow2((1075 - e) as nat) as int;
        lemma_pow2_pos((1075 - e) as nat);
        if 1075 - e < 20 {
            lemma_pow2_strictly_increases((1075 - e) as nat, 20);
        }
        assert(s / p >= 0x1_0000_0000) by (nonlinear_arith)
            requires
                s >= 0x10_0000_0000_0000,
                0 < p <= 0x10_0000,
        ;
    } else {
        let p = pow2((e - 1075) as nat) as int;
        lemma_pow2_pos((e - 1075) as nat);
        assert(s * p >= s) by (nonlinear_arith)
            requires
                s >= 0,
                p >= 1,
        ;
    }
}

/// The number that `bytes` spell, most significant byte first.
pub open spec fn big_endian(bytes: Seq<u8>) -> nat
    decreases bytes.len(),
{
    if bytes.len() == 0 {
        0
    } else {
        (big_endian(bytes.drop_last()) * 256 + bytes.last()) as nat
    }
}

proof fn lemma_big_endian_step(bytes: Seq<u8>, at: int, n: int)
    requires
        0 <= at,
        0 <= n,
        at + n < bytes.len(),
    ensures
        big_endian(bytes.subrange(at, at + n + 1)) == big_endian(bytes.subrange(at, at + n)) * 256
            + bytes[at + n],
{
    let s = bytes.subrange(at, at + n + 1);
    assert(s.drop_last() =~= bytes.subrange(at, at + n));
    assert(s.last() == bytes[at + n]);
}

/// Read the four-byte number at `at`.
pub fn read_u32(bytes: &Vec<u8>, at: usize) -> (r: u32)
    requires
        at + 4 <= bytes.len(),
    ensures
        r == big_endian(bytes@.subrange(at as int, at + 4)),
{
    let mut v: u64 = 0;
    let mut k: usize = 0;
    assert(bytes@.subrange(at as int, at as int) =~= Seq::empty());
    while k < 4
        invariant
            k <= 4,
            at + 4 <= bytes.len(),
            v == big_endian(bytes@.subrange(at as int, at + k)),
            k == 0 ==> v == 0,
            k == 1 ==> v < 0x100,
            k == 2 ==> v < 0x1_0000,
            k == 3 ==> v < 0x100_0000,
            k == 4 ==> v < 0x1_0000_0000,
        decreases 4 - k,
    {
        proof {
            lemma_big_endian_step(bytes@, at as int, k as int);
        }
        v = v * 256 + bytes[at + k] as u64;
        k = k + 1;
    }
    v as u32
}

/// Read the double at `at`, most significant byte first.
pub fn read_double(bytes: &Vec<u8>, at: usize) -> (r: Double)
    requires
        at + 8 <= bytes.len(),
    ensures
        r.bits == big_endian(bytes@.subrange(at as int, at + 8)),
{
    let mut v: u64 = 0;
    let mut k: usize = 0;
    assert(bytes@.subrange(at as int, at as int) =~= Seq::empty());
    while k < 8
        invariant
            k <= 8,
            at + 8 <= bytes.len(),
            v == big_endian(bytes@.subrange(at as int, at + k)),
            k == 0 ==> v == 0,
            k == 1 ==> v < 0x100,
            k == 2 ==> v < 0x1_0000,
            k == 3 ==> v < 0x100_0000,
            k == 4 ==> v < 0x1_0000_0000,
            k == 5 ==> v < 0x100_0000_0000,
            k == 6 ==> v < 0x1_0000_0000_0000,
            k == 7 ==> v < 0x100_0000_0000_0000,
        decreases 8 - k,
    {
        proof {
            lemma_big_endian_step(bytes@, at as int, k as int);
        }
        v = v * 256 + bytes[at + k] as u64;
        k = k + 1;
    }
    Double { bits: v }
}

/// `less` orders the numbers strictly: no number is less than itself, and the order carries
/// through.
pub proof fn order_is_strict(a: Double, b: Double, c: Double)
    ensures
        !a.lt(a),
        a.lt(b) && b.lt(c) ==> a.lt(c),
        a.lt(b) ==> !b.lt(a),
        !a.is_nan() && !b.is_nan() ==> (a.lt(b) || b.lt(a) || a.equal(b)),
        a.is_nan() ==> !a.lt(b) && !b.lt(a) && !a.le(b) && !b.le(a) && !a.equal(b),
{
}

/// An integer of up to 53 bits survives: encoded as a double and rounded toward zero, it is
/// the same integer.
pub proof fn integers_survive(i: int, d: Double)
    requires
        -0x20_0000_0000_0000 < i < 0x20_0000_0000_0000,
        d.bits == encoded_int(i),
    ensures
        !d.is_nan(),
        d.is_negative() <==> i < 0,
        d.whole() == (if i < 0 {
            -i
        } else {
            i
        }),
{
    let n: nat = (if i < 0 {
        -i
    } else {
        i
    }) as nat;
    if n > 0 {
        let e = top_bit(n);
        lemma_top_bit(n);
        lemma2_to64();
        lemma_pow2_adds(32, 20);
        lemma_pow2_adds(32, 21);
        if e >= 53 {
            if e > 53 {
                lemma_pow2_strictly_increases(53, e);
            }
            assert(false);
        }
        let p = pow2((52 - e) as nat);
        lemma_pow2_pos((52 - e) as nat);
        lemma_pow2_adds(e, (52 - e) as nat);
        lemma_pow2_adds(e + 1, (52 - e) as nat);
        lemma_scale(n as int, pow2(e) as int, pow2(e + 1) as int, p as int);
        let m = n * p;
        assert(STEP <= m < 2 * STEP);
        assert(d.magnitude() == (e + 1022) * STEP + m);
        assert(d.exponent() == e + 1023);
        assert(d.significand() == m);
        assert(m / p == n) by (nonlinear_arith)
            requires
                m == n * p,
                p > 0,
        ;
        if e == 52 {
            assert(m == n) by (nonlinear_arith)
                requires
                    m == n * p,
                    p == 1,
            ;
            assert(m * pow2(0) == m) by (nonlinear_arith)
                requires
                    pow2(0) == 1,
            ;
            assert(d.whole() == m * pow2(0));
        } else {
            assert((1075 - d.exponent()) as nat == (52 - e) as nat);
            assert(d.whole() == m as int / p as int);
        }
    } else {
        assert(d.magnitude() == 0);
        assert(d.exponent() == 0);
    }
}

} // verus!
