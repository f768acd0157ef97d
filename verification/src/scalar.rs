//! Fixed-point scalars: a signed 64-bit count of `1 / UNIT` steps.
//!
//! Every operation rounds towards minus infinity and saturates at the ends
//! of the 64-bit range; division by zero saturates by the sign of the
//! numerator. The spec functions say exactly which value comes out.

use vstd::prelude::*;
use vstd::arithmetic::div_mod::lemma_fundamental_div_mod_converse;

verus! {

/// Raw value that stands for the real number one.
pub const UNIT: i64 = 65536;

/// The integer `x` brought into the 64-bit range.
pub open spec fn clamp(x: int) -> int {
    if x < i64::MIN as int {
        i64::MIN as int
    } else if x > i64::MAX as int {
        i64::MAX as int
    } else {
        x
    }
}

/// Quotient `n / d` rounded towards minus infinity; for `d == 0` the end of
/// the range on the side of `n`.
pub open spec fn quotient(n: int, d: int) -> int {
    if d > 0 {
        n / d
    } else if d < 0 {
        (-n) / (-d)
    } else if n > 0 {
        i64::MAX as int
    } else if n < 0 {
        i64::MIN as int
    } else {
        0
    }
}

/// Whether `n` lies between the square of `r` and the next square.
pub open spec fn is_root_of(r: nat, n: nat) -> bool {
    r * r <= n && n < (r + 1) * (r + 1)
}

/// Integer square root: the one `r` with `r * r <= n < (r + 1) * (r + 1)`.
pub open spec fn isqrt(n: nat) -> nat {
    choose|r: nat| is_root_of(r, n)
}

/// Any `r` that brackets `n` between its square and the next square is the
/// integer square root of `n`.
pub proof fn lemma_isqrt_unique(n: nat, r: nat)
    requires
        is_root_of(r, n),
    ensures
        isqrt(n) == r,
{
    let s = isqrt(n);
    assert(is_root_of(s, n));
    assert(s == r) by (nonlinear_arith)
        requires
            r * r <= n,
            n < (r + 1) * (r + 1),
            s * s <= n,
            n < (s + 1) * (s + 1),
    {
        if s < r {
            assert((s + 1) * (s + 1) <= r * r);
        } else if r < s {
            assert((r + 1) * (r + 1) <= s * s);
        }
    }
}

fn saturate(x: i128) -> (r: i64)
    ensures
        r as int == clamp(x as int),
{
    if x < i64::MIN as i128 {
        i64::MIN
    } else if x > i64::MAX as i128 {
        i64::MAX
    } else {
        x as i64
    }
}

fn floor_div(n: i128, d: i128) -> (q: i128)
    requires
        d > 0,
        n > i128::MIN,
    ensures
        q as int == (n as int) / (d as int),
{
    if n >= 0 {
        n / d
    } else {
        let m: i128 = -n;
        let k: i128 = (m - 1) / d;
        proof {
            let rem = (m - 1) as int % (d as int);
            assert((m - 1) as int == (d as int) * (k as int) + rem) by {
                vstd::arithmetic::div_mod::lemma_fundamental_div_mod((m - 1) as int, d as int);
            }
            assert(0 <= rem < d as int) by {
                vstd::arithmetic::div_mod::lemma_mod_pos_bound((m - 1) as int, d as int);
            }
            assert(n as int == (-(k as int) - 1) * (d as int) + (d as int - rem - 1))
                by (nonlinear_arith)
                requires
                    (m - 1) as int == (d as int) * (k as int) + rem,
                    n as int == -(m as int),
            ;
            lemma_fundamental_div_mod_converse(
                n as int,
                d as int,
                -(k as int) - 1,
                d as int - rem - 1,
            );
        }
        -k - 1
    }
}

fn integer_sqrt(n: u128) -> (r: u128)
    requires
        n < 0x1_0000_0000_0000_0000_0000u128,
    ensures
        r as nat == isqrt(n as nat),
        r < 0x100_0000_0000u128,
{
    let mut lo: u128 = 0;
    let mut hi: u128 = 0x100_0000_0000u128;
    assert(0x100_0000_0000u128 * 0x100_0000_0000u128 == 0x1_0000_0000_0000_0000_0000u128)
        by (nonlinear_arith);
    while hi - lo > 1
        invariant
            lo < hi <= 0x100_0000_0000u128,
            lo * lo <= n,
            n < hi * hi,
        decreases hi - lo,
    {
        let mid: u128 = lo + (hi - lo) / 2;
        assert(mid * mid < 0x1_0000_0000_0000_0000_0000u128) by (nonlinear_arith)
            requires
                mid < 0x100_0000_0000u128,
        ;
        if mid * mid <= n {
            lo = mid;
        } else {
            hi = mid;
        }
    }
    proof {
        assert(hi == lo + 1);
        lemma_isqrt_unique(n as nat, lo as nat);
    }
    lo
}

/// A fixed-point number: `raw` counts steps of `1 / UNIT`.
#[derive(Clone, Copy, Debug, PartialEq, Eq, Structural)]
pub struct Scalar {
    pub raw: i64,
}

impl Scalar {
    pub open spec fn spec_zero() -> Scalar {
        Scalar { raw: 0 }
    }

    pub open spec fn spec_one() -> Scalar {
        Scalar { raw: UNIT }
    }

    pub open spec fn spec_from_int(n: i32) -> Scalar {
        Scalar { raw: (n as int * UNIT as int) as i64 }
    }

    pub open spec fn spec_neg(self) -> Scalar {
        Scalar { raw: clamp(-(self.raw as int)) as i64 }
    }

    pub open spec fn spec_add(self, o: Scalar) -> Scalar {
        Scalar { raw: clamp(self.raw as int + o.raw as int) as i64 }
    }

    pub open spec fn spec_sub(self, o: Scalar) -> Scalar {
        Scalar { raw: clamp(self.raw as int - o.raw as int) as i64 }
    }

    /// Twice the value, saturating.
    pub open spec fn spec_twice(self) -> Scalar {
        self.spec_add(self)
    }

    pub open spec fn spec_mul(self, o: Scalar) -> Scalar {
        Scalar { raw: clamp((self.raw as int * o.raw as int) / (UNIT as int)) as i64 }
    }

    pub open spec fn spec_div(self, o: Scalar) -> Scalar {
        Scalar { raw: clamp(quotient(self.raw as int * UNIT as int, o.raw as int)) as i64 }
    }

    /// Square root, rounded down; zero for every argument that is not positive.
    pub open spec fn spec_sqrt(self) -> Scalar {
        if self.raw <= 0 {
            Scalar { raw: 0 }
        } else {
            Scalar { raw: isqrt((self.raw as int * UNIT as int) as nat) as i64 }
        }
    }

    pub open spec fn spec_min(self, o: Scalar) -> Scalar {
        if o.raw < self.raw {
            o
        } else {
            self
        }
    }

    pub open spec fn spec_max(self, o: Scalar) -> Scalar {
        if o.raw > self.raw {
            o
        } else {
            self
        }
    }

    /// The value multiplied by itself `n` times, starting from one.
    pub open spec fn spec_powi(self, n: nat) -> Scalar
        decreases n,
    {
        if n == 0 {
            Scalar::spec_one()
        } else {
            self.spec_powi((n - 1) as nat).spec_mul(self)
        }
    }

    pub fn from_raw(raw: i64) -> (r: Scalar)
        ensures
            r.raw == raw,
    {
        Scalar { raw }
    }

    pub fn zero() -> (r: Scalar)
        ensures
            r == Scalar::spec_zero(),
    {
        Scalar { raw: 0 }
    }

    pub fn one() -> (r: Scalar)
        ensures
            r == Scalar::spec_one(),
    {
        Scalar { raw: UNIT }
    }

    /// The whole number `n`, exactly.
    pub fn from_int(n: i32) -> (r: Scalar)
        ensures
            r == Scalar::spec_from_int(n),
            r.raw == n * UNIT,
    {
        Scalar { raw: (n as i64) * UNIT }
    }

    pub fn neg(self) -> (r: Scalar)
        ensures
            r == self.spec_neg(),
    {
        Scalar { raw: saturate(-(self.raw as i128)) }
    }

    pub fn add(self, o: Scalar) -> (r: Scalar)
        ensures
            r == self.spec_add(o),
    {
        Scalar { raw: saturate(self.raw as i128 + o.raw as i128) }
    }

    pub fn sub(self, o: Scalar) -> (r: Scalar)
        ensures
            r == self.spec_sub(o),
    {
        Scalar { raw: saturate(self.raw as i128 - o.raw as i128) }
    }

    pub fn twice(self) -> (r: Scalar)
        ensures
            r == self.spec_twice(),
    {
        self.add(self)
    }

    pub fn mul(self, o: Scalar) -> (r: Scalar)
        ensures
            r == self.spec_mul(o),
    {
        let a: i128 = self.raw as i128;
        let b: i128 = o.raw as i128;
        assert(-0x4000_0000_0000_0000_0000_0000_0000_0000 <= a * b
            <= 0x4000_0000_0000_0000_0000_0000_0000_0000) by (nonlinear_arith)
            requires
                -0x8000_0000_0000_0000 <= a <= 0x7fff_ffff_ffff_ffff,
                -0x8000_0000_0000_0000 <= b <= 0x7fff_ffff_ffff_ffff,
        ;
        let q: i128 = floor_div(a * b, UNIT as i128);
        Scalar { raw: saturate(q) }
    }

    pub fn div(self, o: Scalar) -> (r: Scalar)
        ensures
            r == self.spec_div(o),
    {
        if o.raw == 0 {
            if self.raw > 0 {
                Scalar { raw: i64::MAX }
            } else if self.raw < 0 {
                Scalar { raw: i64::MIN }
            } else {
                Scalar { raw: 0 }
            }
        } else {
            let a: i128 = self.raw as i128;
            assert(-0x8000_0000_0000_0000_0000 <= a * (UNIT as i128) <= 0x8000_0000_0000_0000_0000)
                by (nonlinear_arith)
                requires
                    -0x8000_0000_0000_0000 <= a <= 0x7fff_ffff_ffff_ffff,
                    UNIT == 65536,
            ;
            let n: i128 = a * (UNIT as i128);
            let d: i128 = o.raw as i128;
            let q: i128 = if d > 0 {
                floor_div(n, d)
            } else {
                floor_div(-n, -d)
            };
            Scalar { raw: saturate(q) }
        }
    }

    pub fn sqrt(self) -> (r: Scalar)
        ensures
            r == self.spec_sqrt(),
    {
        if self.raw <= 0 {
            Scalar { raw: 0 }
        } else {
            assert(UNIT == 65536);
            let n: u128 = (self.raw as u128) * (UNIT as u128);
            let root: u128 = integer_sqrt(n);
            Scalar { raw: root as i64 }
        }
    }

    pub fn min(self, o: Scalar) -> (r: Scalar)
        ensures
            r == self.spec_min(o),
    {
        if o.raw < self.raw {
            o
        } else {
            self
        }
    }

    pub fn max(self, o: Scalar) -> (r: Scalar)
        ensures
            r == self.spec_max(o),
    {
        if o.raw > self.raw {
            o
        } else {
            self
        }
    }

    pub fn powi(self, n: u32) -> (r: Scalar)
        ensures
            r == self.spec_powi(n as nat),
    {
        let mut acc: Scalar = Scalar::one();
        let mut i: u32 = 0;
        while i < n
            invariant
                i <= n,
                acc == self.spec_powi(i as nat),
            decreases n - i,
        {
            acc = acc.mul(self);
            i = i + 1;
        }
        acc
    }
}

} // verus!
