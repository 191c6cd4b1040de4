//! Per-endpoint weights and the weighted-endpoint adapter.
//!
//! A weight scales how attractive an endpoint looks to the balancer: the
//! endpoint's raw load is divided by its weight, so heavier-weighted
//! endpoints report less load and win more comparisons. Weight knowledge is
//! confined to this layer; the balancer core stays weight-agnostic.

use crate::discover::{Change, Discover};
use crate::poll::Poll;
use crate::service::{Load, Service};
use vstd::arithmetic::div_mod::{
    lemma_basic_div,
    lemma_div_denominator,
    lemma_fundamental_div_mod,
};
use vstd::arithmetic::power2::{
    lemma2_to64,
    lemma2_to64_rest,
    lemma_pow2_strictly_increases,
    lemma_pow2_unfold,
    pow2,
};
use vstd::prelude::*;

verus! {

/// The number of fixed-point units that make up a weight of one.
pub const WEIGHT_UNIT: u32 = 10_000;

/// A non-negative weight in fixed point, counted in ten-thousandths.
///
/// Lesser-weighted endpoints receive less traffic than heavier-weighted
/// endpoints; the zero weight is never selected while any positive-weight
/// endpoint is ready.
#[derive(Clone, Copy, Debug, PartialEq, Eq, Hash, Structural)]
pub struct Weight(u32);

impl View for Weight {
    type V = u32;

    closed spec fn view(&self) -> u32 {
        self.0
    }
}

impl Weight {
    /// The zero weight: an endpoint carrying it always loses a comparison.
    pub fn zero() -> (r: Weight)
        ensures
            r@ == 0,
    {
        Weight(0)
    }

    /// The least positive weight.
    pub fn min_weight() -> (r: Weight)
        ensures
            r@ == 1,
    {
        Weight(1)
    }

    /// The unit weight: a weight of one.
    pub fn unit() -> (r: Weight)
        ensures
            r@ == WEIGHT_UNIT,
    {
        Weight(WEIGHT_UNIT)
    }

    /// The greatest representable weight.
    pub fn max_weight() -> (r: Weight)
        ensures
            r@ == u32::MAX,
    {
        Weight(u32::MAX)
    }

    /// A weight of `units` ten-thousandths.
    pub fn from_units(units: u32) -> (r: Weight)
        ensures
            r@ == units,
    {
        Weight(units)
    }

    /// The weight in ten-thousandths.
    pub fn units(&self) -> (r: u32)
        ensures
            r == self@,
    {
        self.0
    }

    /// Saturating addition of two weights.
    pub fn add(self, w: Weight) -> (r: Weight)
        ensures
            r@ == (if self@ + w@ <= u32::MAX {
                self@ + w@
            } else {
                u32::MAX as int
            }),
    {
        Weight(self.0.saturating_add(w.0))
    }
}

impl Default for Weight {
    /// The default weight is the unit weight.
    fn default() -> (r: Weight)
        ensures
            r@ == WEIGHT_UNIT,
    {
        Weight(WEIGHT_UNIT)
    }
}

/// The sign bit of an IEEE-754 double bit pattern.
pub open spec fn f64_sign(bits: u64) -> int {
    bits as int / 0x8000_0000_0000_0000
}

/// The biased exponent field of an IEEE-754 double bit pattern.
pub open spec fn f64_exp(bits: u64) -> int {
    (bits as int / 0x10_0000_0000_0000) % 0x800
}

/// The fraction field of an IEEE-754 double bit pattern.
pub open spec fn f64_frac(bits: u64) -> int {
    bits as int % 0x10_0000_0000_0000
}

/// The significand of a finite double, as a plain integer.
pub open spec fn f64_mantissa(bits: u64) -> int {
    if f64_exp(bits) == 0 {
        f64_frac(bits)
    } else {
        f64_frac(bits) + 0x10_0000_0000_0000
    }
}

/// The binary exponent that scales [`f64_mantissa`]: the double's value is
/// the significand times two to this power.
pub open spec fn f64_scale(bits: u64) -> int {
    if f64_exp(bits) == 0 {
        -1074
    } else {
        f64_exp(bits) - 1075
    }
}

/// How many low bits must be dropped from `p` to leave a 53-bit
/// significand.
pub open spec fn norm_shift(p: int) -> nat
    decreases p,
{
    if p < 0x20_0000_0000_0000 {
        0
    } else {
        (1 + norm_shift(p / 2)) as nat
    }
}

/// `p` rounded to 53 significant bits, to nearest with ties to even: the
/// rounded significand, scaled down by two to the [`norm_shift`] of `p`.
pub open spec fn rne53(p: int) -> int {
    let s = norm_shift(p);
    let q = p / pow2(s) as int;
    let r = p % pow2(s) as int;
    if s > 0 && (2 * r > pow2(s) || (2 * r == pow2(s) && q % 2 == 1)) {
        q + 1
    } else {
        q
    }
}

/// `sig` times two to `scale`, truncated toward zero and saturated into
/// the range of a weight's units.
pub open spec fn trunc_sat_u32(sig: int, scale: int) -> int
    recommends
        1 <= sig <= 0x20_0000_0000_0000,
{
    if scale >= 32 {
        u32::MAX as int
    } else if scale >= 0 {
        if sig * pow2(scale as nat) > u32::MAX {
            u32::MAX as int
        } else {
            sig * pow2(scale as nat)
        }
    } else {
        let v = sig / pow2((0 - scale) as nat) as int;
        if v > u32::MAX {
            u32::MAX as int
        } else {
            v
        }
    }
}

/// The units a double with bit pattern `bits` converts to: nothing for
/// not-a-number, zero and every negative; everything for infinity; else
/// the double times ten thousand — the exact product rounded to double
/// precision, then truncated toward zero — with positive values that
/// truncate to nothing lifted to the least positive weight.
pub open spec fn weight_units_of_bits(bits: u64) -> int {
    if f64_sign(bits) == 1 {
        0
    } else if f64_exp(bits) == 0x7FF {
        if f64_frac(bits) != 0 {
            0
        } else {
            u32::MAX as int
        }
    } else if f64_mantissa(bits) == 0 {
        0
    } else {
        let p = f64_mantissa(bits) * 10_000;
        let u = trunc_sat_u32(rne53(p), f64_scale(bits) + norm_shift(p));
        if u == 0 {
            1
        } else {
            u
        }
    }
}

/// Two raised to a small power.
fn pow2_small(n: u32) -> (r: u128)
    requires
        n <= 53,
    ensures
        r == pow2(n as nat),
        r >= 1,
{
    let mut r: u128 = 1;
    let mut i: u32 = 0;
    proof {
        lemma2_to64();
    }
    while i < n
        invariant
            i <= n,
            n <= 53,
            1 <= r <= 0x20_0000_0000_0000,
            r == pow2(i as nat),
        decreases n - i,
    {
        proof {
            lemma2_to64_rest();
            if (i as nat) + 1 < 53 {
                lemma_pow2_strictly_increases((i + 1) as nat, 53);
            }
            lemma_pow2_unfold((i + 1) as nat);
        }
        r = r * 2;
        i = i + 1;
    }
    r
}

impl Weight {
    /// Reads a weight from the bit pattern of an IEEE-754 double, as
    /// `f64::to_bits` gives it, following [`weight_units_of_bits`]: the
    /// double times ten thousand, truncated; not-a-number and values at or
    /// below zero give the zero weight, infinity the greatest weight, and
    /// positive values that truncate to nothing the least positive one.
    pub fn from_bits(bits: u64) -> (r: Weight)
        ensures
            r@ == weight_units_of_bits(bits),
    {
        let sign: u64 = bits / 0x8000_0000_0000_0000;
        let exp: u64 = (bits / 0x10_0000_0000_0000) % 0x800;
        let frac: u64 = bits % 0x10_0000_0000_0000;
        if sign == 1 {
            return Weight(0);
        }
        if exp == 0x7FF {
            if frac != 0 {
                return Weight(0);
            } else {
                return Weight(u32::MAX);
            }
        }
        if exp == 0 && frac == 0 {
            return Weight(0);
        }
        let m: u64 = if exp == 0 {
            frac
        } else {
            frac + 0x10_0000_0000_0000
        };
        let p: u128 = (m as u128) * 10_000;
        // Strip low bits until 53 remain, remembering how many came off.
        let mut q: u128 = p;
        let mut d: u128 = 1;
        let mut s: u32 = 0;
        proof {
            lemma2_to64();
        }
        while q >= 0x20_0000_0000_0000
            invariant
                1 <= m < 0x20_0000_0000_0000,
                p == m as int * 10_000,
                q == p as int / pow2(s as nat) as int,
                d == pow2(s as nat),
                s <= 14,
                norm_shift(p as int) == s as nat + norm_shift(q as int),
            decreases q,
        {
            proof {
                lemma2_to64();
                lemma2_to64_rest();
                lemma_fundamental_div_mod(p as int, pow2(s as nat) as int);
                assert(pow2(s as nat) as int * (q as int) >= pow2(s as nat) as int
                    * 0x20_0000_0000_0000) by (nonlinear_arith)
                    requires
                        q >= 0x20_0000_0000_0000,
                        pow2(s as nat) as int > 0,
                ;
                if s >= 14 {
                    if s > 14 {
                        lemma_pow2_strictly_increases(14, s as nat);
                    }
                    assert(false);
                }
                lemma_div_denominator(p as int, pow2(s as nat) as int, 2);
                lemma_pow2_unfold((s + 1) as nat);
            }
            q = q / 2;
            d = d * 2;
            s = s + 1;
        }
        // Round to nearest, ties to even.
        let rem: u128 = p % d;
        proof {
            lemma_fundamental_div_mod(p as int, d as int);
        }
        let round_up: bool = s > 0 && (2 * rem > d || (2 * rem == d && q % 2 == 1));
        let q2: u128 = if round_up {
            q + 1
        } else {
            q
        };
        let e: i64 = if exp == 0 {
            -1074
        } else {
            (exp as i64) - 1075
        };
        let e2: i64 = e + (s as i64);
        let units: u32 = if e2 >= 32 {
            u32::MAX
        } else if e2 >= 0 {
            let factor = pow2_small(e2 as u32);
            proof {
                lemma2_to64();
                lemma2_to64_rest();
                if (e2 as nat) < 32 {
                    lemma_pow2_strictly_increases(e2 as nat, 32);
                }
                assert((q2 as int) * (factor as int) <= 0x20_0000_0000_0000 * 0x1_0000_0000)
                    by (nonlinear_arith)
                    requires
                        0 <= q2 as int <= 0x20_0000_0000_0000,
                        0 <= factor as int <= 0x1_0000_0000,
                ;
            }
            let shifted: u128 = q2 * factor;
            if shifted > 0xFFFF_FFFF {
                u32::MAX
            } else {
                shifted as u32
            }
        } else {
            let neg: i64 = 0 - e2;
            if neg >= 54 {
                proof {
                    lemma2_to64_rest();
                    if 54 < neg {
                        lemma_pow2_strictly_increases(54, neg as nat);
                    }
                    lemma_basic_div(q2 as int, pow2(neg as nat) as int);
                }
                0
            } else {
                let divisor = pow2_small(neg as u32);
                let v: u128 = q2 / divisor;
                if v > 0xFFFF_FFFF {
                    u32::MAX
                } else {
                    v as u32
                }
            }
        };
        if units == 0 {
            Weight(1)
        } else {
            Weight(units)
        }
    }
}

/// A raw load seen through a weight: the load divided by the weight in
/// units of one, saturating at `u64::MAX`; division by the zero weight is
/// pinned to `u64::MAX`, the sentinel meaning "never select".
pub open spec fn div_load_spec(load: u64, units: u32) -> int {
    if units == 0 {
        u64::MAX as int
    } else if load * WEIGHT_UNIT / units as int > u64::MAX {
        u64::MAX as int
    } else {
        load * WEIGHT_UNIT / units as int
    }
}

/// Divides a raw load by a weight, following [`div_load_spec`] exactly.
pub fn div_load(load: u64, w: Weight) -> (r: u64)
    ensures
        r == div_load_spec(load, w@),
{
    if w.0 == 0 {
        u64::MAX
    } else {
        proof {
            assert((load as int) * (WEIGHT_UNIT as int) <= (u64::MAX as int) * (
            WEIGHT_UNIT as int)) by (nonlinear_arith)
                requires
                    load <= u64::MAX,
                    WEIGHT_UNIT as int >= 0,
            ;
        }
        let wide = (load as u128) * (WEIGHT_UNIT as u128) / (w.0 as u128);
        if wide > u64::MAX as u128 {
            u64::MAX
        } else {
            wide as u64
        }
    }
}

/// Exposes the weight an endpoint was announced with.
pub trait HasWeight {
    fn weight(&self) -> Weight;
}

/// An endpoint bundled with its weight: it reports its raw load divided by
/// the weight and forwards readiness and dispatch unchanged.
#[derive(Clone, Copy, Debug)]
pub struct Weighted<T> {
    inner: T,
    weight: Weight,
}

impl<T> Weighted<T> {
    pub closed spec fn spec_inner(&self) -> T {
        self.inner
    }

    pub closed spec fn spec_weight(&self) -> Weight {
        self.weight
    }

    pub fn new(inner: T, weight: Weight) -> (r: Self)
        ensures
            r.spec_inner() == inner,
            r.spec_weight() == weight,
    {
        Weighted { inner, weight }
    }

    pub fn into_parts(self) -> (r: (T, Weight))
        ensures
            r.0 == self.spec_inner(),
            r.1 == self.spec_weight(),
    {
        (self.inner, self.weight)
    }
}

impl<T> HasWeight for Weighted<T> {
    fn weight(&self) -> (r: Weight)
        ensures
            r == self.spec_weight(),
    {
        self.weight
    }
}

impl<L: Load> Load for Weighted<L> {
    /// The inner endpoint's load divided by the weight, `u64::MAX` for the
    /// zero weight.
    open spec fn spec_load(&self) -> u64 {
        div_load_spec(self.spec_inner().spec_load(), self.spec_weight()@) as u64
    }

    fn load(&self) -> (r: u64)
        ensures
            r == self.spec_load(),
    {
        div_load(self.inner.load(), self.weight)
    }
}

impl<S: Service> Service for Weighted<S> {
    type Request = S::Request;

    type Error = S::Error;

    type Future = S::Future;

    fn poll_ready(&mut self) -> (r: Poll<(), S::Error>) {
        self.inner.poll_ready()
    }

    fn call(&mut self, req: S::Request) -> (r: S::Future) {
        self.inner.call(req)
    }
}

/// Adapts a discovery stream whose keys carry weights into one that yields
/// bare keys and weighted services: weight knowledge stops here.
pub struct WithWeighted<D> {
    inner: D,
}

impl<D> WithWeighted<D> {
    pub closed spec fn spec_inner(&self) -> D {
        self.inner
    }

    pub fn new(inner: D) -> (r: Self)
        ensures
            r.spec_inner() == inner,
    {
        WithWeighted { inner }
    }
}

impl<D> Discover for WithWeighted<D> where D: Discover<Key = Weighted<usize>> {
    type Key = usize;

    type Service = Weighted<D::Service>;

    type Error = D::Error;

    closed spec fn pending_changes(&self) -> nat {
        self.inner.pending_changes()
    }

    fn poll(&mut self) -> (r: Poll<Change<usize, Weighted<D::Service>>, D::Error>)
        ensures
            r is Ready ==> final(self).pending_changes() < old(self).pending_changes(),
    {
        match self.inner.poll() {
            Poll::NotReady => Poll::NotReady,
            Poll::Fail(e) => Poll::Fail(e),
            Poll::Ready(Change::Remove(k)) => {
                let (key, _w) = k.into_parts();
                Poll::Ready(Change::Remove(key))
            },
            Poll::Ready(Change::Insert(k, svc)) => {
                let (key, w) = k.into_parts();
                Poll::Ready(Change::Insert(key, Weighted::new(svc, w)))
            },
        }
    }
}

} // verus!
