//! Linear (affine) mapping of one fixed-point interval onto another.
//!
//! A scale maps a value `x` of a domain interval onto a codomain interval by
//! `c_lo + (x - d_lo) * (c_hi - c_lo) / (d_hi - d_lo)`, in integer
//! arithmetic on fixed-point values. It serves both the time axis (seconds
//! onto pixels) and each value axis; the codomain may run downward, as pixel
//! y-axes do. A zero-width domain has no such map and is rejected instead of
//! dividing by zero.

use vstd::arithmetic::div_mod::{
    lemma_div_is_ordered, lemma_div_multiples_vanish, lemma_div_pos_is_pos,
};
use vstd::arithmetic::mul::{lemma_mul_inequality, lemma_mul_nonnegative};
use vstd::prelude::*;

use crate::error::ShotError;

verus! {

/// Magnitude bound on scale endpoints, matching the bound on parsed samples.
pub const SCALE_LIMIT: i64 = 1_000_000_000_000_000;

/// A reusable affine map from a domain interval onto a codomain interval.
///
/// Stored in normal order (`d_lo < d_hi`); a scale built from a reversed
/// domain is held with both intervals flipped, which is the same map.
#[derive(Clone, Copy, Debug, PartialEq, Eq, Structural)]
pub struct LinearScale {
    pub d_lo: i64,
    pub d_hi: i64,
    pub c_lo: i64,
    pub c_hi: i64,
}

/// All four interval endpoints are small enough for exact fixed-point
/// evaluation.
pub open spec fn bounded_endpoints(domain: (i64, i64), codomain: (i64, i64)) -> bool {
    &&& -SCALE_LIMIT <= domain.0 <= SCALE_LIMIT
    &&& -SCALE_LIMIT <= domain.1 <= SCALE_LIMIT
    &&& -SCALE_LIMIT <= codomain.0 <= SCALE_LIMIT
    &&& -SCALE_LIMIT <= codomain.1 <= SCALE_LIMIT
}

impl LinearScale {
    /// A usable scale: non-degenerate, normally ordered, within bounds.
    pub open spec fn wf(self) -> bool {
        &&& self.d_lo < self.d_hi
        &&& bounded_endpoints((self.d_lo, self.d_hi), (self.c_lo, self.c_hi))
    }

    /// Width of the codomain, regardless of its direction.
    pub open spec fn codomain_span(self) -> int {
        if self.c_hi >= self.c_lo {
            self.c_hi - self.c_lo
        } else {
            self.c_lo - self.c_hi
        }
    }

    /// The affine map at `x`: the domain offset, rescaled to the codomain
    /// width and laid off from `c_lo` in the codomain's direction.
    pub open spec fn scale_at(self, x: int) -> int {
        let q = ((x - self.d_lo) * self.codomain_span()) / (self.d_hi - self.d_lo);
        if self.c_hi >= self.c_lo {
            self.c_lo + q
        } else {
            self.c_lo - q
        }
    }

    /// `self` is the scale for `domain` onto `codomain`, stored in normal
    /// order.
    pub open spec fn represents(self, domain: (i64, i64), codomain: (i64, i64)) -> bool {
        if domain.0 < domain.1 {
            self == (LinearScale { d_lo: domain.0, d_hi: domain.1, c_lo: codomain.0, c_hi: codomain.1 })
        } else {
            self == (LinearScale { d_lo: domain.1, d_hi: domain.0, c_lo: codomain.1, c_hi: codomain.0 })
        }
    }

    /// Builds the scale mapping `domain` onto `codomain`. A zero-width
    /// domain admits no map and is reported as degenerate.
    pub fn new(domain: (i64, i64), codomain: (i64, i64)) -> (r: Result<LinearScale, ShotError>)
        ensures
            r is Ok <==> domain.0 != domain.1,
            r is Err ==> r->Err_0 == ShotError::DegenerateDomain,
            r is Ok ==> r->Ok_0.represents(domain, codomain),
            r is Ok && bounded_endpoints(domain, codomain) ==> r->Ok_0.wf(),
    {
        if domain.0 == domain.1 {
            Err(ShotError::DegenerateDomain)
        } else if domain.0 < domain.1 {
            Ok(LinearScale { d_lo: domain.0, d_hi: domain.1, c_lo: codomain.0, c_hi: codomain.1 })
        } else {
            Ok(LinearScale { d_lo: domain.1, d_hi: domain.0, c_lo: codomain.1, c_hi: codomain.0 })
        }
    }

    /// Evaluates the map at a domain value. The result always lies within
    /// the codomain interval.
    pub fn apply(&self, x: i64) -> (r: i64)
        requires
            self.wf(),
            self.d_lo <= x <= self.d_hi,
        ensures
            r == self.scale_at(x as int),
            self.c_lo <= self.c_hi ==> self.c_lo <= r <= self.c_hi,
            self.c_hi < self.c_lo ==> self.c_hi <= r <= self.c_lo,
    {
        let dx = x - self.d_lo;
        let den = self.d_hi - self.d_lo;
        let span = if self.c_hi >= self.c_lo {
            self.c_hi - self.c_lo
        } else {
            self.c_lo - self.c_hi
        };
        proof {
            assert(dx as int * span as int <= 4_000_000_000_000_000_000_000_000_000_000)
                by (nonlinear_arith)
                requires
                    0 <= dx as int <= 2_000_000_000_000_000,
                    0 <= span as int <= 2_000_000_000_000_000,
            ;
        }
        let num = (dx as u128) * (span as u128);
        let q_wide = num / (den as u128);
        proof {
            lemma_mul_nonnegative(dx as int, span as int);
            lemma_div_pos_is_pos(dx as int * span as int, den as int);
            lemma_mul_inequality(dx as int, den as int, span as int);
            lemma_div_is_ordered(dx as int * span as int, den as int * span as int, den as int);
            lemma_div_multiples_vanish(span as int, den as int);
            assert(den as int * span as int == span as int * den as int) by (nonlinear_arith);
            assert(num as int == dx as int * span as int) by (nonlinear_arith)
                requires
                    num == dx as u128 * span as u128,
                    0 <= dx,
                    0 <= span,
            ;
        }
        let q = q_wide as i64;
        if self.c_hi >= self.c_lo {
            self.c_lo + q
        } else {
            self.c_lo - q
        }
    }
}

/// A well-formed scale maps the ends of its stored domain exactly onto the
/// ends of its stored codomain.
pub proof fn lemma_scale_endpoints(sc: LinearScale)
    requires
        sc.wf(),
    ensures
        sc.scale_at(sc.d_lo as int) == sc.c_lo,
        sc.scale_at(sc.d_hi as int) == sc.c_hi,
{
    let den = sc.d_hi - sc.d_lo;
    let span = sc.codomain_span();
    assert((0int * span) == 0) by (nonlinear_arith);
    lemma_div_pos_is_pos(0, den);
    lemma_div_is_ordered(0 * span, 0, den);
    lemma_div_multiples_vanish(span, den);
    assert(den * span == span * den) by (nonlinear_arith);
}

/// Building a scale over a non-zero-width domain and evaluating it at the
/// domain's own ends yields exactly the matching codomain ends.
pub proof fn lemma_scale_maps_ends(sc: LinearScale, domain: (i64, i64), codomain: (i64, i64))
    requires
        sc.represents(domain, codomain),
        sc.wf(),
    ensures
        sc.scale_at(domain.0 as int) == codomain.0,
        sc.scale_at(domain.1 as int) == codomain.1,
{
    lemma_scale_endpoints(sc);
}

} // verus!
