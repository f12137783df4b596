//! Inclusive [min, max] interval of a non-empty numeric series.

use vstd::prelude::*;

use crate::error::ShotError;

verus! {

/// The inclusive value span of a series, in fixed-point units.
#[derive(Clone, Copy, Debug, PartialEq, Eq, Structural)]
pub struct Range {
    pub min: i64,
    pub max: i64,
}

impl Range {
    /// True when `self` is exactly the span of `s`: both bounds enclose every
    /// element and each bound is attained by at least one element.
    pub open spec fn spans(self, s: Seq<i64>) -> bool {
        &&& forall|i: int| 0 <= i < s.len() ==> self.min <= #[trigger] s[i] <= self.max
        &&& exists|i: int| 0 <= i < s.len() && s[i] == self.min
        &&& exists|i: int| 0 <= i < s.len() && s[i] == self.max
    }

    /// Scans the series once for its smallest and largest element. The input
    /// need not be sorted; ties yield `min == max`. An empty series has no
    /// meaningful range and is rejected.
    pub fn from_series(series: &Vec<i64>) -> (r: Result<Range, ShotError>)
        ensures
            r is Ok <==> series@.len() > 0,
            r is Err ==> r->Err_0 == ShotError::EmptySeries,
            r is Ok ==> r->Ok_0.spans(series@) && r->Ok_0.min <= r->Ok_0.max,
    {
        if series.len() == 0 {
            return Err(ShotError::EmptySeries);
        }

        let mut min: i64 = series[0];
        let mut max: i64 = series[0];
        let mut idx: usize = 1;
        while idx < series.len()
            invariant
                1 <= idx <= series@.len(),
                forall|i: int| 0 <= i < idx ==> min <= #[trigger] series@[i] <= max,
                exists|i: int| 0 <= i < idx && series@[i] == min,
                exists|i: int| 0 <= i < idx && series@[i] == max,
            decreases series@.len() - idx,
        {
            let value = series[idx];
            if value < min {
                min = value;
            } else if max < value {
                max = value;
            }
            idx += 1;
        }

        Ok(Range { min, max })
    }

    /// The two bounds as a `(min, max)` pair.
    pub fn as_tuple(&self) -> (r: (i64, i64))
        ensures
            r == (self.min, self.max),
    {
        (self.min, self.max)
    }
}

/// The bounds of a spanned series are unique: two ranges spanning the same
/// non-empty series are equal.
pub proof fn lemma_span_unique(a: Range, b: Range, s: Seq<i64>)
    requires
        a.spans(s),
        b.spans(s),
    ensures
        a == b,
{
}

} // verus!
