//! The earlier, pressure-only variant of the chart projection.
//!
//! Kept alongside [`crate::chart_data`] because hosts of the first chart
//! rendering still build it; it pairs the time axis with the pressure series
//! exactly as the general extractor does.

use vstd::prelude::*;

use crate::error::ShotError;
use crate::range::Range;
use crate::shot_data::ShotData;

verus! {

/// One sample of the pressure series: a value at a time, or a recorded gap.
#[derive(Clone, Copy, Debug, PartialEq)]
pub enum DataPoint {
    NoData(i64),
    Present((i64, i64)),
}

impl DataPoint {
    /// The time of the sample, whether or not a value was recorded.
    pub fn t(&self) -> (r: i64)
        ensures
            r == self.spec_t(),
    {
        match self {
            DataPoint::NoData(t) => *t,
            DataPoint::Present((t, _)) => *t,
        }
    }

    /// The time of the sample.
    pub open spec fn spec_t(self) -> i64 {
        match self {
            DataPoint::NoData(t) => t,
            DataPoint::Present((t, _)) => t,
        }
    }
}

/// The pressure channel, ready to draw: its point series and value range.
#[derive(Clone, Debug, PartialEq)]
pub struct PressureData {
    pub series: Vec<DataPoint>,
    pub range: Range,
}

/// Times and pressures paired index by index.
pub open spec fn paired(ts: Seq<i64>, vs: Seq<i64>) -> Seq<DataPoint> {
    Seq::new(
        if ts.len() <= vs.len() {
            ts.len()
        } else {
            vs.len()
        },
        |i: int| DataPoint::Present((ts[i], vs[i])),
    )
}

impl PressureData {
    /// Pairs `(elapsed[i], pressure[i])` for all `i` and computes the
    /// pressure range. Fails only when the pressure series is empty.
    pub fn from_shot_data(data: &ShotData) -> (r: Result<PressureData, ShotError>)
        ensures
            r is Ok <==> data.pressure.pressure@.len() > 0,
            r is Err ==> r->Err_0 == ShotError::EmptySeries,
            r is Ok ==> r->Ok_0.series@ == paired(data.elapsed@, data.pressure.pressure@),
            r is Ok ==> r->Ok_0.range.spans(data.pressure.pressure@),
    {
        let range = match Range::from_series(&data.pressure.pressure) {
            Ok(rg) => rg,
            Err(e) => return Err(e),
        };
        let n = if data.elapsed.len() <= data.pressure.pressure.len() {
            data.elapsed.len()
        } else {
            data.pressure.pressure.len()
        };
        let mut series: Vec<DataPoint> = Vec::new();
        let mut i: usize = 0;
        while i < n
            invariant
                0 <= i <= n,
                n == paired(data.elapsed@, data.pressure.pressure@).len(),
                n <= data.elapsed@.len(),
                n <= data.pressure.pressure@.len(),
                series@.len() == i,
                forall|j: int| 0 <= j < i ==> #[trigger] series@[j] == paired(
                    data.elapsed@,
                    data.pressure.pressure@,
                )[j],
            decreases n - i,
        {
            series.push(DataPoint::Present((data.elapsed[i], data.pressure.pressure[i])));
            i += 1;
        }
        proof {
            assert(series@ =~= paired(data.elapsed@, data.pressure.pressure@));
        }
        Ok(PressureData { series, range })
    }
}

} // verus!
