//! Projection of a parsed shot into one chart-ready channel.
//!
//! A channel pairs the shared `elapsed` time axis with one named numeric
//! series of the shot and carries that series' value range. The pairing is a
//! pure function of the shot, so extracting a channel twice yields the same
//! data.

use vstd::prelude::*;

use crate::error::ShotError;
use crate::range::Range;
use crate::shot_data::{ShotData, ShotDataJson};

verus! {

/// The named scalar signals a shot can be charted by.
#[derive(Clone, Copy, Debug, PartialEq, Eq, Structural)]
pub enum ChannelId {
    Pressure,
    TempBasket,
    TempMix,
    Flow,
    FlowByWeight,
}

/// One sample of a channel series: a value at a time, or a recorded gap that
/// still occupies its tick. Times and values are fixed point (millionths).
#[derive(Clone, Copy, Debug, PartialEq)]
pub enum DataPoint {
    NoData(i64),
    Present((i64, i64)),
}

impl DataPoint {
    /// The time of the sample, whether or not a value was recorded.
    pub fn t(&self) -> (r: i64)
        ensures
            r == self.spec_t(),
    {
        match self {
            DataPoint::NoData(t) => *t,
            DataPoint::Present((t, _)) => *t,
        }
    }

    /// The time of the sample.
    pub open spec fn spec_t(self) -> i64 {
        match self {
            DataPoint::NoData(t) => t,
            DataPoint::Present((t, _)) => t,
        }
    }
}

/// The rendering-ready form of one channel: its point series and the value
/// range of the underlying samples.
#[derive(Clone, Debug, PartialEq)]
pub struct ChartData {
    pub series: Vec<DataPoint>,
    pub range: Range,
}

/// The series a channel projects out of the shot.
pub open spec fn channel_series(shot: ShotData, channel: ChannelId) -> Seq<i64> {
    match channel {
        ChannelId::Pressure => shot.pressure.pressure@,
        ChannelId::TempBasket => shot.temperature.basket@,
        ChannelId::TempMix => shot.temperature.mix@,
        ChannelId::Flow => shot.flow.flow@,
        ChannelId::FlowByWeight => shot.flow.by_weight@,
    }
}

/// Times and values paired index by index, one point per shared tick. The
/// recorded format has no missing-sample marker, so every point is `Present`.
pub open spec fn paired(ts: Seq<i64>, vs: Seq<i64>) -> Seq<DataPoint> {
    Seq::new(
        if ts.len() <= vs.len() {
            ts.len()
        } else {
            vs.len()
        },
        |i: int| DataPoint::Present((ts[i], vs[i])),
    )
}

impl ChartData {
    /// `self` is exactly the chart data of `channel` in `shot`.
    pub open spec fn extracted_from(self, shot: ShotData, channel: ChannelId) -> bool {
        &&& self.series@ == paired(shot.elapsed@, channel_series(shot, channel))
        &&& self.range.spans(channel_series(shot, channel))
    }

    /// Projects one channel out of a shot: `(elapsed[i], channel[i])` pairs
    /// plus the channel's value range. Fails only when the channel series is
    /// empty, since an empty series has no range.
    pub fn extract(shot: &ShotData, channel: ChannelId) -> (r: Result<ChartData, ShotError>)
        ensures
            r is Ok <==> channel_series(*shot, channel).len() > 0,
            r is Err ==> r->Err_0 == ShotError::EmptySeries,
            r is Ok ==> r->Ok_0.extracted_from(*shot, channel),
            r is Ok && shot.wf() ==> r->Ok_0.series@.len() == shot.elapsed@.len(),
    {
        let values: &Vec<i64> = match channel {
            ChannelId::Pressure => &shot.pressure.pressure,
            ChannelId::TempBasket => &shot.temperature.basket,
            ChannelId::TempMix => &shot.temperature.mix,
            ChannelId::Flow => &shot.flow.flow,
            ChannelId::FlowByWeight => &shot.flow.by_weight,
        };
        let range = match Range::from_series(values) {
            Ok(rg) => rg,
            Err(e) => return Err(e),
        };
        let n = if shot.elapsed.len() <= values.len() {
            shot.elapsed.len()
        } else {
            values.len()
        };
        let mut series: Vec<DataPoint> = Vec::new();
        let mut i: usize = 0;
        while i < n
            invariant
                0 <= i <= n,
                n == paired(shot.elapsed@, values@).len(),
                n <= shot.elapsed@.len(),
                n <= values@.len(),
                series@.len() == i,
                forall|j: int| 0 <= j < i ==> #[trigger] series@[j] == paired(
                    shot.elapsed@,
                    values@,
                )[j],
            decreases n - i,
        {
            series.push(DataPoint::Present((shot.elapsed[i], values[i])));
            i += 1;
        }
        proof {
            assert(series@ =~= paired(shot.elapsed@, values@));
        }
        Ok(ChartData { series, range })
    }

    /// The pressure channel of a shot.
    pub fn for_pressure(data: &ShotData) -> (r: Result<ChartData, ShotError>)
        ensures
            r is Ok <==> data.pressure.pressure@.len() > 0,
            r is Err ==> r->Err_0 == ShotError::EmptySeries,
            r is Ok ==> r->Ok_0.extracted_from(*data, ChannelId::Pressure),
    {
        Self::extract(data, ChannelId::Pressure)
    }

    /// The basket-temperature channel of a shot.
    pub fn for_temp_basket(data: &ShotData) -> (r: Result<ChartData, ShotError>)
        ensures
            r is Ok <==> data.temperature.basket@.len() > 0,
            r is Err ==> r->Err_0 == ShotError::EmptySeries,
            r is Ok ==> r->Ok_0.extracted_from(*data, ChannelId::TempBasket),
    {
        Self::extract(data, ChannelId::TempBasket)
    }
}

/// Extraction is deterministic: two chart data extracted from the same shot
/// and channel agree, point series and range alike.
pub proof fn lemma_extract_deterministic(
    a: ChartData,
    b: ChartData,
    shot: ShotData,
    channel: ChannelId,
)
    requires
        a.extracted_from(shot, channel),
        b.extracted_from(shot, channel),
    ensures
        a.series@ == b.series@,
        a.range == b.range,
{
    crate::range::lemma_span_unique(a.range, b.range, channel_series(shot, channel));
}

/// Loading is deterministic too: two parses of the same raw shot carry the
/// same time axis and the same series for every channel.
pub proof fn lemma_parse_deterministic(s1: ShotData, s2: ShotData, raw: ShotDataJson)
    requires
        s1.models(raw),
        s2.models(raw),
    ensures
        s1.elapsed@ == s2.elapsed@,
        forall|c: ChannelId| channel_series(s1, c) == channel_series(s2, c),
{
    assert(s1.elapsed@ =~= s2.elapsed@);
    assert forall|c: ChannelId| channel_series(s1, c) == channel_series(s2, c) by {
        assert(channel_series(s1, c) =~= channel_series(s2, c));
    }
}

/// Round trip: parsing a raw shot and then extracting a channel, done twice
/// over, yields identical chart data, point series and range alike.
pub proof fn lemma_round_trip_deterministic(
    raw: ShotDataJson,
    s1: ShotData,
    s2: ShotData,
    d1: ChartData,
    d2: ChartData,
    channel: ChannelId,
)
    requires
        s1.models(raw),
        s2.models(raw),
        d1.extracted_from(s1, channel),
        d2.extracted_from(s2, channel),
    ensures
        d1.series@ == d2.series@,
        d1.range == d2.range,
{
    lemma_parse_deterministic(s1, s2, raw);
    assert(paired(s1.elapsed@, channel_series(s1, channel)) =~= paired(
        s2.elapsed@,
        channel_series(s2, channel),
    ));
    crate::range::lemma_span_unique(d1.range, d2.range, channel_series(s1, channel));
}

} // verus!
