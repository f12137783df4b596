//! The recorded shot, in its raw string form and its parsed numeric form.
//!
//! `ShotDataJson` mirrors the recorded document: every series is a list of
//! decimal-string tokens grouped by sensor subsystem, and the scalar clock
//! fields are strings too. `ShotData` is the same record with every token
//! parsed: series in fixed point (millionths), clocks as integers. Parsing is
//! all-or-nothing: one bad token fails the whole shot.

use vstd::prelude::*;

use crate::error::ShotError;
use crate::sample::{
    digits_val, is_clock_token, is_sample_token, parse_clock, parse_sample, sample_value,
    SAMPLE_LIMIT,
};

verus! {

/// A recorded shot as it arrives: decimal-string tokens, grouped by sensor
/// subsystem, plus scalar metadata.
#[derive(Clone, Debug, PartialEq)]
pub struct ShotDataJson {
    pub version: String,
    pub clock: String,
    pub date: String,
    pub timestamp: String,
    pub elapsed: Vec<String>,
    pub pressure: PressureSectionJson,
    pub flow: FlowSectionJson,
    pub temperature: TemperatureSectionJson,
    pub totals: TotalsSectionJson,
    pub resistance: ResistanceSectionJson,
    pub state_change: Vec<String>,
}

#[derive(Clone, Debug, PartialEq)]
pub struct PressureSectionJson {
    pub pressure: Vec<String>,
    pub goal: Vec<String>,
}

#[derive(Clone, Debug, PartialEq)]
pub struct FlowSectionJson {
    pub flow: Vec<String>,
    pub by_weight: Vec<String>,
    pub by_weight_raw: Vec<String>,
    pub goal: Vec<String>,
}

#[derive(Clone, Debug, PartialEq)]
pub struct TemperatureSectionJson {
    pub basket: Vec<String>,
    pub mix: Vec<String>,
    pub goal: Vec<String>,
}

#[derive(Clone, Debug, PartialEq)]
pub struct TotalsSectionJson {
    pub weight: Vec<String>,
    pub water_dispensed: Vec<String>,
}

#[derive(Clone, Debug, PartialEq)]
pub struct ResistanceSectionJson {
    pub resistance: Vec<String>,
    pub by_weight: Vec<String>,
}

/// The parsed shot: every series in fixed point, the clocks as integers.
#[derive(Clone, Debug, PartialEq)]
pub struct ShotData {
    pub version: String,
    pub clock: u64,
    pub date: String,
    pub timestamp: u64,
    pub elapsed: Vec<i64>,
    pub pressure: PressureSection,
    pub flow: FlowSection,
    pub temperature: TemperatureSection,
    pub totals: TotalsSection,
    pub resistance: ResistanceSection,
    pub state_change: Vec<i64>,
}

#[derive(Clone, Debug, PartialEq)]
pub struct PressureSection {
    pub pressure: Vec<i64>,
    pub goal: Vec<i64>,
}

#[derive(Clone, Debug, PartialEq)]
pub struct FlowSection {
    pub flow: Vec<i64>,
    pub by_weight: Vec<i64>,
    pub by_weight_raw: Vec<i64>,
    pub goal: Vec<i64>,
}

#[derive(Clone, Debug, PartialEq)]
pub struct TemperatureSection {
    pub basket: Vec<i64>,
    pub mix: Vec<i64>,
    pub goal: Vec<i64>,
}

#[derive(Clone, Debug, PartialEq)]
pub struct TotalsSection {
    pub weight: Vec<i64>,
    pub water_dispensed: Vec<i64>,
}

#[derive(Clone, Debug, PartialEq)]
pub struct ResistanceSection {
    pub resistance: Vec<i64>,
    pub by_weight: Vec<i64>,
}

/// Every token of the list is a well-formed series token.
pub open spec fn tokens_ok(src: Seq<String>) -> bool {
    forall|i: int| 0 <= i < src.len() ==> is_sample_token(#[trigger] src[i]@)
}

/// `dst` is `src` with every token parsed to fixed point.
pub open spec fn parsed_series(dst: Seq<i64>, src: Seq<String>) -> bool {
    &&& dst.len() == src.len()
    &&& forall|i: int| 0 <= i < src.len() ==> #[trigger] dst[i] == sample_value(src[i]@)
}

impl ShotDataJson {
    /// Every token of the raw shot, series and clocks alike, is well formed.
    pub open spec fn parseable(self) -> bool {
        &&& is_clock_token(self.clock@)
        &&& is_clock_token(self.timestamp@)
        &&& tokens_ok(self.elapsed@)
        &&& tokens_ok(self.pressure.pressure@)
        &&& tokens_ok(self.pressure.goal@)
        &&& tokens_ok(self.flow.flow@)
        &&& tokens_ok(self.flow.by_weight@)
        &&& tokens_ok(self.flow.by_weight_raw@)
        &&& tokens_ok(self.flow.goal@)
        &&& tokens_ok(self.temperature.basket@)
        &&& tokens_ok(self.temperature.mix@)
        &&& tokens_ok(self.temperature.goal@)
        &&& tokens_ok(self.totals.weight@)
        &&& tokens_ok(self.totals.water_dispensed@)
        &&& tokens_ok(self.resistance.resistance@)
        &&& tokens_ok(self.resistance.by_weight@)
        &&& tokens_ok(self.state_change@)
    }
}

impl ShotData {
    /// `self` is the parse of `raw`, token for token.
    pub open spec fn models(self, raw: ShotDataJson) -> bool {
        &&& self.version@ == raw.version@
        &&& self.clock == digits_val(raw.clock@)
        &&& self.date@ == raw.date@
        &&& self.timestamp == digits_val(raw.timestamp@)
        &&& parsed_series(self.elapsed@, raw.elapsed@)
        &&& parsed_series(self.pressure.pressure@, raw.pressure.pressure@)
        &&& parsed_series(self.pressure.goal@, raw.pressure.goal@)
        &&& parsed_series(self.flow.flow@, raw.flow.flow@)
        &&& parsed_series(self.flow.by_weight@, raw.flow.by_weight@)
        &&& parsed_series(self.flow.by_weight_raw@, raw.flow.by_weight_raw@)
        &&& parsed_series(self.flow.goal@, raw.flow.goal@)
        &&& parsed_series(self.temperature.basket@, raw.temperature.basket@)
        &&& parsed_series(self.temperature.mix@, raw.temperature.mix@)
        &&& parsed_series(self.temperature.goal@, raw.temperature.goal@)
        &&& parsed_series(self.totals.weight@, raw.totals.weight@)
        &&& parsed_series(self.totals.water_dispensed@, raw.totals.water_dispensed@)
        &&& parsed_series(self.resistance.resistance@, raw.resistance.resistance@)
        &&& parsed_series(self.resistance.by_weight@, raw.resistance.by_weight@)
        &&& parsed_series(self.state_change@, raw.state_change@)
    }

    /// One sample per elapsed tick: every per-sample series is as long as the
    /// shared `elapsed` axis. Holds of every well-formed recording.
    pub open spec fn wf(self) -> bool {
        &&& self.pressure.pressure@.len() == self.elapsed@.len()
        &&& self.pressure.goal@.len() == self.elapsed@.len()
        &&& self.flow.flow@.len() == self.elapsed@.len()
        &&& self.flow.by_weight@.len() == self.elapsed@.len()
        &&& self.flow.by_weight_raw@.len() == self.elapsed@.len()
        &&& self.flow.goal@.len() == self.elapsed@.len()
        &&& self.temperature.basket@.len() == self.elapsed@.len()
        &&& self.temperature.mix@.len() == self.elapsed@.len()
        &&& self.temperature.goal@.len() == self.elapsed@.len()
        &&& self.totals.weight@.len() == self.elapsed@.len()
        &&& self.totals.water_dispensed@.len() == self.elapsed@.len()
        &&& self.resistance.resistance@.len() == self.elapsed@.len()
        &&& self.resistance.by_weight@.len() == self.elapsed@.len()
        &&& self.state_change@.len() == self.elapsed@.len()
    }

    /// Parses a raw shot into its numeric form.
    ///
    /// Succeeds exactly when every token of the raw shot is well formed;
    /// there is no partial, best-effort shot.
    pub fn from_json(raw: &ShotDataJson) -> (r: Result<ShotData, ShotError>)
        ensures
            r is Ok <==> raw.parseable(),
            r is Ok ==> r->Ok_0.models(*raw),
            r is Err ==> r->Err_0 == ShotError::MalformedSample,
    {
        let clock = match parse_clock(raw.clock.as_str()) {
            Ok(v) => v,
            Err(e) => return Err(e),
        };
        let timestamp = match parse_clock(raw.timestamp.as_str()) {
            Ok(v) => v,
            Err(e) => return Err(e),
        };
        let elapsed = match to_fixed(&raw.elapsed) {
            Ok(v) => v,
            Err(e) => return Err(e),
        };
        let pressure = match to_fixed(&raw.pressure.pressure) {
            Ok(v) => v,
            Err(e) => return Err(e),
        };
        let pressure_goal = match to_fixed(&raw.pressure.goal) {
            Ok(v) => v,
            Err(e) => return Err(e),
        };
        let flow = match to_fixed(&raw.flow.flow) {
            Ok(v) => v,
            Err(e) => return Err(e),
        };
        let flow_by_weight = match to_fixed(&raw.flow.by_weight) {
            Ok(v) => v,
            Err(e) => return Err(e),
        };
        let flow_by_weight_raw = match to_fixed(&raw.flow.by_weight_raw) {
            Ok(v) => v,
            Err(e) => return Err(e),
        };
        let flow_goal = match to_fixed(&raw.flow.goal) {
            Ok(v) => v,
            Err(e) => return Err(e),
        };
        let basket = match to_fixed(&raw.temperature.basket) {
            Ok(v) => v,
            Err(e) => return Err(e),
        };
        let mix = match to_fixed(&raw.temperature.mix) {
            Ok(v) => v,
            Err(e) => return Err(e),
        };
        let temperature_goal = match to_fixed(&raw.temperature.goal) {
            Ok(v) => v,
            Err(e) => return Err(e),
        };
        let weight = match to_fixed(&raw.totals.weight) {
            Ok(v) => v,
            Err(e) => return Err(e),
        };
        let water_dispensed = match to_fixed(&raw.totals.water_dispensed) {
            Ok(v) => v,
            Err(e) => return Err(e),
        };
        let resistance = match to_fixed(&raw.resistance.resistance) {
            Ok(v) => v,
            Err(e) => return Err(e),
        };
        let resistance_by_weight = match to_fixed(&raw.resistance.by_weight) {
            Ok(v) => v,
            Err(e) => return Err(e),
        };
        let state_change = match to_fixed(&raw.state_change) {
            Ok(v) => v,
            Err(e) => return Err(e),
        };
        Ok(ShotData {
            version: raw.version.clone(),
            clock,
            date: raw.date.clone(),
            timestamp,
            elapsed,
            pressure: PressureSection { pressure, goal: pressure_goal },
            flow: FlowSection {
                flow,
                by_weight: flow_by_weight,
                by_weight_raw: flow_by_weight_raw,
                goal: flow_goal,
            },
            temperature: TemperatureSection {
                basket,
                mix,
                goal: temperature_goal,
            },
            totals: TotalsSection { weight, water_dispensed },
            resistance: ResistanceSection {
                resistance,
                by_weight: resistance_by_weight,
            },
            state_change,
        })
    }
}

/// Parses a list of series tokens into fixed point, all or nothing.
pub fn to_fixed(src: &Vec<String>) -> (r: Result<Vec<i64>, ShotError>)
    ensures
        r is Ok <==> tokens_ok(src@),
        r is Ok ==> parsed_series(r->Ok_0@, src@),
        r is Ok ==> forall|i: int|
            0 <= i < src@.len() ==> -SAMPLE_LIMIT < #[trigger] r->Ok_0@[i] < SAMPLE_LIMIT,
        r is Err ==> r->Err_0 == ShotError::MalformedSample,
{
    let mut out: Vec<i64> = Vec::new();
    let mut i: usize = 0;
    while i < src.len()
        invariant
            0 <= i <= src@.len(),
            out@.len() == i,
            forall|j: int| 0 <= j < i ==> is_sample_token(#[trigger] src@[j]@),
            forall|j: int| 0 <= j < i ==> #[trigger] out@[j] == sample_value(src@[j]@),
            forall|j: int| 0 <= j < i ==> -SAMPLE_LIMIT < #[trigger] out@[j] < SAMPLE_LIMIT,
        decreases src@.len() - i,
    {
        let v = match parse_sample(src[i].as_str()) {
            Ok(v) => v,
            Err(e) => return Err(e),
        };
        out.push(v);
        i += 1;
    }
    Ok(out)
}

} // verus!
