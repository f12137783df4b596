use shot_overlay::chart_data::{ChannelId, ChartData, DataPoint};
use shot_overlay::error::ShotError;
use shot_overlay::pressure_data;
use shot_overlay::pressure_data::PressureData;
use shot_overlay::range::Range;
use shot_overlay::shot_data::{
    FlowSection, PressureSection, ResistanceSection, ShotData, TemperatureSection, TotalsSection,
};

fn empty_shot() -> ShotData {
    ShotData {
        version: String::new(),
        clock: 0,
        date: String::new(),
        timestamp: 0,
        elapsed: vec![],
        pressure: PressureSection {
            pressure: vec![],
            goal: vec![],
        },
        flow: FlowSection {
            flow: vec![],
            by_weight: vec![],
            by_weight_raw: vec![],
            goal: vec![],
        },
        temperature: TemperatureSection {
            basket: vec![],
            mix: vec![],
            goal: vec![],
        },
        totals: TotalsSection {
            weight: vec![],
            water_dispensed: vec![],
        },
        resistance: ResistanceSection {
            resistance: vec![],
            by_weight: vec![],
        },
        state_change: vec![],
    }
}

#[test]
fn test_chart_data_for_pressure() {
    // elapsed 0.0, 0.044, 0.268 and pressure 0.0, 0.03, 0.22 in millionths.
    let mut data = empty_shot();
    data.elapsed = vec![0, 44_000, 268_000];
    data.pressure.pressure = vec![0, 30_000, 220_000];
    let actual = ChartData::for_pressure(&data).unwrap();
    let expected = ChartData {
        series: vec![
            DataPoint::Present((0, 0)),
            DataPoint::Present((44_000, 30_000)),
            DataPoint::Present((268_000, 220_000)),
        ],
        range: Range {
            min: 0,
            max: 220_000,
        },
    };
    assert_eq!(actual, expected);
}

#[test]
fn test_pressure_data_from_shot_data() {
    let mut data = empty_shot();
    data.elapsed = vec![0, 44_000, 268_000];
    data.pressure.pressure = vec![0, 30_000, 220_000];
    let actual = PressureData::from_shot_data(&data).unwrap();
    let expected = PressureData {
        series: vec![
            pressure_data::DataPoint::Present((0, 0)),
            pressure_data::DataPoint::Present((44_000, 30_000)),
            pressure_data::DataPoint::Present((268_000, 220_000)),
        ],
        range: Range {
            min: 0,
            max: 220_000,
        },
    };
    assert_eq!(actual, expected);
}

fn full_shot() -> ShotData {
    let mut data = empty_shot();
    data.elapsed = vec![0, 44_000, 268_000];
    data.pressure.pressure = vec![0, 30_000, 220_000];
    data.pressure.goal = vec![-1_000_000; 3];
    data.flow.flow = vec![0, 3_260_000, 3_980_000];
    data.flow.by_weight = vec![0, 100, 200];
    data.flow.by_weight_raw = vec![0, 0, 0];
    data.flow.goal = vec![-1_000_000, 6_750_000, 7_187_500];
    data.temperature.basket = vec![87_000_000, 85_070_000, 85_370_000];
    data.temperature.mix = vec![87_000_000, 87_170_000, 87_140_000];
    data.temperature.goal = vec![87_000_000; 3];
    data.totals.weight = vec![0, 0, 0];
    data.totals.water_dispensed = vec![0, 81_610, 181_060];
    data.resistance.resistance = vec![0, 0, 0];
    data.resistance.by_weight = vec![0, 0, 0];
    data.state_change = vec![0, 10_000_000_000_000, 10_000_000_000_000];
    data
}

#[test]
fn test_extract_series_length_matches_elapsed() {
    let data = full_shot();
    let channels = [
        ChannelId::Pressure,
        ChannelId::TempBasket,
        ChannelId::TempMix,
        ChannelId::Flow,
        ChannelId::FlowByWeight,
    ];
    for channel in channels {
        let chart = ChartData::extract(&data, channel).unwrap();
        assert_eq!(chart.series.len(), data.elapsed.len());
    }
}

#[test]
fn test_extract_temp_basket_values() {
    let data = full_shot();
    let chart = ChartData::for_temp_basket(&data).unwrap();
    assert_eq!(
        chart.series,
        vec![
            DataPoint::Present((0, 87_000_000)),
            DataPoint::Present((44_000, 85_070_000)),
            DataPoint::Present((268_000, 85_370_000)),
        ]
    );
    assert_eq!(
        chart.range,
        Range {
            min: 85_070_000,
            max: 87_000_000,
        }
    );
}

#[test]
fn test_extract_empty_channel_fails() {
    let data = empty_shot();
    assert_eq!(
        ChartData::extract(&data, ChannelId::Flow),
        Err(ShotError::EmptySeries)
    );
}

#[test]
fn test_extract_twice_is_identical() {
    let data = full_shot();
    let once = ChartData::extract(&data, ChannelId::Pressure).unwrap();
    let twice = ChartData::extract(&data, ChannelId::Pressure).unwrap();
    assert_eq!(once, twice);
}

#[test]
fn test_data_point_time() {
    assert_eq!(DataPoint::Present((44_000, 30_000)).t(), 44_000);
    assert_eq!(DataPoint::NoData(268_000).t(), 268_000);
}
