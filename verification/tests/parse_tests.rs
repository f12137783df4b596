use shot_overlay::chart_data::{ChannelId, ChartData};
use shot_overlay::error::ShotError;
use shot_overlay::sample::{parse_clock, parse_sample};
use shot_overlay::shot_data::{
    FlowSectionJson, PressureSection, PressureSectionJson, ResistanceSection,
    ResistanceSectionJson, ShotData, ShotDataJson, TemperatureSection, TemperatureSectionJson,
    TotalsSection, TotalsSectionJson, FlowSection,
};

#[test]
fn test_parse_sample_values() {
    assert_eq!(parse_sample("0.0"), Ok(0));
    assert_eq!(parse_sample("0.044"), Ok(44_000));
    assert_eq!(parse_sample("0.268"), Ok(268_000));
    assert_eq!(parse_sample("-1.0"), Ok(-1_000_000));
    assert_eq!(parse_sample("7.1875"), Ok(7_187_500));
    assert_eq!(parse_sample("87.17"), Ok(87_170_000));
    assert_eq!(parse_sample("10000000.0"), Ok(10_000_000_000_000));
    assert_eq!(parse_sample("3"), Ok(3_000_000));
    assert_eq!(parse_sample("-0.5"), Ok(-500_000));
}

#[test]
fn test_parse_sample_truncates_beyond_six_fraction_digits() {
    assert_eq!(parse_sample("0.08161010742187501"), Ok(81_610));
    assert_eq!(parse_sample("0.181060791015625"), Ok(181_060));
    assert_eq!(parse_sample("1.2345678"), Ok(1_234_567));
}

#[test]
fn test_parse_sample_rejects_malformed_tokens() {
    for bad in ["", "-", ".", "abc", "1.", ".5", "1.2.3", "1a", "--1", "1..2", " 1", "1 "] {
        assert_eq!(parse_sample(bad), Err(ShotError::MalformedSample), "token {:?}", bad);
    }
}

#[test]
fn test_parse_sample_rejects_oversized_integer_part() {
    assert_eq!(parse_sample("999999999.0"), Ok(999_999_999_000_000));
    assert_eq!(parse_sample("1000000000.0"), Err(ShotError::MalformedSample));
}

#[test]
fn test_parse_clock_values() {
    assert_eq!(parse_clock("1685582363"), Ok(1_685_582_363));
    assert_eq!(parse_clock("0"), Ok(0));
    assert_eq!(parse_clock("18446744073709551615"), Ok(u64::MAX));
}

#[test]
fn test_parse_clock_rejects_malformed_tokens() {
    for bad in ["", "-1", "1.5", "12a", "18446744073709551616"] {
        assert_eq!(parse_clock(bad), Err(ShotError::MalformedSample), "token {:?}", bad);
    }
}

fn strings(tokens: &[&str]) -> Vec<String> {
    tokens.iter().map(|t| t.to_string()).collect()
}

fn raw_shot() -> ShotDataJson {
    ShotDataJson {
        version: "2".to_string(),
        clock: "1685582363".to_string(),
        date: "Thu Jun 01 10:19:23 JST 2023".to_string(),
        timestamp: "1685582363".to_string(),
        elapsed: strings(&["0.0", "0.044", "0.268"]),
        pressure: PressureSectionJson {
            pressure: strings(&["0.0", "0.0", "0.0"]),
            goal: strings(&["-1.0", "-1.0", "-1.0"]),
        },
        flow: FlowSectionJson {
            flow: strings(&["0.0", "3.26", "3.98"]),
            by_weight: strings(&["0.0", "0.0", "0.0"]),
            by_weight_raw: strings(&["0.0", "0.0", "0.0"]),
            goal: strings(&["-1.0", "6.75", "7.1875"]),
        },
        temperature: TemperatureSectionJson {
            basket: strings(&["87.0", "85.07", "85.37"]),
            mix: strings(&["87.0", "87.17", "87.14"]),
            goal: strings(&["87.0", "87.0", "87.0"]),
        },
        totals: TotalsSectionJson {
            weight: strings(&["0.0", "0.0", "0.0"]),
            water_dispensed: strings(&["0.0", "0.08161010742187501", "0.181060791015625"]),
        },
        resistance: ResistanceSectionJson {
            resistance: strings(&["0.0", "0.0", "0.0"]),
            by_weight: strings(&["0.0", "0.0", "0.0"]),
        },
        state_change: strings(&["0.0", "10000000.0", "10000000.0"]),
    }
}

#[test]
fn test_convert_shot_data_from_json() {
    let json = raw_shot();
    let actual: ShotData = ShotData::from_json(&json).unwrap();
    let expected = ShotData {
        version: "2".to_string(),
        clock: 1685582363,
        date: "Thu Jun 01 10:19:23 JST 2023".to_string(),
        timestamp: 1685582363,
        elapsed: vec![0, 44_000, 268_000],
        pressure: PressureSection {
            pressure: vec![0, 0, 0],
            goal: vec![-1_000_000, -1_000_000, -1_000_000],
        },
        flow: FlowSection {
            flow: vec![0, 3_260_000, 3_980_000],
            by_weight: vec![0, 0, 0],
            by_weight_raw: vec![0, 0, 0],
            goal: vec![-1_000_000, 6_750_000, 7_187_500],
        },
        temperature: TemperatureSection {
            basket: vec![87_000_000, 85_070_000, 85_370_000],
            mix: vec![87_000_000, 87_170_000, 87_140_000],
            goal: vec![87_000_000, 87_000_000, 87_000_000],
        },
        totals: TotalsSection {
            weight: vec![0, 0, 0],
            water_dispensed: vec![0, 81_610, 181_060],
        },
        resistance: ResistanceSection {
            resistance: vec![0, 0, 0],
            by_weight: vec![0, 0, 0],
        },
        state_change: vec![0, 10_000_000_000_000, 10_000_000_000_000],
    };
    assert_eq!(actual, expected);
}

#[test]
fn test_convert_rejects_bad_token() {
    let mut json = raw_shot();
    json.temperature.mix[1] = "87.x7".to_string();
    assert_eq!(ShotData::from_json(&json), Err(ShotError::MalformedSample));
}

#[test]
fn test_convert_rejects_bad_clock() {
    let mut json = raw_shot();
    json.clock = "later".to_string();
    assert_eq!(ShotData::from_json(&json), Err(ShotError::MalformedSample));
}

#[test]
fn test_round_trip_parse_and_extract_twice() {
    let first = ShotData::from_json(&raw_shot()).unwrap();
    let second = ShotData::from_json(&raw_shot()).unwrap();
    assert_eq!(first, second);
    let once = ChartData::extract(&first, ChannelId::TempBasket).unwrap();
    let twice = ChartData::extract(&second, ChannelId::TempBasket).unwrap();
    assert_eq!(once, twice);
}
