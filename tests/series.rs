use fjordgard::current::CurrentVariable;
use fjordgard::daily::DailyVariable;
use fjordgard::error::DecodeError;
use fjordgard::hourly::HourlyVariable;
use fjordgard::series::{decode_current, decode_series, decode_units, Field};

fn texts(xs: &[&str]) -> Field<f64> {
    Field::Texts(xs.iter().map(|s| s.to_string()).collect())
}

fn entry(k: &str, f: Field<f64>) -> (String, Field<f64>) {
    (k.to_string(), f)
}

#[test]
fn hourly_end_to_end() {
    let fields = vec![
        entry("time", texts(&["2024-01-01T00:00", "2024-01-01T01:00"])),
        entry("temperature_2m", Field::Numbers(vec![5.1, 5.4])),
        entry("temperature_850hPa", Field::Numbers(vec![-2.0, -2.1])),
    ];
    let d = decode_series::<HourlyVariable, f64>(fields).unwrap();
    assert_eq!(d.time, vec!["2024-01-01T00:00".to_string(), "2024-01-01T01:00".to_string()]);
    assert_eq!(d.data.len(), 2);
    assert_eq!(d.data.get(&HourlyVariable::Temperature2m), Some(&vec![5.1, 5.4]));
    assert_eq!(
        d.data.get(&HourlyVariable::TemperaturePressureLevel(850)),
        Some(&vec![-2.0, -2.1])
    );
    assert_eq!(d.data.get(&HourlyVariable::Time), None);
}

#[test]
fn units_keep_time_but_samples_do_not() {
    let units = vec![
        entry("time", Field::Text("iso8601".to_string())),
        entry("temperature_2m", Field::Text("°C".to_string())),
    ];
    let u = decode_units::<HourlyVariable, f64>(units).unwrap();
    assert_eq!(u.len(), 2);
    assert_eq!(u.get(&HourlyVariable::Time), Some(&"iso8601".to_string()));
    assert_eq!(u.get(&HourlyVariable::Temperature2m), Some(&"°C".to_string()));

    let fields = vec![
        entry("time", texts(&["2024-01-01T00:00"])),
        entry("temperature_2m", Field::Numbers(vec![1.0])),
    ];
    let d = decode_series::<HourlyVariable, f64>(fields).unwrap();
    assert!(!d.data.contains_key(&HourlyVariable::Time));
    assert_eq!(d.data.len(), 1);
}

#[test]
fn length_mismatch_fails() {
    let fields = vec![
        entry("time", texts(&["2024-01-01T00:00", "2024-01-01T01:00"])),
        entry("temperature_2m", Field::Numbers(vec![5.1, 5.4, 5.6])),
    ];
    assert!(matches!(
        decode_series::<HourlyVariable, f64>(fields),
        Err(DecodeError::LengthMismatch)
    ));
}

#[test]
fn missing_time_axis_fails() {
    let fields = vec![entry("temperature_2m", Field::Numbers(vec![5.1]))];
    assert!(matches!(
        decode_series::<HourlyVariable, f64>(fields),
        Err(DecodeError::TimeAxisMissing)
    ));
    let empty: Vec<(String, Field<f64>)> = Vec::new();
    assert!(matches!(
        decode_series::<DailyVariable, f64>(empty),
        Err(DecodeError::TimeAxisMissing)
    ));
}

#[test]
fn unknown_key_fails_the_whole_block() {
    let fields = vec![
        entry("time", texts(&["2024-01-01"])),
        entry("temperature_2m_max", Field::Numbers(vec![3.0])),
        entry("bogus", Field::Numbers(vec![1.0])),
    ];
    match decode_series::<DailyVariable, f64>(fields) {
        Err(DecodeError::UnknownVariable(k)) => assert_eq!(k, "bogus"),
        _ => panic!("expected an unknown variable"),
    }
    let fields = vec![
        entry("time", texts(&["2024-01-01T00:00"])),
        entry("temperature_abchPa", Field::Numbers(vec![1.0])),
    ];
    assert!(matches!(
        decode_series::<HourlyVariable, f64>(fields),
        Err(DecodeError::InvalidPressureLevel)
    ));
}

#[test]
fn wrong_shapes_fail() {
    let fields = vec![entry("time", Field::Text("2024-01-01".to_string()))];
    match decode_series::<DailyVariable, f64>(fields) {
        Err(DecodeError::UnexpectedValue(k)) => assert_eq!(k, "time"),
        _ => panic!("expected an unexpected value"),
    }
    let fields = vec![
        entry("time", texts(&["2024-01-01"])),
        entry("sunrise", Field::Other),
    ];
    match decode_series::<DailyVariable, f64>(fields) {
        Err(DecodeError::UnexpectedValue(k)) => assert_eq!(k, "sunrise"),
        _ => panic!("expected an unexpected value"),
    }
}

#[test]
fn empty_series_with_time_axis() {
    let fields = vec![entry("time", texts(&[]))];
    let d = decode_series::<HourlyVariable, f64>(fields).unwrap();
    assert!(d.time.is_empty());
    assert!(d.data.is_empty());
}

#[test]
fn current_conditions() {
    let fields = vec![
        entry("time", Field::Text("2024-01-01T00:00".to_string())),
        entry("interval", Field::Number(900.0, Some(900))),
        entry("temperature_2m", Field::Number(4.5, None)),
        entry("weather_code", Field::Number(3.0, Some(3))),
    ];
    let d = decode_current::<CurrentVariable, f64>(fields).unwrap();
    assert_eq!(d.time, "2024-01-01T00:00");
    assert_eq!(d.interval, 900);
    assert_eq!(d.data.len(), 2);
    assert_eq!(d.data.get(&CurrentVariable::Temperature2m), Some(&4.5));
    assert_eq!(d.data.get(&CurrentVariable::WeatherCode), Some(&3.0));
    assert_eq!(d.data.get(&CurrentVariable::Interval), None);
}

#[test]
fn current_conditions_need_time_and_interval() {
    let fields = vec![entry("interval", Field::Number(900.0, Some(900)))];
    assert!(matches!(
        decode_current::<CurrentVariable, f64>(fields),
        Err(DecodeError::TimeAxisMissing)
    ));
    let fields = vec![entry("time", Field::Text("2024-01-01T00:00".to_string()))];
    assert!(matches!(
        decode_current::<CurrentVariable, f64>(fields),
        Err(DecodeError::IntervalMissing)
    ));
    let fields = vec![
        entry("time", Field::Text("2024-01-01T00:00".to_string())),
        entry("interval", Field::Number(0.5, None)),
    ];
    match decode_current::<CurrentVariable, f64>(fields) {
        Err(DecodeError::UnexpectedValue(k)) => assert_eq!(k, "interval"),
        _ => panic!("expected an unexpected value"),
    }
}

#[test]
fn later_entries_replace_earlier_ones() {
    let fields = vec![
        entry("time", texts(&["a"])),
        entry("temperature_850hPa", Field::Numbers(vec![1.0])),
        entry("temperature_0850hPa", Field::Numbers(vec![2.0])),
    ];
    let d = decode_series::<HourlyVariable, f64>(fields).unwrap();
    assert_eq!(d.data.len(), 1);
    assert_eq!(d.data.get(&HourlyVariable::TemperaturePressureLevel(850)), Some(&vec![2.0]));
}

#[test]
fn empty_list_is_an_empty_time_axis() {
    let fields = vec![entry("time", Field::Numbers(Vec::new()))];
    let d = decode_series::<DailyVariable, f64>(fields).unwrap();
    assert!(d.time.is_empty());
    assert_eq!(d.data.len(), 0);
}
