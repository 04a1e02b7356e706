use fjordgard::config::{BackgroundMode, WeatherLocation};
use fjordgard::current::CurrentVariable;
use fjordgard::daily::DailyVariable;
use fjordgard::hourly::HourlyVariable;
use fjordgard::list::{csv, csv_texts};
use fjordgard::options::{
    CellSelection, ForecastOptions, GeocodeOptions, PrecipitationUnit, SpeedUnit,
    TemperatureUnit, TimeFormat,
};
use fjordgard::unsplash::{Auto, CollectionPhotosOptions, Crop, Fit, Format, Orientation};
use fjordgard::variable::Token;

fn pairs(q: &[(&str, &str)]) -> Vec<(String, String)> {
    q.iter().map(|(a, b)| (a.to_string(), b.to_string())).collect()
}

#[test]
fn list_serialization() {
    assert_eq!(
        csv(&Some(vec![HourlyVariable::Temperature2m, HourlyVariable::Precipitation])),
        Some("temperature_2m,precipitation".to_string())
    );
    assert_eq!(csv(&None::<Vec<HourlyVariable>>), None);
    assert_eq!(csv(&Some(Vec::<HourlyVariable>::new())), Some(String::new()));
    assert_eq!(
        csv(&Some(vec![
            HourlyVariable::TemperaturePressureLevel(1000),
            HourlyVariable::Temperature2m,
            HourlyVariable::TemperaturePressureLevel(1000),
        ])),
        Some("temperature_1000hPa,temperature_2m,temperature_1000hPa".to_string())
    );
    assert_eq!(
        csv_texts(&Some(vec!["icon_seamless".to_string(), "gfs_seamless".to_string()])),
        Some("icon_seamless,gfs_seamless".to_string())
    );
    assert_eq!(csv(&Some(vec![Crop::Faces, Crop::FocalPoint])), Some("faces,focalpoint".to_string()));
}

#[test]
fn forecast_query() {
    let opt = ForecastOptions {
        current: Some(vec![CurrentVariable::Temperature2m]),
        daily: Some(vec![DailyVariable::Temperature2mMean]),
        hourly: Some(vec![
            HourlyVariable::Temperature2m,
            HourlyVariable::TemperaturePressureLevel(1000),
        ]),
        temperature_unit: Some(TemperatureUnit::Fahrenheit),
        wind_speed_unit: Some(SpeedUnit::Knots),
        precipitation_unit: Some(PrecipitationUnit::Inch),
        time_format: Some(TimeFormat::UnixTime),
        past_days: Some(12),
        models: Some(vec![]),
        cell_selection: Some(CellSelection::Nearest),
        ..Default::default()
    };
    assert_eq!(
        opt.query(),
        pairs(&[
            ("hourly", "temperature_2m,temperature_1000hPa"),
            ("daily", "temperature_2m_mean"),
            ("current", "temperature_2m"),
            ("temperature_unit", "fahrenheit"),
            ("wind_speed_unit", "kn"),
            ("precipitation_unit", "inch"),
            ("time_format", "unixtime"),
            ("past_days", "12"),
            ("models", ""),
            ("cell_selection", "nearest"),
        ])
    );
    assert!(ForecastOptions::default().query().is_empty());
}

#[test]
fn geocode_and_collection_queries() {
    let g = GeocodeOptions {
        count: Some(10),
        language: Some("en".to_string()),
        country_code: Some("GB".to_string()),
    };
    assert_eq!(g.query(), pairs(&[("count", "10"), ("language", "en"), ("countryCode", "GB")]));
    let c = CollectionPhotosOptions {
        per_page: Some(5),
        orientation: Some(Orientation::Squarish),
        ..Default::default()
    };
    assert_eq!(c.query(), pairs(&[("per_page", "5"), ("orientation", "squarish")]));
}

#[test]
fn option_tokens() {
    assert_eq!(TemperatureUnit::Celsius.token(), "celsius");
    assert_eq!(SpeedUnit::KilometersPerHour.token(), "kmh");
    assert_eq!(SpeedUnit::MetersPerSecond.token(), "ms");
    assert_eq!(SpeedUnit::MilesPerHour.token(), "mph");
    assert_eq!(PrecipitationUnit::Millimeter.token(), "mm");
    assert_eq!(TimeFormat::Iso8601.token(), "iso8601");
    assert_eq!(CellSelection::Land.token(), "land");
    assert_eq!(CellSelection::Sea.token(), "sea");
    assert_eq!(Orientation::Landscape.token(), "landscape");
    assert_eq!(Format::PJpg.token(), "pjpg");
    assert_eq!(Format::BlurHash.token(), "blurhash");
    assert_eq!(Auto::True.token(), "true");
    assert_eq!(Fit::FaceArea.token(), "facearea");
    assert_eq!(Fit::FillMax.token(), "fillmax");
}

#[test]
fn background_modes() {
    assert_eq!(BackgroundMode::Unsplash.default_background(), "1053828");
    assert_eq!(BackgroundMode::Solid.default_background(), "#000000");
    assert_eq!(BackgroundMode::Local.default_background(), "");
    assert_eq!(BackgroundMode::Unsplash.edit_text(), "Unsplash collection");
    assert_eq!(BackgroundMode::Solid.edit_text(), "Color (#rrggbb)");
    assert_eq!(BackgroundMode::Local.edit_text(), "File path");
    assert_eq!(BackgroundMode::Solid.token(), "Solid");
    assert_eq!(BackgroundMode::all().len(), 3);
    assert_eq!(WeatherLocation::LocationName.token(), "Location name");
    assert_eq!(WeatherLocation::all()[2], WeatherLocation::Coordinates);
}
