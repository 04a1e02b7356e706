use fjordgard::current::CurrentVariable;
use fjordgard::daily::DailyVariable;
use fjordgard::daily::DailyVariable as D;
use fjordgard::error::DecodeError;
use fjordgard::hourly::HourlyVariable;
use fjordgard::hourly::HourlyVariable as H;
use fjordgard::variable::{Token, Variable};

const LEVELS: [usize; 6] = [0, 1, 500, 850, 1000, 999999];

fn hourly_fixed() -> Vec<HourlyVariable> {
    vec![
        H::Temperature2m, H::RelativeHumidity2m, H::DewPoint2m, H::ApparentTemperature, H::PressureMsl,
        H::SurfacePressure, H::CloudCover, H::CloudCoverLow, H::CloudCoverMid, H::CloudCoverHigh, H::WindSpeed10m,
        H::WindSpeed80m, H::WindSpeed120m, H::WindSpeed180m, H::WindDirection10m, H::WindDirection80m,
        H::WindDirection120m, H::WindDIrection180m, H::WindGusts10m, H::ShortwaveRadiation, H::DirectRadiation,
        H::DirectNormalIrradiance, H::DiffuseRadiation, H::GlobalTiltedIrradiance, H::VapourPressureDeficit,
        H::Cape, H::Evapotranspiration, H::Et0FaoEvapotranspiration, H::Precipitation, H::Snowfall,
        H::PrecipitationProbability, H::Rain, H::Showers, H::WeatherCode, H::SnowDepth, H::FreezingLevelHeight,
        H::Visibility, H::SoilTemperature0cm, H::SoilTemperature6cm, H::SoilTemperature18cm,
        H::SoilTemperature54cm, H::SoilMoisture0To1cm, H::SoilMoisture1To3cm, H::SoilMoisture3To9cm,
        H::SoilMoisture9To27cm, H::SoilMoisture28To81cm, H::IsDay, H::Time,
    ]
}

fn hourly_levels(n: usize) -> Vec<HourlyVariable> {
    vec![
        H::TemperaturePressureLevel(n),
        H::RelativeHumidityPressureLevel(n),
        H::DewPointPressureLevel(n),
        H::CloudCoverPressureLevel(n),
        H::WindSpeedPressureLevel(n),
        H::WindDirectionPressureLevel(n),
        H::GeopotentialHeightPressureLevel(n),
    ]
}

#[test]
fn hourly_fixed_round_trip() {
    for v in hourly_fixed() {
        assert_eq!(HourlyVariable::decode(&v.token()), Ok(v));
    }
}

#[test]
fn hourly_level_round_trip() {
    for n in LEVELS {
        for v in hourly_levels(n) {
            assert_eq!(HourlyVariable::decode(&v.token()), Ok(v));
        }
    }
}

#[test]
fn hourly_tokens_are_distinct() {
    let mut all = hourly_fixed();
    for n in LEVELS {
        all.extend(hourly_levels(n));
    }
    for (i, a) in all.iter().enumerate() {
        for b in all.iter().skip(i + 1) {
            assert_ne!(a.token(), b.token(), "{a:?} and {b:?}");
        }
    }
}

#[test]
fn hourly_known_tokens() {
    assert_eq!(HourlyVariable::Temperature2m.token(), "temperature_2m");
    assert_eq!(HourlyVariable::TemperaturePressureLevel(850).token(), "temperature_850hPa");
    assert_eq!(HourlyVariable::GeopotentialHeightPressureLevel(0).token(), "geopotential_height_0hPa");
    assert_eq!(HourlyVariable::WindDIrection180m.token(), "wind_direction_180m");
    assert_eq!(HourlyVariable::SoilMoisture28To81cm.token(), "soil_moisture_27_to_81cm");
    assert_eq!(HourlyVariable::Et0FaoEvapotranspiration.token(), "et0_fao_evapotranspiration");
    assert_eq!(HourlyVariable::Time.token(), "time");
}

#[test]
fn fixed_height_wind_is_not_a_level() {
    assert_eq!(HourlyVariable::decode("wind_speed_10m"), Ok(HourlyVariable::WindSpeed10m));
    assert_eq!(HourlyVariable::decode("wind_direction_120m"), Ok(HourlyVariable::WindDirection120m));
    assert_eq!(HourlyVariable::decode("wind_speed_10hPa"), Ok(HourlyVariable::WindSpeedPressureLevel(10)));
}

#[test]
fn unknown_token_is_rejected() {
    assert_eq!(
        HourlyVariable::decode("not_a_real_variable"),
        Err(DecodeError::UnknownVariable("not_a_real_variable".to_string()))
    );
    assert_eq!(
        DailyVariable::decode("not_a_real_variable"),
        Err(DecodeError::UnknownVariable("not_a_real_variable".to_string()))
    );
    assert_eq!(
        CurrentVariable::decode("not_a_real_variable"),
        Err(DecodeError::UnknownVariable("not_a_real_variable".to_string()))
    );
}

#[test]
fn malformed_pressure_levels_are_rejected() {
    assert_eq!(HourlyVariable::decode("bananas_abchPa"), Err(DecodeError::InvalidPressureLevel));
    assert_eq!(HourlyVariable::decode("temperature_hPa"), Err(DecodeError::InvalidPressureLevel));
    assert_eq!(HourlyVariable::decode("temperature_2mhPa"), Err(DecodeError::InvalidPressureLevel));
    assert_eq!(HourlyVariable::decode("bananas_850hPa"), Err(DecodeError::InvalidPressureLevel));
    assert_eq!(
        HourlyVariable::decode("temperature_99999999999999999999999hPa"),
        Err(DecodeError::InvalidPressureLevel)
    );
}

#[test]
fn decode_is_case_sensitive() {
    assert_eq!(
        HourlyVariable::decode("Temperature_2m"),
        Err(DecodeError::UnknownVariable("Temperature_2m".to_string()))
    );
    assert_eq!(HourlyVariable::decode("temperature_850HPA"), Err(DecodeError::UnknownVariable("temperature_850HPA".to_string())));
}

#[test]
fn leading_zeros_read_as_the_level() {
    assert_eq!(HourlyVariable::decode("temperature_0850hPa"), Ok(HourlyVariable::TemperaturePressureLevel(850)));
}

#[test]
fn daily_and_current_round_trip() {
    let daily = vec![
        D::Temperature2mMax, D::Temperature2mMean, D::Temperature2mMin, D::ApparentTemperatureMax,
        D::ApparentTemperatureMean, D::ApparentTemperatureMin, D::PrecipitationSum, D::RainSum, D::ShowersSum,
        D::SnowfallSum, D::PrecipitationHours, D::PrecipitationProbabilityMax,
        D::PrecipitationProbabilityMean, D::PrecipitationProbabilityMin, D::WeatherCode, D::Sunrise, D::Sunset,
        D::SunshineDuration, D::DaylightDuration, D::WindSpeed10mMax, D::WindGusts10mMax,
        D::WindDirection10mDominant, D::ShortwaveRadiationSum, D::Et0FaoEvapotranspiration, D::UvIndexMax,
        D::UvIndexClearSkyMax, D::Time,
    ];
    for v in &daily {
        assert_eq!(DailyVariable::decode(&v.token()), Ok(*v));
    }
    assert_eq!(D::Temperature2mMean.token(), "temperature_2m_mean");
    assert_eq!(D::UvIndexClearSkyMax.token(), "uv_index_clear_sky_max");
    assert_eq!(
        DailyVariable::decode("temperature_850hPa"),
        Err(DecodeError::UnknownVariable("temperature_850hPa".to_string()))
    );

    let current = vec![
        CurrentVariable::Temperature2m,
        CurrentVariable::GlobalTiltedIrradianceInstant,
        CurrentVariable::LightningPotential,
        CurrentVariable::WindDirection80m,
        CurrentVariable::Time,
        CurrentVariable::Interval,
    ];
    for v in &current {
        assert_eq!(CurrentVariable::decode(&v.token()), Ok(*v));
    }
    assert_eq!(CurrentVariable::Interval.token(), "interval");
    assert_eq!(CurrentVariable::GlobalTiltedIrradianceInstant.token(), "global_tilted_irradiance_instant");
}
