//! The catalog of variables of hourly forecasts, with its pressure-level families.
use vstd::prelude::*;
use vstd::string::StrSliceExecFns;
use vstd::string::StringExecFns;

use crate::error::DecodeError;
use crate::text::{
    all_digits, decimal, digits_value, ends_with, find_digit, first_digit, is_digit,
    lemma_decimal, lemma_first_digit, lemma_first_digit_after, no_digits, parse_digits, push_decimal, str_ends_with,
};
use crate::variable::{decode_outcome, Token, Variable};

verus! {

/// The token of the member of the family with prefix `prefix` at level `n`.
pub open spec fn level_wire(prefix: Seq<char>, n: usize) -> Seq<char> {
    prefix + decimal(n as nat) + "hPa"@
}

/// Writes the token of the member of the family with prefix `prefix` at level `n`.
fn level_token(prefix: &str, n: usize) -> (r: String)
    ensures
        r@ == level_wire(prefix@, n),
{
    let mut s = String::from_str(prefix);
    push_decimal(&mut s, n);
    s.append("hPa");
    s
}

/// A quantity that an hourly forecast can carry, some of them at a pressure level.
#[derive(Clone, Copy, Debug, Hash, PartialEq, Eq, Structural)]
pub enum HourlyVariable {
    /// Air temperature at 2 m above ground.
    Temperature2m,
    /// Air temperature at a pressure level (hPa).
    TemperaturePressureLevel(usize),
    /// Relative humidity at 2 m above ground.
    RelativeHumidity2m,
    /// Relative humidity at a pressure level (hPa).
    RelativeHumidityPressureLevel(usize),
    /// Dew point at 2 m above ground.
    DewPoint2m,
    /// Dew point at a pressure level (hPa).
    DewPointPressureLevel(usize),
    ApparentTemperature,
    PressureMsl,
    SurfacePressure,
    CloudCover,
    CloudCoverLow,
    CloudCoverMid,
    CloudCoverHigh,
    /// Cloud cover at a pressure level (hPa).
    CloudCoverPressureLevel(usize),
    WindSpeed10m,
    WindSpeed80m,
    WindSpeed120m,
    WindSpeed180m,
    /// Wind speed at a pressure level (hPa).
    WindSpeedPressureLevel(usize),
    WindDirection10m,
    WindDirection80m,
    WindDirection120m,
    WindDIrection180m,
    /// Wind direction at a pressure level (hPa).
    WindDirectionPressureLevel(usize),
    WindGusts10m,
    ShortwaveRadiation,
    DirectRadiation,
    DirectNormalIrradiance,
    DiffuseRadiation,
    GlobalTiltedIrradiance,
    VapourPressureDeficit,
    Cape,
    Evapotranspiration,
    Et0FaoEvapotranspiration,
    Precipitation,
    Snowfall,
    PrecipitationProbability,
    Rain,
    Showers,
    WeatherCode,
    SnowDepth,
    FreezingLevelHeight,
    Visibility,
    SoilTemperature0cm,
    SoilTemperature6cm,
    SoilTemperature18cm,
    SoilTemperature54cm,
    SoilMoisture0To1cm,
    SoilMoisture1To3cm,
    SoilMoisture3To9cm,
    SoilMoisture9To27cm,
    SoilMoisture28To81cm,
    IsDay,
    /// Geopotential height at a pressure level (hPa).
    GeopotentialHeightPressureLevel(usize),
    /// Not a requestable variable: a key found only among the units of a response.
    Time,
}

impl HourlyVariable {
    /// Whether this member carries a pressure level.
    pub open spec fn is_level(&self) -> bool {
        match self {
            HourlyVariable::TemperaturePressureLevel(_) => true,
            HourlyVariable::RelativeHumidityPressureLevel(_) => true,
            HourlyVariable::DewPointPressureLevel(_) => true,
            HourlyVariable::CloudCoverPressureLevel(_) => true,
            HourlyVariable::WindSpeedPressureLevel(_) => true,
            HourlyVariable::WindDirectionPressureLevel(_) => true,
            HourlyVariable::GeopotentialHeightPressureLevel(_) => true,
            _ => false,
        }
    }

    /// The family prefix of a member that carries a pressure level.
    pub open spec fn level_prefix(&self) -> Seq<char> {
        match self {
            HourlyVariable::TemperaturePressureLevel(_) => "temperature_"@,
            HourlyVariable::RelativeHumidityPressureLevel(_) => "relative_humidity_"@,
            HourlyVariable::DewPointPressureLevel(_) => "dew_point_"@,
            HourlyVariable::CloudCoverPressureLevel(_) => "cloud_cover_"@,
            HourlyVariable::WindSpeedPressureLevel(_) => "wind_speed_"@,
            HourlyVariable::WindDirectionPressureLevel(_) => "wind_direction_"@,
            HourlyVariable::GeopotentialHeightPressureLevel(_) => "geopotential_height_"@,
            _ => Seq::empty(),
        }
    }

    /// The pressure level that a member carries (0 for the fixed members).
    pub open spec fn level(&self) -> usize {
        match self {
            HourlyVariable::TemperaturePressureLevel(n) => *n,
            HourlyVariable::RelativeHumidityPressureLevel(n) => *n,
            HourlyVariable::DewPointPressureLevel(n) => *n,
            HourlyVariable::CloudCoverPressureLevel(n) => *n,
            HourlyVariable::WindSpeedPressureLevel(n) => *n,
            HourlyVariable::WindDirectionPressureLevel(n) => *n,
            HourlyVariable::GeopotentialHeightPressureLevel(n) => *n,
            _ => 0,
        }
    }

    /// The member of the family with prefix `prefix` at level `n`, if `prefix` names a family.
    pub open spec fn with_level(prefix: Seq<char>, n: usize) -> Option<HourlyVariable> {
        if prefix == "temperature_"@ {
            Some(HourlyVariable::TemperaturePressureLevel(n))
        } else if prefix == "relative_humidity_"@ {
            Some(HourlyVariable::RelativeHumidityPressureLevel(n))
        } else if prefix == "dew_point_"@ {
            Some(HourlyVariable::DewPointPressureLevel(n))
        } else if prefix == "cloud_cover_"@ {
            Some(HourlyVariable::CloudCoverPressureLevel(n))
        } else if prefix == "wind_speed_"@ {
            Some(HourlyVariable::WindSpeedPressureLevel(n))
        } else if prefix == "wind_direction_"@ {
            Some(HourlyVariable::WindDirectionPressureLevel(n))
        } else if prefix == "geopotential_height_"@ {
            Some(HourlyVariable::GeopotentialHeightPressureLevel(n))
        } else {
            None
        }
    }

    /// The members with a fixed token, each once.
    pub open spec fn fixed_members() -> Seq<HourlyVariable> {
        seq![
            HourlyVariable::Temperature2m,
            HourlyVariable::RelativeHumidity2m,
            HourlyVariable::DewPoint2m,
            HourlyVariable::ApparentTemperature,
            HourlyVariable::PressureMsl,
            HourlyVariable::SurfacePressure,
            HourlyVariable::CloudCover,
            HourlyVariable::CloudCoverLow,
            HourlyVariable::CloudCoverMid,
            HourlyVariable::CloudCoverHigh,
            HourlyVariable::WindSpeed10m,
            HourlyVariable::WindSpeed80m,
            HourlyVariable::WindSpeed120m,
            HourlyVariable::WindSpeed180m,
            HourlyVariable::WindDirection10m,
            HourlyVariable::WindDirection80m,
            HourlyVariable::WindDirection120m,
            HourlyVariable::WindDIrection180m,
            HourlyVariable::WindGusts10m,
            HourlyVariable::ShortwaveRadiation,
            HourlyVariable::DirectRadiation,
            HourlyVariable::DirectNormalIrradiance,
            HourlyVariable::DiffuseRadiation,
            HourlyVariable::GlobalTiltedIrradiance,
            HourlyVariable::VapourPressureDeficit,
            HourlyVariable::Cape,
            HourlyVariable::Evapotranspiration,
            HourlyVariable::Et0FaoEvapotranspiration,
            HourlyVariable::Precipitation,
            HourlyVariable::Snowfall,
            HourlyVariable::PrecipitationProbability,
            HourlyVariable::Rain,
            HourlyVariable::Showers,
            HourlyVariable::WeatherCode,
            HourlyVariable::SnowDepth,
            HourlyVariable::FreezingLevelHeight,
            HourlyVariable::Visibility,
            HourlyVariable::SoilTemperature0cm,
            HourlyVariable::SoilTemperature6cm,
            HourlyVariable::SoilTemperature18cm,
            HourlyVariable::SoilTemperature54cm,
            HourlyVariable::SoilMoisture0To1cm,
            HourlyVariable::SoilMoisture1To3cm,
            HourlyVariable::SoilMoisture3To9cm,
            HourlyVariable::SoilMoisture9To27cm,
            HourlyVariable::SoilMoisture28To81cm,
            HourlyVariable::IsDay,
            HourlyVariable::Time,
        ]
    }

    /// Where a member with a fixed token stands among the fixed members.
    pub open spec fn fixed_index(&self) -> int {
        match self {
            HourlyVariable::Temperature2m => 0,
            HourlyVariable::RelativeHumidity2m => 1,
            HourlyVariable::DewPoint2m => 2,
            HourlyVariable::ApparentTemperature => 3,
            HourlyVariable::PressureMsl => 4,
            HourlyVariable::SurfacePressure => 5,
            HourlyVariable::CloudCover => 6,
            HourlyVariable::CloudCoverLow => 7,
            HourlyVariable::CloudCoverMid => 8,
            HourlyVariable::CloudCoverHigh => 9,
            HourlyVariable::WindSpeed10m => 10,
            HourlyVariable::WindSpeed80m => 11,
            HourlyVariable::WindSpeed120m => 12,
            HourlyVariable::WindSpeed180m => 13,
            HourlyVariable::WindDirection10m => 14,
            HourlyVariable::WindDirection80m => 15,
            HourlyVariable::WindDirection120m => 16,
            HourlyVariable::WindDIrection180m => 17,
            HourlyVariable::WindGusts10m => 18,
            HourlyVariable::ShortwaveRadiation => 19,
            HourlyVariable::DirectRadiation => 20,
            HourlyVariable::DirectNormalIrradiance => 21,
            HourlyVariable::DiffuseRadiation => 22,
            HourlyVariable::GlobalTiltedIrradiance => 23,
            HourlyVariable::VapourPressureDeficit => 24,
            HourlyVariable::Cape => 25,
            HourlyVariable::Evapotranspiration => 26,
            HourlyVariable::Et0FaoEvapotranspiration => 27,
            HourlyVariable::Precipitation => 28,
            HourlyVariable::Snowfall => 29,
            HourlyVariable::PrecipitationProbability => 30,
            HourlyVariable::Rain => 31,
            HourlyVariable::Showers => 32,
            HourlyVariable::WeatherCode => 33,
            HourlyVariable::SnowDepth => 34,
            HourlyVariable::FreezingLevelHeight => 35,
            HourlyVariable::Visibility => 36,
            HourlyVariable::SoilTemperature0cm => 37,
            HourlyVariable::SoilTemperature6cm => 38,
            HourlyVariable::SoilTemperature18cm => 39,
            HourlyVariable::SoilTemperature54cm => 40,
            HourlyVariable::SoilMoisture0To1cm => 41,
            HourlyVariable::SoilMoisture1To3cm => 42,
            HourlyVariable::SoilMoisture3To9cm => 43,
            HourlyVariable::SoilMoisture9To27cm => 44,
            HourlyVariable::SoilMoisture28To81cm => 45,
            HourlyVariable::IsDay => 46,
            HourlyVariable::Time => 47,
            _ => 0,
        }
    }

    fn fixed() -> (r: Vec<HourlyVariable>)
        ensures
            r@ == Self::fixed_members(),
    {
        let r = vec![
            HourlyVariable::Temperature2m,
            HourlyVariable::RelativeHumidity2m,
            HourlyVariable::DewPoint2m,
            HourlyVariable::ApparentTemperature,
            HourlyVariable::PressureMsl,
            HourlyVariable::SurfacePressure,
            HourlyVariable::CloudCover,
            HourlyVariable::CloudCoverLow,
            HourlyVariable::CloudCoverMid,
            HourlyVariable::CloudCoverHigh,
            HourlyVariable::WindSpeed10m,
            HourlyVariable::WindSpeed80m,
            HourlyVariable::WindSpeed120m,
            HourlyVariable::WindSpeed180m,
            HourlyVariable::WindDirection10m,
            HourlyVariable::WindDirection80m,
            HourlyVariable::WindDirection120m,
            HourlyVariable::WindDIrection180m,
            HourlyVariable::WindGusts10m,
            HourlyVariable::ShortwaveRadiation,
            HourlyVariable::DirectRadiation,
            HourlyVariable::DirectNormalIrradiance,
            HourlyVariable::DiffuseRadiation,
            HourlyVariable::GlobalTiltedIrradiance,
            HourlyVariable::VapourPressureDeficit,
            HourlyVariable::Cape,
            HourlyVariable::Evapotranspiration,
            HourlyVariable::Et0FaoEvapotranspiration,
            HourlyVariable::Precipitation,
            HourlyVariable::Snowfall,
            HourlyVariable::PrecipitationProbability,
            HourlyVariable::Rain,
            HourlyVariable::Showers,
            HourlyVariable::WeatherCode,
            HourlyVariable::SnowDepth,
            HourlyVariable::FreezingLevelHeight,
            HourlyVariable::Visibility,
            HourlyVariable::SoilTemperature0cm,
            HourlyVariable::SoilTemperature6cm,
            HourlyVariable::SoilTemperature18cm,
            HourlyVariable::SoilTemperature54cm,
            HourlyVariable::SoilMoisture0To1cm,
            HourlyVariable::SoilMoisture1To3cm,
            HourlyVariable::SoilMoisture3To9cm,
            HourlyVariable::SoilMoisture9To27cm,
            HourlyVariable::SoilMoisture28To81cm,
            HourlyVariable::IsDay,
            HourlyVariable::Time,
        ];
        assert(r@ =~= Self::fixed_members());
        r
    }

    fn level_member(prefix: &str, n: usize) -> (r: Option<HourlyVariable>)
        ensures
            r == Self::with_level(prefix@, n),
    {
        let p = prefix.to_owned();
        if p == String::from_str("temperature_") {
            return Some(HourlyVariable::TemperaturePressureLevel(n));
        }
        if p == String::from_str("relative_humidity_") {
            return Some(HourlyVariable::RelativeHumidityPressureLevel(n));
        }
        if p == String::from_str("dew_point_") {
            return Some(HourlyVariable::DewPointPressureLevel(n));
        }
        if p == String::from_str("cloud_cover_") {
            return Some(HourlyVariable::CloudCoverPressureLevel(n));
        }
        if p == String::from_str("wind_speed_") {
            return Some(HourlyVariable::WindSpeedPressureLevel(n));
        }
        if p == String::from_str("wind_direction_") {
            return Some(HourlyVariable::WindDirectionPressureLevel(n));
        }
        if p == String::from_str("geopotential_height_") {
            return Some(HourlyVariable::GeopotentialHeightPressureLevel(n));
        }
        None
    }

    proof fn lemma_fixed_members()
        ensures
            forall|v: HourlyVariable| !v.is_level() ==> 0 <= #[trigger] v.fixed_index() < Self::fixed_members().len()
                && Self::fixed_members()[v.fixed_index()] == v,
            forall|j: int|
                0 <= j < Self::fixed_members().len() ==> !(#[trigger] Self::fixed_members()[j]).is_level(),
    {
    }

    /// Two members with a fixed token share it only if they are the same member.
    pub proof fn lemma_fixed_distinct(a: Self, b: Self)
        requires
            !a.is_level(),
            !b.is_level(),
            a.wire() == b.wire(),
        ensures
            a == b,
    {
        reveal_strlit("temperature_2m");
        reveal_strlit("relative_humidity_2m");
        reveal_strlit("dew_point_2m");
        reveal_strlit("apparent_temperature");
        reveal_strlit("pressure_msl");
        reveal_strlit("surface_pressure");
        reveal_strlit("cloud_cover");
        reveal_strlit("cloud_cover_low");
        reveal_strlit("cloud_cover_mid");
        reveal_strlit("cloud_cover_high");
        reveal_strlit("wind_speed_10m");
        reveal_strlit("wind_speed_80m");
        reveal_strlit("wind_speed_120m");
        reveal_strlit("wind_speed_180m");
        reveal_strlit("wind_direction_10m");
        reveal_strlit("wind_direction_80m");
        reveal_strlit("wind_direction_120m");
        reveal_strlit("wind_direction_180m");
        reveal_strlit("wind_gusts_10m");
        reveal_strlit("shortwave_radiation");
        reveal_strlit("direct_radiation");
        reveal_strlit("direct_normal_irradiance");
        reveal_strlit("diffuse_radiation");
        reveal_strlit("global_tilted_irradiance");
        reveal_strlit("vapour_pressure_deficit");
        reveal_strlit("cape");
        reveal_strlit("evapotranspiration");
        reveal_strlit("et0_fao_evapotranspiration");
        reveal_strlit("precipitation");
        reveal_strlit("snowfall");
        reveal_strlit("precipitation_probability");
        reveal_strlit("rain");
        reveal_strlit("showers");
        reveal_strlit("weather_code");
        reveal_strlit("snow_depth");
        reveal_strlit("freezing_level_height");
        reveal_strlit("visibility");
        reveal_strlit("soil_temperature_0cm");
        reveal_strlit("soil_temperature_6cm");
        reveal_strlit("soil_temperature_18cm");
        reveal_strlit("soil_temperature_54cm");
        reveal_strlit("soil_moisture_0_to_1cm");
        reveal_strlit("soil_moisture_1_to_3cm");
        reveal_strlit("soil_moisture_3_to_9cm");
        reveal_strlit("soil_moisture_9_to_27cm");
        reveal_strlit("soil_moisture_27_to_81cm");
        reveal_strlit("is_day");
        reveal_strlit("time");
        let s = a.wire();
        let t = b.wire();
        // Equal tokens agree in length and at the positions where tokens of equal length differ.
        assert(s.len() == t.len());
        assert(s.len() > 0 ==> s[0] == t[0]);
        assert(s.len() > 14 ==> s[14] == t[14]);
        assert(s.len() > 5 ==> s[5] == t[5]);
        assert(s.len() > 17 ==> s[17] == t[17]);
        assert(s.len() > 11 ==> s[11] == t[11]);
        assert(s.len() > 12 ==> s[12] == t[12]);
        assert(s.len() > 15 ==> s[15] == t[15]);
        assert(s.len() > 16 ==> s[16] == t[16]);
    }

    /// The member that the body `s` of a pressure-level token names (the token without its
    /// `hPa` suffix): the text before the first digit is the family prefix, the digits from
    /// there on are the level.
    pub open spec fn level_named(s: Seq<char>) -> Option<HourlyVariable> {
        match first_digit(s) {
            Some(p) => {
                let digits = s.skip(p);
                if all_digits(digits) && digits_value(digits) <= usize::MAX {
                    Self::with_level(s.take(p), digits_value(digits) as usize)
                } else {
                    None
                }
            },
            None => None,
        }
    }

    /// Decodes a token that no fixed member has.
    fn decode_level(t: &str, owned: String) -> (r: Result<HourlyVariable, DecodeError>)
        requires
            owned@ == t@,
            forall|v: HourlyVariable| !v.is_level() ==> v.wire() != t@,
        ensures
            decode_outcome(r, t@, Self::named_by(t@), Self::level_shaped(t@)),
    {
        if !str_ends_with(t, "hPa") {
            return Err(DecodeError::UnknownVariable(owned));
        }
        proof {
            reveal_strlit("hPa");
        }
        let end = t.unicode_len() - 3;
        let ghost s = t@.take(end as int);
        match find_digit(t, end) {
            None => Err(DecodeError::InvalidPressureLevel),
            Some(p) => {
                proof {
                    lemma_first_digit(s);
                }
                assert(t@.subrange(p as int, end as int) =~= s.skip(p as int));
                match parse_digits(t, p, end) {
                    None => Err(DecodeError::InvalidPressureLevel),
                    Some(n) => {
                        let prefix = t.substring_char(0, p);
                        assert(prefix@ =~= s.take(p as int));
                        match Self::level_member(prefix, n) {
                            Some(v) => Ok(v),
                            None => Err(DecodeError::InvalidPressureLevel),
                        }
                    },
                }
            },
        }
    }

    /// No fixed token ends in `hPa`.
    proof fn lemma_fixed_not_level_shaped(v: Self)
        requires
            !v.is_level(),
        ensures
            !ends_with(v.wire(), "hPa"@),
    {
        reveal_strlit("hPa");
        reveal_strlit("temperature_2m");
        reveal_strlit("relative_humidity_2m");
        reveal_strlit("dew_point_2m");
        reveal_strlit("apparent_temperature");
        reveal_strlit("pressure_msl");
        reveal_strlit("surface_pressure");
        reveal_strlit("cloud_cover");
        reveal_strlit("cloud_cover_low");
        reveal_strlit("cloud_cover_mid");
        reveal_strlit("cloud_cover_high");
        reveal_strlit("wind_speed_10m");
        reveal_strlit("wind_speed_80m");
        reveal_strlit("wind_speed_120m");
        reveal_strlit("wind_speed_180m");
        reveal_strlit("wind_direction_10m");
        reveal_strlit("wind_direction_80m");
        reveal_strlit("wind_direction_120m");
        reveal_strlit("wind_direction_180m");
        reveal_strlit("wind_gusts_10m");
        reveal_strlit("shortwave_radiation");
        reveal_strlit("direct_radiation");
        reveal_strlit("direct_normal_irradiance");
        reveal_strlit("diffuse_radiation");
        reveal_strlit("global_tilted_irradiance");
        reveal_strlit("vapour_pressure_deficit");
        reveal_strlit("cape");
        reveal_strlit("evapotranspiration");
        reveal_strlit("et0_fao_evapotranspiration");
        reveal_strlit("precipitation");
        reveal_strlit("snowfall");
        reveal_strlit("precipitation_probability");
        reveal_strlit("rain");
        reveal_strlit("showers");
        reveal_strlit("weather_code");
        reveal_strlit("snow_depth");
        reveal_strlit("freezing_level_height");
        reveal_strlit("visibility");
        reveal_strlit("soil_temperature_0cm");
        reveal_strlit("soil_temperature_6cm");
        reveal_strlit("soil_temperature_18cm");
        reveal_strlit("soil_temperature_54cm");
        reveal_strlit("soil_moisture_0_to_1cm");
        reveal_strlit("soil_moisture_1_to_3cm");
        reveal_strlit("soil_moisture_3_to_9cm");
        reveal_strlit("soil_moisture_9_to_27cm");
        reveal_strlit("soil_moisture_27_to_81cm");
        reveal_strlit("is_day");
        reveal_strlit("time");
        let s = v.wire();
        if ends_with(s, "hPa"@) {
            assert(s[s.len() - 1] == s.subrange(s.len() - 3, s.len() as int)[2]);
        }
    }

    /// Decoding the token of a member with a pressure level gives that member back.
    proof fn lemma_level_round_trip(v: Self)
        requires
            v.is_level(),
        ensures
            Self::named_by(v.wire()) == Some(v),
    {
        reveal_strlit("hPa");
        reveal_strlit("temperature_");
        reveal_strlit("relative_humidity_");
        reveal_strlit("dew_point_");
        reveal_strlit("cloud_cover_");
        reveal_strlit("wind_speed_");
        reveal_strlit("wind_direction_");
        reveal_strlit("geopotential_height_");
        assert forall|i: int| 0 <= i < 12 implies !is_digit(#[trigger] "temperature_"@[i]) by {
            assert(i == 0 || i == 1 || i == 2 || i == 3 || i == 4 || i == 5 || i == 6 || i == 7 || i == 8 || i == 9 || i == 10 || i == 11);
        }
        assert forall|i: int| 0 <= i < 18 implies !is_digit(#[trigger] "relative_humidity_"@[i]) by {
            assert(i == 0 || i == 1 || i == 2 || i == 3 || i == 4 || i == 5 || i == 6 || i == 7 || i == 8 || i == 9 || i == 10 || i == 11 || i == 12 || i == 13 || i == 14 || i == 15 || i == 16 || i == 17);
        }
        assert forall|i: int| 0 <= i < 10 implies !is_digit(#[trigger] "dew_point_"@[i]) by {
            assert(i == 0 || i == 1 || i == 2 || i == 3 || i == 4 || i == 5 || i == 6 || i == 7 || i == 8 || i == 9);
        }
        assert forall|i: int| 0 <= i < 12 implies !is_digit(#[trigger] "cloud_cover_"@[i]) by {
            assert(i == 0 || i == 1 || i == 2 || i == 3 || i == 4 || i == 5 || i == 6 || i == 7 || i == 8 || i == 9 || i == 10 || i == 11);
        }
        assert forall|i: int| 0 <= i < 11 implies !is_digit(#[trigger] "wind_speed_"@[i]) by {
            assert(i == 0 || i == 1 || i == 2 || i == 3 || i == 4 || i == 5 || i == 6 || i == 7 || i == 8 || i == 9 || i == 10);
        }
        assert forall|i: int| 0 <= i < 15 implies !is_digit(#[trigger] "wind_direction_"@[i]) by {
            assert(i == 0 || i == 1 || i == 2 || i == 3 || i == 4 || i == 5 || i == 6 || i == 7 || i == 8 || i == 9 || i == 10 || i == 11 || i == 12 || i == 13 || i == 14);
        }
        assert forall|i: int| 0 <= i < 20 implies !is_digit(#[trigger] "geopotential_height_"@[i]) by {
            assert(i == 0 || i == 1 || i == 2 || i == 3 || i == 4 || i == 5 || i == 6 || i == 7 || i == 8 || i == 9 || i == 10 || i == 11 || i == 12 || i == 13 || i == 14 || i == 15 || i == 16 || i == 17 || i == 18 || i == 19);
        }
        let p = v.level_prefix();
        let n = v.level();
        let d = decimal(n as nat);
        let t = v.wire();
        assert(t == level_wire(p, n));
        lemma_decimal(n as nat);
        assert(no_digits(p));
        assert(t.subrange(t.len() - 3, t.len() as int) =~= "hPa"@);
        let s = t.take(t.len() - 3);
        assert(s =~= p + d);
        lemma_first_digit_after(p, d);
        assert(s.skip(p.len() as int) =~= d);
        assert(s.take(p.len() as int) =~= p);
        assert forall|w: Self| !w.is_level() implies w.wire() != t by {
            Self::lemma_fixed_not_level_shaped(w);
        }
        assert(ends_with(t, "hPa"@));
        assert(first_digit(s) == Some(p.len() as int));
        assert(all_digits(d) && digits_value(d) == n);
        // The only two prefixes of equal length differ in their first letter.
        assert("temperature_"@[0] != "cloud_cover_"@[0]);
        assert(Self::with_level(p, n) == Some(v));
        assert(Self::level_named(s) == Some(v));
    }

    /// Decoding the token of any member gives that member back.
    pub proof fn lemma_round_trip(v: Self)
        ensures
            Self::named_by(v.wire()) == Some(v),
    {
        if v.is_level() {
            Self::lemma_level_round_trip(v);
        } else {
            let w = choose|w: Self| !w.is_level() && w.wire() == v.wire();
            Self::lemma_fixed_distinct(v, w);
        }
    }

    /// Whatever decoding the token of `v` returns, by the contract of decoding, is `v`.
    pub proof fn lemma_decode_of_token(v: Self, r: Result<Self, DecodeError>)
        requires
            decode_outcome(r, v.wire(), Self::named_by(v.wire()), Self::level_shaped(v.wire())),
        ensures
            r == Ok::<Self, DecodeError>(v),
    {
        Self::lemma_round_trip(v);
    }

    /// A token names a fixed member only if it is that member's token.
    pub proof fn lemma_fixed_named_by(t: Seq<char>, v: Self)
        requires
            !v.is_level(),
            Self::named_by(t) == Some(v),
        ensures
            v.wire() == t,
    {
    }

    /// Distinct members have distinct tokens, fixed and pressure-level members alike.
    pub proof fn lemma_injective(a: Self, b: Self)
        requires
            a.wire() == b.wire(),
        ensures
            a == b,
    {
        Self::lemma_round_trip(a);
        Self::lemma_round_trip(b);
    }
}

impl Token for HourlyVariable {
    open spec fn wire(&self) -> Seq<char> {
        match self {
            HourlyVariable::Temperature2m => "temperature_2m"@,
            HourlyVariable::TemperaturePressureLevel(n) => level_wire("temperature_"@, *n),
            HourlyVariable::RelativeHumidity2m => "relative_humidity_2m"@,
            HourlyVariable::RelativeHumidityPressureLevel(n) => level_wire("relative_humidity_"@, *n),
            HourlyVariable::DewPoint2m => "dew_point_2m"@,
            HourlyVariable::DewPointPressureLevel(n) => level_wire("dew_point_"@, *n),
            HourlyVariable::ApparentTemperature => "apparent_temperature"@,
            HourlyVariable::PressureMsl => "pressure_msl"@,
            HourlyVariable::SurfacePressure => "surface_pressure"@,
            HourlyVariable::CloudCover => "cloud_cover"@,
            HourlyVariable::CloudCoverLow => "cloud_cover_low"@,
            HourlyVariable::CloudCoverMid => "cloud_cover_mid"@,
            HourlyVariable::CloudCoverHigh => "cloud_cover_high"@,
            HourlyVariable::CloudCoverPressureLevel(n) => level_wire("cloud_cover_"@, *n),
            HourlyVariable::WindSpeed10m => "wind_speed_10m"@,
            HourlyVariable::WindSpeed80m => "wind_speed_80m"@,
            HourlyVariable::WindSpeed120m => "wind_speed_120m"@,
            HourlyVariable::WindSpeed180m => "wind_speed_180m"@,
            HourlyVariable::WindSpeedPressureLevel(n) => level_wire("wind_speed_"@, *n),
            HourlyVariable::WindDirection10m => "wind_direction_10m"@,
            HourlyVariable::WindDirection80m => "wind_direction_80m"@,
            HourlyVariable::WindDirection120m => "wind_direction_120m"@,
            HourlyVariable::WindDIrection180m => "wind_direction_180m"@,
            HourlyVariable::WindDirectionPressureLevel(n) => level_wire("wind_direction_"@, *n),
            HourlyVariable::WindGusts10m => "wind_gusts_10m"@,
            HourlyVariable::ShortwaveRadiation => "shortwave_radiation"@,
            HourlyVariable::DirectRadiation => "direct_radiation"@,
            HourlyVariable::DirectNormalIrradiance => "direct_normal_irradiance"@,
            HourlyVariable::DiffuseRadiation => "diffuse_radiation"@,
            HourlyVariable::GlobalTiltedIrradiance => "global_tilted_irradiance"@,
            HourlyVariable::VapourPressureDeficit => "vapour_pressure_deficit"@,
            HourlyVariable::Cape => "cape"@,
            HourlyVariable::Evapotranspiration => "evapotranspiration"@,
            HourlyVariable::Et0FaoEvapotranspiration => "et0_fao_evapotranspiration"@,
            HourlyVariable::Precipitation => "precipitation"@,
            HourlyVariable::Snowfall => "snowfall"@,
            HourlyVariable::PrecipitationProbability => "precipitation_probability"@,
            HourlyVariable::Rain => "rain"@,
            HourlyVariable::Showers => "showers"@,
            HourlyVariable::WeatherCode => "weather_code"@,
            HourlyVariable::SnowDepth => "snow_depth"@,
            HourlyVariable::FreezingLevelHeight => "freezing_level_height"@,
            HourlyVariable::Visibility => "visibility"@,
            HourlyVariable::SoilTemperature0cm => "soil_temperature_0cm"@,
            HourlyVariable::SoilTemperature6cm => "soil_temperature_6cm"@,
            HourlyVariable::SoilTemperature18cm => "soil_temperature_18cm"@,
            HourlyVariable::SoilTemperature54cm => "soil_temperature_54cm"@,
            HourlyVariable::SoilMoisture0To1cm => "soil_moisture_0_to_1cm"@,
            HourlyVariable::SoilMoisture1To3cm => "soil_moisture_1_to_3cm"@,
            HourlyVariable::SoilMoisture3To9cm => "soil_moisture_3_to_9cm"@,
            HourlyVariable::SoilMoisture9To27cm => "soil_moisture_9_to_27cm"@,
            HourlyVariable::SoilMoisture28To81cm => "soil_moisture_27_to_81cm"@,
            HourlyVariable::IsDay => "is_day"@,
            HourlyVariable::GeopotentialHeightPressureLevel(n) => level_wire("geopotential_height_"@, *n),
            HourlyVariable::Time => "time"@,
        }
    }


    fn token(&self) -> (r: String) {
        match self {
            HourlyVariable::Temperature2m => String::from_str("temperature_2m"),
            HourlyVariable::TemperaturePressureLevel(n) => level_token("temperature_", *n),
            HourlyVariable::RelativeHumidity2m => String::from_str("relative_humidity_2m"),
            HourlyVariable::RelativeHumidityPressureLevel(n) => level_token("relative_humidity_", *n),
            HourlyVariable::DewPoint2m => String::from_str("dew_point_2m"),
            HourlyVariable::DewPointPressureLevel(n) => level_token("dew_point_", *n),
            HourlyVariable::ApparentTemperature => String::from_str("apparent_temperature"),
            HourlyVariable::PressureMsl => String::from_str("pressure_msl"),
            HourlyVariable::SurfacePressure => String::from_str("surface_pressure"),
            HourlyVariable::CloudCover => String::from_str("cloud_cover"),
            HourlyVariable::CloudCoverLow => String::from_str("cloud_cover_low"),
            HourlyVariable::CloudCoverMid => String::from_str("cloud_cover_mid"),
            HourlyVariable::CloudCoverHigh => String::from_str("cloud_cover_high"),
            HourlyVariable::CloudCoverPressureLevel(n) => level_token("cloud_cover_", *n),
            HourlyVariable::WindSpeed10m => String::from_str("wind_speed_10m"),
            HourlyVariable::WindSpeed80m => String::from_str("wind_speed_80m"),
            HourlyVariable::WindSpeed120m => String::from_str("wind_speed_120m"),
            HourlyVariable::WindSpeed180m => String::from_str("wind_speed_180m"),
            HourlyVariable::WindSpeedPressureLevel(n) => level_token("wind_speed_", *n),
            HourlyVariable::WindDirection10m => String::from_str("wind_direction_10m"),
            HourlyVariable::WindDirection80m => String::from_str("wind_direction_80m"),
            HourlyVariable::WindDirection120m => String::from_str("wind_direction_120m"),
            HourlyVariable::WindDIrection180m => String::from_str("wind_direction_180m"),
            HourlyVariable::WindDirectionPressureLevel(n) => level_token("wind_direction_", *n),
            HourlyVariable::WindGusts10m => String::from_str("wind_gusts_10m"),
            HourlyVariable::ShortwaveRadiation => String::from_str("shortwave_radiation"),
            HourlyVariable::DirectRadiation => String::from_str("direct_radiation"),
            HourlyVariable::DirectNormalIrradiance => String::from_str("direct_normal_irradiance"),
            HourlyVariable::DiffuseRadiation => String::from_str("diffuse_radiation"),
            HourlyVariable::GlobalTiltedIrradiance => String::from_str("global_tilted_irradiance"),
            HourlyVariable::VapourPressureDeficit => String::from_str("vapour_pressure_deficit"),
            HourlyVariable::Cape => String::from_str("cape"),
            HourlyVariable::Evapotranspiration => String::from_str("evapotranspiration"),
            HourlyVariable::Et0FaoEvapotranspiration => String::from_str("et0_fao_evapotranspiration"),
            HourlyVariable::Precipitation => String::from_str("precipitation"),
            HourlyVariable::Snowfall => String::from_str("snowfall"),
            HourlyVariable::PrecipitationProbability => String::from_str("precipitation_probability"),
            HourlyVariable::Rain => String::from_str("rain"),
            HourlyVariable::Showers => String::from_str("showers"),
            HourlyVariable::WeatherCode => String::from_str("weather_code"),
            HourlyVariable::SnowDepth => String::from_str("snow_depth"),
            HourlyVariable::FreezingLevelHeight => String::from_str("freezing_level_height"),
            HourlyVariable::Visibility => String::from_str("visibility"),
            HourlyVariable::SoilTemperature0cm => String::from_str("soil_temperature_0cm"),
            HourlyVariable::SoilTemperature6cm => String::from_str("soil_temperature_6cm"),
            HourlyVariable::SoilTemperature18cm => String::from_str("soil_temperature_18cm"),
            HourlyVariable::SoilTemperature54cm => String::from_str("soil_temperature_54cm"),
            HourlyVariable::SoilMoisture0To1cm => String::from_str("soil_moisture_0_to_1cm"),
            HourlyVariable::SoilMoisture1To3cm => String::from_str("soil_moisture_1_to_3cm"),
            HourlyVariable::SoilMoisture3To9cm => String::from_str("soil_moisture_3_to_9cm"),
            HourlyVariable::SoilMoisture9To27cm => String::from_str("soil_moisture_9_to_27cm"),
            HourlyVariable::SoilMoisture28To81cm => String::from_str("soil_moisture_27_to_81cm"),
            HourlyVariable::IsDay => String::from_str("is_day"),
            HourlyVariable::GeopotentialHeightPressureLevel(n) => level_token("geopotential_height_", *n),
            HourlyVariable::Time => String::from_str("time"),
        }
    }
}

impl Variable for HourlyVariable {
    open spec fn named_by(t: Seq<char>) -> Option<HourlyVariable> {
        if exists|v: HourlyVariable| !v.is_level() && v.wire() == t {
            Some(choose|v: HourlyVariable| !v.is_level() && v.wire() == t)
        } else if ends_with(t, "hPa"@) {
            Self::level_named(t.take(t.len() - 3))
        } else {
            None
        }
    }

    open spec fn level_shaped(t: Seq<char>) -> bool {
        ends_with(t, "hPa"@)
    }

    fn decode(t: &str) -> (r: Result<HourlyVariable, DecodeError>) {
        let owned = t.to_owned();
        let members = Self::fixed();
        proof {
            Self::lemma_fixed_members();
        }
        let mut i: usize = 0;
        while i < members.len()
            invariant
                members@ == Self::fixed_members(),
                owned@ == t@,
                forall|j: int| 0 <= j < i ==> (#[trigger] members@[j]).wire() != t@,
            decreases members.len() - i,
        {
            let v = members[i];
            if v.token() == owned {
                proof {
                    let w = choose|w: HourlyVariable| !w.is_level() && w.wire() == t@;
                    Self::lemma_fixed_distinct(v, w);
                }
                return Ok(v);
            }
            i = i + 1;
        }
        proof {
            assert forall|w: HourlyVariable| !w.is_level() implies w.wire() != t@ by {
                assert(members@[w.fixed_index()] == w);
            }
        }
        Self::decode_level(t, owned)
    }

    fn same(&self, other: &Self) -> (r: bool) {
        *self == *other
    }
}

} // verus!
