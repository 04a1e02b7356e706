//! The catalog of variables of current conditions.
use vstd::prelude::*;
use vstd::string::StringExecFns;

use crate::error::DecodeError;
use crate::variable::{decode_outcome, Token, Variable};

verus! {

/// A quantity that the current conditions can carry.
#[derive(Clone, Copy, Debug, Hash, PartialEq, Eq, Structural)]
pub enum CurrentVariable {
    Temperature2m,
    RelativeHumidity2m,
    DewPoint2m,
    ApparentTemperature,
    ShortwaveRadiation,
    DirectRadiation,
    DirectNormalIrradiance,
    GlobalTiltedIrradiance,
    GlobalTiltedIrradianceInstant,
    DiffuseRadiation,
    SunshineDuration,
    LightningPotential,
    Precipitation,
    Snowfall,
    Rain,
    Showers,
    SnowfallHeight,
    FreezingLevelHeight,
    Cape,
    WindSpeed10m,
    WindSpeed80m,
    WindDirection10m,
    WindDirection80m,
    WindGusts10m,
    Visibility,
    WeatherCode,
    IsDay,
    /// Not a requestable variable: a key found only among the units of a response.
    Time,
    /// Not a requestable variable: a key found only among the units of a response.
    Interval,
}

impl CurrentVariable {
    /// The members with a fixed token, each once.
    pub open spec fn fixed_members() -> Seq<CurrentVariable> {
        seq![
            CurrentVariable::Temperature2m,
            CurrentVariable::RelativeHumidity2m,
            CurrentVariable::DewPoint2m,
            CurrentVariable::ApparentTemperature,
            CurrentVariable::ShortwaveRadiation,
            CurrentVariable::DirectRadiation,
            CurrentVariable::DirectNormalIrradiance,
            CurrentVariable::GlobalTiltedIrradiance,
            CurrentVariable::GlobalTiltedIrradianceInstant,
            CurrentVariable::DiffuseRadiation,
            CurrentVariable::SunshineDuration,
            CurrentVariable::LightningPotential,
            CurrentVariable::Precipitation,
            CurrentVariable::Snowfall,
            CurrentVariable::Rain,
            CurrentVariable::Showers,
            CurrentVariable::SnowfallHeight,
            CurrentVariable::FreezingLevelHeight,
            CurrentVariable::Cape,
            CurrentVariable::WindSpeed10m,
            CurrentVariable::WindSpeed80m,
            CurrentVariable::WindDirection10m,
            CurrentVariable::WindDirection80m,
            CurrentVariable::WindGusts10m,
            CurrentVariable::Visibility,
            CurrentVariable::WeatherCode,
            CurrentVariable::IsDay,
            CurrentVariable::Time,
            CurrentVariable::Interval,
        ]
    }

    /// Where a member with a fixed token stands among the fixed members.
    pub open spec fn fixed_index(&self) -> int {
        match self {
            CurrentVariable::Temperature2m => 0,
            CurrentVariable::RelativeHumidity2m => 1,
            CurrentVariable::DewPoint2m => 2,
            CurrentVariable::ApparentTemperature => 3,
            CurrentVariable::ShortwaveRadiation => 4,
            CurrentVariable::DirectRadiation => 5,
            CurrentVariable::DirectNormalIrradiance => 6,
            CurrentVariable::GlobalTiltedIrradiance => 7,
            CurrentVariable::GlobalTiltedIrradianceInstant => 8,
            CurrentVariable::DiffuseRadiation => 9,
            CurrentVariable::SunshineDuration => 10,
            CurrentVariable::LightningPotential => 11,
            CurrentVariable::Precipitation => 12,
            CurrentVariable::Snowfall => 13,
            CurrentVariable::Rain => 14,
            CurrentVariable::Showers => 15,
            CurrentVariable::SnowfallHeight => 16,
            CurrentVariable::FreezingLevelHeight => 17,
            CurrentVariable::Cape => 18,
            CurrentVariable::WindSpeed10m => 19,
            CurrentVariable::WindSpeed80m => 20,
            CurrentVariable::WindDirection10m => 21,
            CurrentVariable::WindDirection80m => 22,
            CurrentVariable::WindGusts10m => 23,
            CurrentVariable::Visibility => 24,
            CurrentVariable::WeatherCode => 25,
            CurrentVariable::IsDay => 26,
            CurrentVariable::Time => 27,
            CurrentVariable::Interval => 28,
        }
    }

    fn fixed() -> (r: Vec<CurrentVariable>)
        ensures
            r@ == Self::fixed_members(),
    {
        let r = vec![
            CurrentVariable::Temperature2m,
            CurrentVariable::RelativeHumidity2m,
            CurrentVariable::DewPoint2m,
            CurrentVariable::ApparentTemperature,
            CurrentVariable::ShortwaveRadiation,
            CurrentVariable::DirectRadiation,
            CurrentVariable::DirectNormalIrradiance,
            CurrentVariable::GlobalTiltedIrradiance,
            CurrentVariable::GlobalTiltedIrradianceInstant,
            CurrentVariable::DiffuseRadiation,
            CurrentVariable::SunshineDuration,
            CurrentVariable::LightningPotential,
            CurrentVariable::Precipitation,
            CurrentVariable::Snowfall,
            CurrentVariable::Rain,
            CurrentVariable::Showers,
            CurrentVariable::SnowfallHeight,
            CurrentVariable::FreezingLevelHeight,
            CurrentVariable::Cape,
            CurrentVariable::WindSpeed10m,
            CurrentVariable::WindSpeed80m,
            CurrentVariable::WindDirection10m,
            CurrentVariable::WindDirection80m,
            CurrentVariable::WindGusts10m,
            CurrentVariable::Visibility,
            CurrentVariable::WeatherCode,
            CurrentVariable::IsDay,
            CurrentVariable::Time,
            CurrentVariable::Interval,
        ];
        assert(r@ =~= Self::fixed_members());
        r
    }

    proof fn lemma_fixed_members()
        ensures
            forall|v: CurrentVariable| true ==> 0 <= #[trigger] v.fixed_index() < Self::fixed_members().len()
                && Self::fixed_members()[v.fixed_index()] == v,
    {
    }

    /// Two members with a fixed token share it only if they are the same member.
    pub proof fn lemma_fixed_distinct(a: Self, b: Self)
        requires
            a.wire() == b.wire(),
        ensures
            a == b,
    {
        reveal_strlit("temperature_2m");
        reveal_strlit("relative_humidity_2m");
        reveal_strlit("dew_point_2m");
        reveal_strlit("apparent_temperature");
        reveal_strlit("shortwave_radiation");
        reveal_strlit("direct_radiation");
        reveal_strlit("direct_normal_irradiance");
        reveal_strlit("global_tilted_irradiance");
        reveal_strlit("global_tilted_irradiance_instant");
        reveal_strlit("diffuse_radiation");
        reveal_strlit("sunshine_duration");
        reveal_strlit("lightning_potential");
        reveal_strlit("precipitation");
        reveal_strlit("snowfall");
        reveal_strlit("rain");
        reveal_strlit("showers");
        reveal_strlit("snowfall_height");
        reveal_strlit("freezing_level_height");
        reveal_strlit("cape");
        reveal_strlit("wind_speed_10m");
        reveal_strlit("wind_speed_80m");
        reveal_strlit("wind_direction_10m");
        reveal_strlit("wind_direction_80m");
        reveal_strlit("wind_gusts_10m");
        reveal_strlit("visibility");
        reveal_strlit("weather_code");
        reveal_strlit("is_day");
        reveal_strlit("time");
        reveal_strlit("interval");
        let s = a.wire();
        let t = b.wire();
        // Equal tokens agree in length and at the positions where tokens of equal length differ.
        assert(s.len() == t.len());
        assert(s.len() > 0 ==> s[0] == t[0]);
        assert(s.len() > 5 ==> s[5] == t[5]);
        assert(s.len() > 11 ==> s[11] == t[11]);
        assert(s.len() > 15 ==> s[15] == t[15]);
    }

    /// Decoding the token of any member gives that member back.
    pub proof fn lemma_round_trip(v: Self)
        ensures
            Self::named_by(v.wire()) == Some(v),
    {
        let w = choose|w: Self| w.wire() == v.wire();
        Self::lemma_fixed_distinct(v, w);
    }

    /// Distinct members have distinct tokens.
    pub proof fn lemma_injective(a: Self, b: Self)
        requires
            a.wire() == b.wire(),
        ensures
            a == b,
    {
        Self::lemma_fixed_distinct(a, b);
    }

    /// A token names a member only if it is that member's token.
    pub proof fn lemma_named_by(t: Seq<char>, v: Self)
        requires
            Self::named_by(t) == Some(v),
        ensures
            v.wire() == t,
    {
    }

    /// Whatever decoding the token of `v` returns, by the contract of decoding, is `v`.
    pub proof fn lemma_decode_of_token(v: Self, r: Result<Self, DecodeError>)
        requires
            decode_outcome(r, v.wire(), Self::named_by(v.wire()), Self::level_shaped(v.wire())),
        ensures
            r == Ok::<Self, DecodeError>(v),
    {
        Self::lemma_round_trip(v);
    }
}

impl Token for CurrentVariable {
    open spec fn wire(&self) -> Seq<char> {
        match self {
            CurrentVariable::Temperature2m => "temperature_2m"@,
            CurrentVariable::RelativeHumidity2m => "relative_humidity_2m"@,
            CurrentVariable::DewPoint2m => "dew_point_2m"@,
            CurrentVariable::ApparentTemperature => "apparent_temperature"@,
            CurrentVariable::ShortwaveRadiation => "shortwave_radiation"@,
            CurrentVariable::DirectRadiation => "direct_radiation"@,
            CurrentVariable::DirectNormalIrradiance => "direct_normal_irradiance"@,
            CurrentVariable::GlobalTiltedIrradiance => "global_tilted_irradiance"@,
            CurrentVariable::GlobalTiltedIrradianceInstant => "global_tilted_irradiance_instant"@,
            CurrentVariable::DiffuseRadiation => "diffuse_radiation"@,
            CurrentVariable::SunshineDuration => "sunshine_duration"@,
            CurrentVariable::LightningPotential => "lightning_potential"@,
            CurrentVariable::Precipitation => "precipitation"@,
            CurrentVariable::Snowfall => "snowfall"@,
            CurrentVariable::Rain => "rain"@,
            CurrentVariable::Showers => "showers"@,
            CurrentVariable::SnowfallHeight => "snowfall_height"@,
            CurrentVariable::FreezingLevelHeight => "freezing_level_height"@,
            CurrentVariable::Cape => "cape"@,
            CurrentVariable::WindSpeed10m => "wind_speed_10m"@,
            CurrentVariable::WindSpeed80m => "wind_speed_80m"@,
            CurrentVariable::WindDirection10m => "wind_direction_10m"@,
            CurrentVariable::WindDirection80m => "wind_direction_80m"@,
            CurrentVariable::WindGusts10m => "wind_gusts_10m"@,
            CurrentVariable::Visibility => "visibility"@,
            CurrentVariable::WeatherCode => "weather_code"@,
            CurrentVariable::IsDay => "is_day"@,
            CurrentVariable::Time => "time"@,
            CurrentVariable::Interval => "interval"@,
        }
    }


    fn token(&self) -> (r: String) {
        match self {
            CurrentVariable::Temperature2m => String::from_str("temperature_2m"),
            CurrentVariable::RelativeHumidity2m => String::from_str("relative_humidity_2m"),
            CurrentVariable::DewPoint2m => String::from_str("dew_point_2m"),
            CurrentVariable::ApparentTemperature => String::from_str("apparent_temperature"),
            CurrentVariable::ShortwaveRadiation => String::from_str("shortwave_radiation"),
            CurrentVariable::DirectRadiation => String::from_str("direct_radiation"),
            CurrentVariable::DirectNormalIrradiance => String::from_str("direct_normal_irradiance"),
            CurrentVariable::GlobalTiltedIrradiance => String::from_str("global_tilted_irradiance"),
            CurrentVariable::GlobalTiltedIrradianceInstant => String::from_str("global_tilted_irradiance_instant"),
            CurrentVariable::DiffuseRadiation => String::from_str("diffuse_radiation"),
            CurrentVariable::SunshineDuration => String::from_str("sunshine_duration"),
            CurrentVariable::LightningPotential => String::from_str("lightning_potential"),
            CurrentVariable::Precipitation => String::from_str("precipitation"),
            CurrentVariable::Snowfall => String::from_str("snowfall"),
            CurrentVariable::Rain => String::from_str("rain"),
            CurrentVariable::Showers => String::from_str("showers"),
            CurrentVariable::SnowfallHeight => String::from_str("snowfall_height"),
            CurrentVariable::FreezingLevelHeight => String::from_str("freezing_level_height"),
            CurrentVariable::Cape => String::from_str("cape"),
            CurrentVariable::WindSpeed10m => String::from_str("wind_speed_10m"),
            CurrentVariable::WindSpeed80m => String::from_str("wind_speed_80m"),
            CurrentVariable::WindDirection10m => String::from_str("wind_direction_10m"),
            CurrentVariable::WindDirection80m => String::from_str("wind_direction_80m"),
            CurrentVariable::WindGusts10m => String::from_str("wind_gusts_10m"),
            CurrentVariable::Visibility => String::from_str("visibility"),
            CurrentVariable::WeatherCode => String::from_str("weather_code"),
            CurrentVariable::IsDay => String::from_str("is_day"),
            CurrentVariable::Time => String::from_str("time"),
            CurrentVariable::Interval => String::from_str("interval"),
        }
    }
}

impl Variable for CurrentVariable {
    open spec fn named_by(t: Seq<char>) -> Option<CurrentVariable> {
        if exists|v: CurrentVariable| v.wire() == t {
            Some(choose|v: CurrentVariable| v.wire() == t)
        } else {
            None
        }
    }

    open spec fn level_shaped(t: Seq<char>) -> bool {
        false
    }

    fn decode(t: &str) -> (r: Result<CurrentVariable, DecodeError>) {
        let owned = t.to_owned();
        let members = Self::fixed();
        proof {
            Self::lemma_fixed_members();
        }
        let mut i: usize = 0;
        while i < members.len()
            invariant
                members@ == Self::fixed_members(),
                owned@ == t@,
                forall|j: int| 0 <= j < i ==> (#[trigger] members@[j]).wire() != t@,
            decreases members.len() - i,
        {
            let v = members[i];
            if v.token() == owned {
                proof {
                    let w = choose|w: CurrentVariable| w.wire() == t@;
                    Self::lemma_fixed_distinct(v, w);
                }
                return Ok(v);
            }
            i = i + 1;
        }
        proof {
            assert forall|w: CurrentVariable| w.wire() != t@ by {
                assert(members@[w.fixed_index()] == w);
            }
        }
        Err(DecodeError::UnknownVariable(owned))
    }

    fn same(&self, other: &Self) -> (r: bool) {
        *self == *other
    }
}

} // verus!
