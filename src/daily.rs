//! The catalog of variables of daily forecasts.
use vstd::prelude::*;
use vstd::string::StringExecFns;

use crate::error::DecodeError;
use crate::variable::{decode_outcome, Token, Variable};

verus! {

/// A quantity that a daily forecast can carry.
#[derive(Clone, Copy, Debug, Hash, PartialEq, Eq, Structural)]
pub enum DailyVariable {
    Temperature2mMax,
    Temperature2mMean,
    Temperature2mMin,
    ApparentTemperatureMax,
    ApparentTemperatureMean,
    ApparentTemperatureMin,
    PrecipitationSum,
    RainSum,
    ShowersSum,
    SnowfallSum,
    PrecipitationHours,
    PrecipitationProbabilityMax,
    PrecipitationProbabilityMean,
    PrecipitationProbabilityMin,
    WeatherCode,
    Sunrise,
    Sunset,
    SunshineDuration,
    DaylightDuration,
    WindSpeed10mMax,
    WindGusts10mMax,
    WindDirection10mDominant,
    ShortwaveRadiationSum,
    Et0FaoEvapotranspiration,
    UvIndexMax,
    UvIndexClearSkyMax,
    /// Not a requestable variable: a key found only among the units of a response.
    Time,
}

impl DailyVariable {
    /// The members with a fixed token, each once.
    pub open spec fn fixed_members() -> Seq<DailyVariable> {
        seq![
            DailyVariable::Temperature2mMax,
            DailyVariable::Temperature2mMean,
            DailyVariable::Temperature2mMin,
            DailyVariable::ApparentTemperatureMax,
            DailyVariable::ApparentTemperatureMean,
            DailyVariable::ApparentTemperatureMin,
            DailyVariable::PrecipitationSum,
            DailyVariable::RainSum,
            DailyVariable::ShowersSum,
            DailyVariable::SnowfallSum,
            DailyVariable::PrecipitationHours,
            DailyVariable::PrecipitationProbabilityMax,
            DailyVariable::PrecipitationProbabilityMean,
            DailyVariable::PrecipitationProbabilityMin,
            DailyVariable::WeatherCode,
            DailyVariable::Sunrise,
            DailyVariable::Sunset,
            DailyVariable::SunshineDuration,
            DailyVariable::DaylightDuration,
            DailyVariable::WindSpeed10mMax,
            DailyVariable::WindGusts10mMax,
            DailyVariable::WindDirection10mDominant,
            DailyVariable::ShortwaveRadiationSum,
            DailyVariable::Et0FaoEvapotranspiration,
            DailyVariable::UvIndexMax,
            DailyVariable::UvIndexClearSkyMax,
            DailyVariable::Time,
        ]
    }

    /// Where a member with a fixed token stands among the fixed members.
    pub open spec fn fixed_index(&self) -> int {
        match self {
            DailyVariable::Temperature2mMax => 0,
            DailyVariable::Temperature2mMean => 1,
            DailyVariable::Temperature2mMin => 2,
            DailyVariable::ApparentTemperatureMax => 3,
            DailyVariable::ApparentTemperatureMean => 4,
            DailyVariable::ApparentTemperatureMin => 5,
            DailyVariable::PrecipitationSum => 6,
            DailyVariable::RainSum => 7,
            DailyVariable::ShowersSum => 8,
            DailyVariable::SnowfallSum => 9,
            DailyVariable::PrecipitationHours => 10,
            DailyVariable::PrecipitationProbabilityMax => 11,
            DailyVariable::PrecipitationProbabilityMean => 12,
            DailyVariable::PrecipitationProbabilityMin => 13,
            DailyVariable::WeatherCode => 14,
            DailyVariable::Sunrise => 15,
            DailyVariable::Sunset => 16,
            DailyVariable::SunshineDuration => 17,
            DailyVariable::DaylightDuration => 18,
            DailyVariable::WindSpeed10mMax => 19,
            DailyVariable::WindGusts10mMax => 20,
            DailyVariable::WindDirection10mDominant => 21,
            DailyVariable::ShortwaveRadiationSum => 22,
            DailyVariable::Et0FaoEvapotranspiration => 23,
            DailyVariable::UvIndexMax => 24,
            DailyVariable::UvIndexClearSkyMax => 25,
            DailyVariable::Time => 26,
        }
    }

    fn fixed() -> (r: Vec<DailyVariable>)
        ensures
            r@ == Self::fixed_members(),
    {
        let r = vec![
            DailyVariable::Temperature2mMax,
            DailyVariable::Temperature2mMean,
            DailyVariable::Temperature2mMin,
            DailyVariable::ApparentTemperatureMax,
            DailyVariable::ApparentTemperatureMean,
            DailyVariable::ApparentTemperatureMin,
            DailyVariable::PrecipitationSum,
            DailyVariable::RainSum,
            DailyVariable::ShowersSum,
            DailyVariable::SnowfallSum,
            DailyVariable::PrecipitationHours,
            DailyVariable::PrecipitationProbabilityMax,
            DailyVariable::PrecipitationProbabilityMean,
            DailyVariable::PrecipitationProbabilityMin,
            DailyVariable::WeatherCode,
            DailyVariable::Sunrise,
            DailyVariable::Sunset,
            DailyVariable::SunshineDuration,
            DailyVariable::DaylightDuration,
            DailyVariable::WindSpeed10mMax,
            DailyVariable::WindGusts10mMax,
            DailyVariable::WindDirection10mDominant,
            DailyVariable::ShortwaveRadiationSum,
            DailyVariable::Et0FaoEvapotranspiration,
            DailyVariable::UvIndexMax,
            DailyVariable::UvIndexClearSkyMax,
            DailyVariable::Time,
        ];
        assert(r@ =~= Self::fixed_members());
        r
    }

    proof fn lemma_fixed_members()
        ensures
            forall|v: DailyVariable| true ==> 0 <= #[trigger] v.fixed_index() < Self::fixed_members().len()
                && Self::fixed_members()[v.fixed_index()] == v,
    {
    }

    /// Two members with a fixed token share it only if they are the same member.
    pub proof fn lemma_fixed_distinct(a: Self, b: Self)
        requires
            a.wire() == b.wire(),
        ensures
            a == b,
    {
        reveal_strlit("temperature_2m_max");
        reveal_strlit("temperature_2m_mean");
        reveal_strlit("temperature_2m_min");
        reveal_strlit("apparent_temperature_max");
        reveal_strlit("apparent_temperature_mean");
        reveal_strlit("apparent_temperature_min");
        reveal_strlit("precipitation_sum");
        reveal_strlit("rain_sum");
        reveal_strlit("showers_sum");
        reveal_strlit("snowfall_sum");
        reveal_strlit("precipitation_hours");
        reveal_strlit("precipitation_probability_max");
        reveal_strlit("precipitation_probability_mean");
        reveal_strlit("precipitation_probability_min");
        reveal_strlit("weather_code");
        reveal_strlit("sunrise");
        reveal_strlit("sunset");
        reveal_strlit("sunshine_duration");
        reveal_strlit("daylight_duration");
        reveal_strlit("wind_speed_10m_max");
        reveal_strlit("wind_gusts_10m_max");
        reveal_strlit("wind_direction_10m_dominant");
        reveal_strlit("shortwave_radiation_sum");
        reveal_strlit("et0_fao_evapotranspiration");
        reveal_strlit("uv_index_max");
        reveal_strlit("uv_index_clear_sky_max");
        reveal_strlit("time");
        let s = a.wire();
        let t = b.wire();
        // Equal tokens agree in length and at the positions where tokens of equal length differ.
        assert(s.len() == t.len());
        assert(s.len() > 5 ==> s[5] == t[5]);
        assert(s.len() > 16 ==> s[16] == t[16]);
        assert(s.len() > 22 ==> s[22] == t[22]);
        assert(s.len() > 27 ==> s[27] == t[27]);
    }

    /// Decoding the token of any member gives that member back.
    pub proof fn lemma_round_trip(v: Self)
        ensures
            Self::named_by(v.wire()) == Some(v),
    {
        let w = choose|w: Self| w.wire() == v.wire();
        Self::lemma_fixed_distinct(v, w);
    }

    /// Distinct members have distinct tokens.
    pub proof fn lemma_injective(a: Self, b: Self)
        requires
            a.wire() == b.wire(),
        ensures
            a == b,
    {
        Self::lemma_fixed_distinct(a, b);
    }

    /// A token names a member only if it is that member's token.
    pub proof fn lemma_named_by(t: Seq<char>, v: Self)
        requires
            Self::named_by(t) == Some(v),
        ensures
            v.wire() == t,
    {
    }

    /// Whatever decoding the token of `v` returns, by the contract of decoding, is `v`.
    pub proof fn lemma_decode_of_token(v: Self, r: Result<Self, DecodeError>)
        requires
            decode_outcome(r, v.wire(), Self::named_by(v.wire()), Self::level_shaped(v.wire())),
        ensures
            r == Ok::<Self, DecodeError>(v),
    {
        Self::lemma_round_trip(v);
    }
}

impl Token for DailyVariable {
    open spec fn wire(&self) -> Seq<char> {
        match self {
            DailyVariable::Temperature2mMax => "temperature_2m_max"@,
            DailyVariable::Temperature2mMean => "temperature_2m_mean"@,
            DailyVariable::Temperature2mMin => "temperature_2m_min"@,
            DailyVariable::ApparentTemperatureMax => "apparent_temperature_max"@,
            DailyVariable::ApparentTemperatureMean => "apparent_temperature_mean"@,
            DailyVariable::ApparentTemperatureMin => "apparent_temperature_min"@,
            DailyVariable::PrecipitationSum => "precipitation_sum"@,
            DailyVariable::RainSum => "rain_sum"@,
            DailyVariable::ShowersSum => "showers_sum"@,
            DailyVariable::SnowfallSum => "snowfall_sum"@,
            DailyVariable::PrecipitationHours => "precipitation_hours"@,
            DailyVariable::PrecipitationProbabilityMax => "precipitation_probability_max"@,
            DailyVariable::PrecipitationProbabilityMean => "precipitation_probability_mean"@,
            DailyVariable::PrecipitationProbabilityMin => "precipitation_probability_min"@,
            DailyVariable::WeatherCode => "weather_code"@,
            DailyVariable::Sunrise => "sunrise"@,
            DailyVariable::Sunset => "sunset"@,
            DailyVariable::SunshineDuration => "sunshine_duration"@,
            DailyVariable::DaylightDuration => "daylight_duration"@,
            DailyVariable::WindSpeed10mMax => "wind_speed_10m_max"@,
            DailyVariable::WindGusts10mMax => "wind_gusts_10m_max"@,
            DailyVariable::WindDirection10mDominant => "wind_direction_10m_dominant"@,
            DailyVariable::ShortwaveRadiationSum => "shortwave_radiation_sum"@,
            DailyVariable::Et0FaoEvapotranspiration => "et0_fao_evapotranspiration"@,
            DailyVariable::UvIndexMax => "uv_index_max"@,
            DailyVariable::UvIndexClearSkyMax => "uv_index_clear_sky_max"@,
            DailyVariable::Time => "time"@,
        }
    }


    fn token(&self) -> (r: String) {
        match self {
            DailyVariable::Temperature2mMax => String::from_str("temperature_2m_max"),
            DailyVariable::Temperature2mMean => String::from_str("temperature_2m_mean"),
            DailyVariable::Temperature2mMin => String::from_str("temperature_2m_min"),
            DailyVariable::ApparentTemperatureMax => String::from_str("apparent_temperature_max"),
            DailyVariable::ApparentTemperatureMean => String::from_str("apparent_temperature_mean"),
            DailyVariable::ApparentTemperatureMin => String::from_str("apparent_temperature_min"),
            DailyVariable::PrecipitationSum => String::from_str("precipitation_sum"),
            DailyVariable::RainSum => String::from_str("rain_sum"),
            DailyVariable::ShowersSum => String::from_str("showers_sum"),
            DailyVariable::SnowfallSum => String::from_str("snowfall_sum"),
            DailyVariable::PrecipitationHours => String::from_str("precipitation_hours"),
            DailyVariable::PrecipitationProbabilityMax => String::from_str("precipitation_probability_max"),
            DailyVariable::PrecipitationProbabilityMean => String::from_str("precipitation_probability_mean"),
            DailyVariable::PrecipitationProbabilityMin => String::from_str("precipitation_probability_min"),
            DailyVariable::WeatherCode => String::from_str("weather_code"),
            DailyVariable::Sunrise => String::from_str("sunrise"),
            DailyVariable::Sunset => String::from_str("sunset"),
            DailyVariable::SunshineDuration => String::from_str("sunshine_duration"),
            DailyVariable::DaylightDuration => String::from_str("daylight_duration"),
            DailyVariable::WindSpeed10mMax => String::from_str("wind_speed_10m_max"),
            DailyVariable::WindGusts10mMax => String::from_str("wind_gusts_10m_max"),
            DailyVariable::WindDirection10mDominant => String::from_str("wind_direction_10m_dominant"),
            DailyVariable::ShortwaveRadiationSum => String::from_str("shortwave_radiation_sum"),
            DailyVariable::Et0FaoEvapotranspiration => String::from_str("et0_fao_evapotranspiration"),
            DailyVariable::UvIndexMax => String::from_str("uv_index_max"),
            DailyVariable::UvIndexClearSkyMax => String::from_str("uv_index_clear_sky_max"),
            DailyVariable::Time => String::from_str("time"),
        }
    }
}

impl Variable for DailyVariable {
    open spec fn named_by(t: Seq<char>) -> Option<DailyVariable> {
        if exists|v: DailyVariable| v.wire() == t {
            Some(choose|v: DailyVariable| v.wire() == t)
        } else {
            None
        }
    }

    open spec fn level_shaped(t: Seq<char>) -> bool {
        false
    }

    fn decode(t: &str) -> (r: Result<DailyVariable, DecodeError>) {
        let owned = t.to_owned();
        let members = Self::fixed();
        proof {
            Self::lemma_fixed_members();
        }
        let mut i: usize = 0;
        while i < members.len()
            invariant
                members@ == Self::fixed_members(),
                owned@ == t@,
                forall|j: int| 0 <= j < i ==> (#[trigger] members@[j]).wire() != t@,
            decreases members.len() - i,
        {
            let v = members[i];
            if v.token() == owned {
                proof {
                    let w = choose|w: DailyVariable| w.wire() == t@;
                    Self::lemma_fixed_distinct(v, w);
                }
                return Ok(v);
            }
            i = i + 1;
        }
        proof {
            assert forall|w: DailyVariable| w.wire() != t@ by {
                assert(members@[w.fixed_index()] == w);
            }
        }
        Err(DecodeError::UnknownVariable(owned))
    }

    fn same(&self, other: &Self) -> (r: bool) {
        *self == *other
    }
}

} // verus!
