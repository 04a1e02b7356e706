//! Request options of the forecast and geocoding services.
use vstd::prelude::*;
use vstd::string::StringExecFns;

use crate::current::CurrentVariable;
use crate::daily::DailyVariable;
use crate::hourly::HourlyVariable;
use crate::query::{
    count_text, count_value, list_text, list_value, param, push_param, query_view, text_text,
    text_value, texts_text, texts_value, token_text, token_value,
};
use crate::variable::Token;

verus! {

/// The unit in which temperatures are asked for.
#[derive(Clone, Copy, Debug, PartialEq, Eq, Hash, Structural)]
pub enum TemperatureUnit {
    Celsius,
    Fahrenheit,
}

impl Token for TemperatureUnit {
    open spec fn wire(&self) -> Seq<char> {
        match self {
            TemperatureUnit::Celsius => "celsius"@,
            TemperatureUnit::Fahrenheit => "fahrenheit"@,
        }
    }

    fn token(&self) -> (r: String) {
        match self {
            TemperatureUnit::Celsius => String::from_str("celsius"),
            TemperatureUnit::Fahrenheit => String::from_str("fahrenheit"),
        }
    }
}

/// The unit in which wind speeds are asked for.
#[derive(Clone, Copy, Debug, PartialEq, Eq, Hash, Structural)]
pub enum SpeedUnit {
    KilometersPerHour,
    MetersPerSecond,
    MilesPerHour,
    Knots,
}

impl Token for SpeedUnit {
    open spec fn wire(&self) -> Seq<char> {
        match self {
            SpeedUnit::KilometersPerHour => "kmh"@,
            SpeedUnit::MetersPerSecond => "ms"@,
            SpeedUnit::MilesPerHour => "mph"@,
            SpeedUnit::Knots => "kn"@,
        }
    }

    fn token(&self) -> (r: String) {
        match self {
            SpeedUnit::KilometersPerHour => String::from_str("kmh"),
            SpeedUnit::MetersPerSecond => String::from_str("ms"),
            SpeedUnit::MilesPerHour => String::from_str("mph"),
            SpeedUnit::Knots => String::from_str("kn"),
        }
    }
}

/// The unit in which precipitation is asked for.
#[derive(Clone, Copy, Debug, PartialEq, Eq, Hash, Structural)]
pub enum PrecipitationUnit {
    Millimeter,
    Inch,
}

impl Token for PrecipitationUnit {
    open spec fn wire(&self) -> Seq<char> {
        match self {
            PrecipitationUnit::Millimeter => "mm"@,
            PrecipitationUnit::Inch => "inch"@,
        }
    }

    fn token(&self) -> (r: String) {
        match self {
            PrecipitationUnit::Millimeter => String::from_str("mm"),
            PrecipitationUnit::Inch => String::from_str("inch"),
        }
    }
}

/// How timestamps are written in a response.
#[derive(Clone, Copy, Debug, PartialEq, Eq, Hash, Structural)]
pub enum TimeFormat {
    Iso8601,
    UnixTime,
}

impl Token for TimeFormat {
    open spec fn wire(&self) -> Seq<char> {
        match self {
            TimeFormat::Iso8601 => "iso8601"@,
            TimeFormat::UnixTime => "unixtime"@,
        }
    }

    fn token(&self) -> (r: String) {
        match self {
            TimeFormat::Iso8601 => String::from_str("iso8601"),
            TimeFormat::UnixTime => String::from_str("unixtime"),
        }
    }
}

/// How the grid cell of a location is chosen.
#[derive(Clone, Copy, Debug, PartialEq, Eq, Hash, Structural)]
pub enum CellSelection {
    Land,
    Sea,
    Nearest,
}

impl Token for CellSelection {
    open spec fn wire(&self) -> Seq<char> {
        match self {
            CellSelection::Land => "land"@,
            CellSelection::Sea => "sea"@,
            CellSelection::Nearest => "nearest"@,
        }
    }

    fn token(&self) -> (r: String) {
        match self {
            CellSelection::Land => String::from_str("land"),
            CellSelection::Sea => String::from_str("sea"),
            CellSelection::Nearest => String::from_str("nearest"),
        }
    }
}

/// Options of a place-name search.
pub struct GeocodeOptions {
    pub count: Option<usize>,
    pub language: Option<String>,
    pub country_code: Option<String>,
}

impl Default for GeocodeOptions {
    fn default() -> (r: Self)
        ensures
            r.count is None,
            r.language is None,
            r.country_code is None,
    {
        GeocodeOptions {
            count: None,
            language: None,
            country_code: None,
        }
    }
}

impl GeocodeOptions {
    /// The query parameters of the options, in order: one per option that is present.
    pub open spec fn query_spec(&self) -> Seq<(Seq<char>, Seq<char>)> {
        param("count"@, count_value(self.count))
            + param("language"@, text_value(self.language))
            + param("countryCode"@, text_value(self.country_code))
    }

    /// The query parameters of the options: each present option once, written by its own
    /// rule; each absent option left out.
    pub fn query(&self) -> (r: Vec<(String, String)>)
        ensures
            query_view(r@) == self.query_spec(),
    {
        let mut q: Vec<(String, String)> = Vec::new();
        let ghost mut acc: Seq<(Seq<char>, Seq<char>)> = Seq::empty();
        assert(query_view(q@) =~= acc);
        push_param(&mut q, "count", count_text(self.count));
        proof {
            acc = acc + param("count"@, count_value(self.count));
        }
        push_param(&mut q, "language", text_text(&self.language));
        proof {
            acc = acc + param("language"@, text_value(self.language));
        }
        push_param(&mut q, "countryCode", text_text(&self.country_code));
        proof {
            acc = acc + param("countryCode"@, text_value(self.country_code));
        }
        assert(acc =~= self.query_spec());
        q
    }
}

/// Options of a forecast request. The elevation, a real number, is added by the caller.
pub struct ForecastOptions {
    /// The hourly variables asked for.
    pub hourly: Option<Vec<HourlyVariable>>,
    /// The daily variables asked for.
    pub daily: Option<Vec<DailyVariable>>,
    /// The current-conditions variables asked for.
    pub current: Option<Vec<CurrentVariable>>,
    pub temperature_unit: Option<TemperatureUnit>,
    pub wind_speed_unit: Option<SpeedUnit>,
    pub precipitation_unit: Option<PrecipitationUnit>,
    pub time_format: Option<TimeFormat>,
    pub timezone: Option<String>,
    pub past_days: Option<usize>,
    pub past_hours: Option<usize>,
    pub past_minutely_15: Option<usize>,
    pub forecast_days: Option<usize>,
    pub forecast_hours: Option<usize>,
    pub forecast_minutely_15: Option<usize>,
    pub start_date: Option<String>,
    pub end_date: Option<String>,
    pub start_hour: Option<String>,
    pub end_hour: Option<String>,
    pub start_minutely_15: Option<String>,
    pub end_minutely_15: Option<String>,
    pub models: Option<Vec<String>>,
    pub cell_selection: Option<CellSelection>,
}

impl Default for ForecastOptions {
    fn default() -> (r: Self)
        ensures
            r.hourly is None,
            r.daily is None,
            r.current is None,
            r.temperature_unit is None,
            r.wind_speed_unit is None,
            r.precipitation_unit is None,
            r.time_format is None,
            r.timezone is None,
            r.past_days is None,
            r.past_hours is None,
            r.past_minutely_15 is None,
            r.forecast_days is None,
            r.forecast_hours is None,
            r.forecast_minutely_15 is None,
            r.start_date is None,
            r.end_date is None,
            r.start_hour is None,
            r.end_hour is None,
            r.start_minutely_15 is None,
            r.end_minutely_15 is None,
            r.models is None,
            r.cell_selection is None,
    {
        ForecastOptions {
            hourly: None,
            daily: None,
            current: None,
            temperature_unit: None,
            wind_speed_unit: None,
            precipitation_unit: None,
            time_format: None,
            timezone: None,
            past_days: None,
            past_hours: None,
            past_minutely_15: None,
            forecast_days: None,
            forecast_hours: None,
            forecast_minutely_15: None,
            start_date: None,
            end_date: None,
            start_hour: None,
            end_hour: None,
            start_minutely_15: None,
            end_minutely_15: None,
            models: None,
            cell_selection: None,
        }
    }
}

impl ForecastOptions {
    /// The query parameters of the options, in order: one per option that is present.
    pub open spec fn query_spec(&self) -> Seq<(Seq<char>, Seq<char>)> {
        param("hourly"@, list_value(self.hourly))
            + param("daily"@, list_value(self.daily))
            + param("current"@, list_value(self.current))
            + param("temperature_unit"@, token_value(self.temperature_unit))
            + param("wind_speed_unit"@, token_value(self.wind_speed_unit))
            + param("precipitation_unit"@, token_value(self.precipitation_unit))
            + param("time_format"@, token_value(self.time_format))
            + param("timezone"@, text_value(self.timezone))
            + param("past_days"@, count_value(self.past_days))
            + param("past_hours"@, count_value(self.past_hours))
            + param("past_minutely_15"@, count_value(self.past_minutely_15))
            + param("forecast_days"@, count_value(self.forecast_days))
            + param("forecast_hours"@, count_value(self.forecast_hours))
            + param("forecast_minutely_15"@, count_value(self.forecast_minutely_15))
            + param("start_date"@, text_value(self.start_date))
            + param("end_date"@, text_value(self.end_date))
            + param("start_hour"@, text_value(self.start_hour))
            + param("end_hour"@, text_value(self.end_hour))
            + param("start_minutely_15"@, text_value(self.start_minutely_15))
            + param("end_minutely_15"@, text_value(self.end_minutely_15))
            + param("models"@, texts_value(self.models))
            + param("cell_selection"@, token_value(self.cell_selection))
    }

    /// The query parameters of the options: each present option once, written by its own
    /// rule; each absent option left out.
    pub fn query(&self) -> (r: Vec<(String, String)>)
        ensures
            query_view(r@) == self.query_spec(),
    {
        let mut q: Vec<(String, String)> = Vec::new();
        let ghost mut acc: Seq<(Seq<char>, Seq<char>)> = Seq::empty();
        assert(query_view(q@) =~= acc);
        push_param(&mut q, "hourly", list_text(&self.hourly));
        proof {
            acc = acc + param("hourly"@, list_value(self.hourly));
        }
        push_param(&mut q, "daily", list_text(&self.daily));
        proof {
            acc = acc + param("daily"@, list_value(self.daily));
        }
        push_param(&mut q, "current", list_text(&self.current));
        proof {
            acc = acc + param("current"@, list_value(self.current));
        }
        push_param(&mut q, "temperature_unit", token_text(&self.temperature_unit));
        proof {
            acc = acc + param("temperature_unit"@, token_value(self.temperature_unit));
        }
        push_param(&mut q, "wind_speed_unit", token_text(&self.wind_speed_unit));
        proof {
            acc = acc + param("wind_speed_unit"@, token_value(self.wind_speed_unit));
        }
        push_param(&mut q, "precipitation_unit", token_text(&self.precipitation_unit));
        proof {
            acc = acc + param("precipitation_unit"@, token_value(self.precipitation_unit));
        }
        push_param(&mut q, "time_format", token_text(&self.time_format));
        proof {
            acc = acc + param("time_format"@, token_value(self.time_format));
        }
        push_param(&mut q, "timezone", text_text(&self.timezone));
        proof {
            acc = acc + param("timezone"@, text_value(self.timezone));
        }
        push_param(&mut q, "past_days", count_text(self.past_days));
        proof {
            acc = acc + param("past_days"@, count_value(self.past_days));
        }
        push_param(&mut q, "past_hours", count_text(self.past_hours));
        proof {
            acc = acc + param("past_hours"@, count_value(self.past_hours));
        }
        push_param(&mut q, "past_minutely_15", count_text(self.past_minutely_15));
        proof {
            acc = acc + param("past_minutely_15"@, count_value(self.past_minutely_15));
        }
        push_param(&mut q, "forecast_days", count_text(self.forecast_days));
        proof {
            acc = acc + param("forecast_days"@, count_value(self.forecast_days));
        }
        push_param(&mut q, "forecast_hours", count_text(self.forecast_hours));
        proof {
            acc = acc + param("forecast_hours"@, count_value(self.forecast_hours));
        }
        push_param(&mut q, "forecast_minutely_15", count_text(self.forecast_minutely_15));
        proof {
            acc = acc + param("forecast_minutely_15"@, count_value(self.forecast_minutely_15));
        }
        push_param(&mut q, "start_date", text_text(&self.start_date));
        proof {
            acc = acc + param("start_date"@, text_value(self.start_date));
        }
        push_param(&mut q, "end_date", text_text(&self.end_date));
        proof {
            acc = acc + param("end_date"@, text_value(self.end_date));
        }
        push_param(&mut q, "start_hour", text_text(&self.start_hour));
        proof {
            acc = acc + param("start_hour"@, text_value(self.start_hour));
        }
        push_param(&mut q, "end_hour", text_text(&self.end_hour));
        proof {
            acc = acc + param("end_hour"@, text_value(self.end_hour));
        }
        push_param(&mut q, "start_minutely_15", text_text(&self.start_minutely_15));
        proof {
            acc = acc + param("start_minutely_15"@, text_value(self.start_minutely_15));
        }
        push_param(&mut q, "end_minutely_15", text_text(&self.end_minutely_15));
        proof {
            acc = acc + param("end_minutely_15"@, text_value(self.end_minutely_15));
        }
        push_param(&mut q, "models", texts_text(&self.models));
        proof {
            acc = acc + param("models"@, texts_value(self.models));
        }
        push_param(&mut q, "cell_selection", token_text(&self.cell_selection));
        proof {
            acc = acc + param("cell_selection"@, token_value(self.cell_selection));
        }
        assert(acc =~= self.query_spec());
        q
    }
}

} // verus!
