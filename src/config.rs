//! Settings of the application shell: where the background comes from and how the weather
//! location is given.
use vstd::prelude::*;
use vstd::string::StringExecFns;

use crate::variable::Token;

verus! {

/// Where the background picture comes from.
#[derive(Clone, Copy, Debug, PartialEq, Eq, Hash, Structural)]
pub enum BackgroundMode {
    /// A collection of the photo service.
    Unsplash,
    /// A solid color.
    Solid,
    /// A file on the local machine.
    Local,
}

impl BackgroundMode {
    /// All modes, in the order in which they are offered.
    pub fn all() -> (r: Vec<BackgroundMode>)
        ensures
            r@ == seq![BackgroundMode::Unsplash, BackgroundMode::Solid, BackgroundMode::Local],
    {
        let r = vec![BackgroundMode::Unsplash, BackgroundMode::Solid, BackgroundMode::Local];
        assert(r@ =~= seq![BackgroundMode::Unsplash, BackgroundMode::Solid, BackgroundMode::Local]);
        r
    }

    /// The background a mode starts with.
    pub open spec fn default_background_spec(&self) -> Seq<char> {
        match self {
            BackgroundMode::Unsplash => "1053828"@,
            BackgroundMode::Solid => "#000000"@,
            BackgroundMode::Local => ""@,
        }
    }

    /// The background a mode starts with: a collection id, a color or an empty path.
    pub fn default_background(&self) -> (r: &'static str)
        ensures
            r@ == self.default_background_spec(),
    {
        match self {
            BackgroundMode::Unsplash => "1053828",
            BackgroundMode::Solid => "#000000",
            BackgroundMode::Local => "",
        }
    }

    /// The label of the field in which the background of a mode is edited.
    pub open spec fn edit_text_spec(&self) -> Seq<char> {
        match self {
            BackgroundMode::Unsplash => "Unsplash collection"@,
            BackgroundMode::Solid => "Color (#rrggbb)"@,
            BackgroundMode::Local => "File path"@,
        }
    }

    /// The label of the field in which the background of a mode is edited.
    pub fn edit_text(&self) -> (r: &'static str)
        ensures
            r@ == self.edit_text_spec(),
    {
        match self {
            BackgroundMode::Unsplash => "Unsplash collection",
            BackgroundMode::Solid => "Color (#rrggbb)",
            BackgroundMode::Local => "File path",
        }
    }
}

impl Token for BackgroundMode {
    open spec fn wire(&self) -> Seq<char> {
        match self {
            BackgroundMode::Unsplash => "Unsplash"@,
            BackgroundMode::Solid => "Solid"@,
            BackgroundMode::Local => "Local"@,
        }
    }

    fn token(&self) -> (r: String) {
        match self {
            BackgroundMode::Unsplash => String::from_str("Unsplash"),
            BackgroundMode::Solid => String::from_str("Solid"),
            BackgroundMode::Local => String::from_str("Local"),
        }
    }
}

/// How the location of the weather forecast is given.
#[derive(Clone, Copy, Debug, PartialEq, Eq, Hash, Structural)]
pub enum WeatherLocation {
    /// No forecast is shown.
    Disabled,
    /// A place name, searched for.
    LocationName,
    /// Latitude and longitude.
    Coordinates,
}

impl WeatherLocation {
    /// All choices, in the order in which they are offered.
    pub fn all() -> (r: Vec<WeatherLocation>)
        ensures
            r@ == seq![
                WeatherLocation::Disabled,
                WeatherLocation::LocationName,
                WeatherLocation::Coordinates,
            ],
    {
        let r = vec![
            WeatherLocation::Disabled,
            WeatherLocation::LocationName,
            WeatherLocation::Coordinates,
        ];
        assert(r@ =~= seq![
            WeatherLocation::Disabled,
            WeatherLocation::LocationName,
            WeatherLocation::Coordinates,
        ]);
        r
    }
}

impl Token for WeatherLocation {
    open spec fn wire(&self) -> Seq<char> {
        match self {
            WeatherLocation::Disabled => "Disabled"@,
            WeatherLocation::LocationName => "Location name"@,
            WeatherLocation::Coordinates => "Coordinates"@,
        }
    }

    fn token(&self) -> (r: String) {
        match self {
            WeatherLocation::Disabled => String::from_str("Disabled"),
            WeatherLocation::LocationName => String::from_str("Location name"),
            WeatherLocation::Coordinates => String::from_str("Coordinates"),
        }
    }
}

/// How a place found by a name search is offered: its name, its first-level region where
/// known, and its country.
pub open spec fn location_label_spec(name: Seq<char>, admin1: Option<Seq<char>>, country: Seq<char>) -> Seq<char> {
    name + match admin1 {
        Some(region) => ", "@ + region,
        None => Seq::empty(),
    } + ", "@ + country
}

/// The label of a place found by a name search.
pub fn location_label(name: &str, admin1: Option<&str>, country: &str) -> (r: String)
    ensures
        r@ == location_label_spec(
            name@,
            match admin1 {
                Some(a) => Some(a@),
                None => None,
            },
            country@,
        ),
{
    let mut s = String::from_str(name);
    match admin1 {
        Some(region) => {
            s.append(", ");
            s.append(region);
        },
        None => {},
    }
    s.append(", ");
    s.append(country);
    assert(s@ =~= location_label_spec(
        name@,
        match admin1 {
            Some(a) => Some(a@),
            None => None,
        },
        country@,
    ));
    s
}

/// A control of the background slideshow.
#[derive(Clone, Copy, Debug, PartialEq, Eq, Hash, Structural)]
pub enum MediaControl {
    Pause,
    Previous,
    Next,
}

} // verus!
