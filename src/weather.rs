//! What the current conditions look like: the description and icon of a weather code.
use vstd::prelude::*;
use vstd::string::StringExecFns;

use crate::text::{decimal, push_decimal};

verus! {

/// The description of weather code `code` (WMO), by day or (where `is_day` is 0) by night.
pub open spec fn condition_spec(code: usize, is_day: usize) -> Seq<char> {
    if code == 0 {
        if is_day == 0 {
            "Clear"@
        } else {
            "Sunny"@
        }
    } else if code == 1 {
        if is_day == 0 {
            "Mainly clear"@
        } else {
            "Mainly sunny"@
        }
    } else if code == 2 {
        "Partly cloudy"@
    } else if code == 3 {
        "Overcast"@
    } else if code == 45 {
        "Foggy"@
    } else if code == 48 {
        "Rime fog"@
    } else if code == 51 {
        "Light drizzle"@
    } else if code == 53 {
        "Drizzle"@
    } else if code == 55 {
        "Heavy drizzle"@
    } else if code == 56 {
        "Light freezing drizzle"@
    } else if code == 57 {
        "Freezing drizzle"@
    } else if code == 61 {
        "Light rain"@
    } else if code == 63 {
        "Rain"@
    } else if code == 65 {
        "Heavy rain"@
    } else if code == 66 {
        "Light freezing rain"@
    } else if code == 67 {
        "Freezing rain"@
    } else if code == 71 {
        "Light snow"@
    } else if code == 73 {
        "Snow"@
    } else if code == 75 {
        "Heavy snow"@
    } else if code == 77 {
        "Snow grains"@
    } else if code == 80 {
        "Light showers"@
    } else if code == 81 {
        "Showers"@
    } else if code == 82 {
        "Heavy showers"@
    } else if code == 85 {
        "Light snow showers"@
    } else if code == 86 {
        "Snow showers"@
    } else if code == 95 {
        "Thunderstorm"@
    } else if code == 96 {
        "Light thunderstorm with hail"@
    } else if code == 99 {
        "Thunderstorm with hail"@
    } else {
        "Unknown"@
    }
}

/// The description of weather code `code` (WMO), by day or (where `is_day` is 0) by night;
/// "Unknown" for a code outside the table.
pub fn condition_text(code: usize, is_day: usize) -> (r: &'static str)
    ensures
        r@ == condition_spec(code, is_day),
{
    if code == 0 {
        if is_day == 0 {
            "Clear"
        } else {
            "Sunny"
        }
    } else if code == 1 {
        if is_day == 0 {
            "Mainly clear"
        } else {
            "Mainly sunny"
        }
    } else if code == 2 {
        "Partly cloudy"
    } else if code == 3 {
        "Overcast"
    } else if code == 45 {
        "Foggy"
    } else if code == 48 {
        "Rime fog"
    } else if code == 51 {
        "Light drizzle"
    } else if code == 53 {
        "Drizzle"
    } else if code == 55 {
        "Heavy drizzle"
    } else if code == 56 {
        "Light freezing drizzle"
    } else if code == 57 {
        "Freezing drizzle"
    } else if code == 61 {
        "Light rain"
    } else if code == 63 {
        "Rain"
    } else if code == 65 {
        "Heavy rain"
    } else if code == 66 {
        "Light freezing rain"
    } else if code == 67 {
        "Freezing rain"
    } else if code == 71 {
        "Light snow"
    } else if code == 73 {
        "Snow"
    } else if code == 75 {
        "Heavy snow"
    } else if code == 77 {
        "Snow grains"
    } else if code == 80 {
        "Light showers"
    } else if code == 81 {
        "Showers"
    } else if code == 82 {
        "Heavy showers"
    } else if code == 85 {
        "Light snow showers"
    } else if code == 86 {
        "Snow showers"
    } else if code == 95 {
        "Thunderstorm"
    } else if code == 96 {
        "Light thunderstorm with hail"
    } else if code == 99 {
        "Thunderstorm with hail"
    } else {
        "Unknown"
    }
}

/// The icon group of weather code `code`: related codes share an icon; 100 for a code outside
/// the table.
pub open spec fn icon_group_spec(code: usize) -> usize {
    if code == 0 {
        0
    } else if code == 1 {
        1
    } else if code == 2 {
        2
    } else if code == 3 {
        3
    } else if code == 45 || code == 48 {
        45
    } else if code == 51 || code == 53 || code == 55 || code == 56 || code == 57 {
        51
    } else if code == 61 || code == 63 || code == 65 || code == 66 || code == 67 {
        61
    } else if code == 71 || code == 73 || code == 75 {
        71
    } else if code == 77 {
        77
    } else if code == 80 || code == 81 || code == 82 || code == 85 || code == 86 {
        80
    } else if code == 95 {
        95
    } else if code == 96 || code == 99 {
        96
    } else {
        100
    }
}

/// The icon group of weather code `code`.
pub fn icon_group(code: usize) -> (r: usize)
    ensures
        r == icon_group_spec(code),
{
    if code == 0 {
        0
    } else if code == 1 {
        1
    } else if code == 2 {
        2
    } else if code == 3 {
        3
    } else if code == 45 || code == 48 {
        45
    } else if code == 51 || code == 53 || code == 55 || code == 56 || code == 57 {
        51
    } else if code == 61 || code == 63 || code == 65 || code == 66 || code == 67 {
        61
    } else if code == 71 || code == 73 || code == 75 {
        71
    } else if code == 77 {
        77
    } else if code == 80 || code == 81 || code == 82 || code == 85 || code == 86 {
        80
    } else if code == 95 {
        95
    } else if code == 96 || code == 99 {
        96
    } else {
        100
    }
}

/// The path of the icon of weather code `code` by day or by night.
pub open spec fn icon_path_spec(code: usize, is_day: usize) -> Seq<char> {
    "icons/weather/"@ + decimal(icon_group_spec(code) as nat) + "-"@ + decimal(is_day as nat) + ".svg"@
}

/// The path of the icon of weather code `code` by day or by night.
pub fn icon_path(code: usize, is_day: usize) -> (r: String)
    ensures
        r@ == icon_path_spec(code, is_day),
{
    let mut s = String::from_str("icons/weather/");
    push_decimal(&mut s, icon_group(code));
    s.append("-");
    push_decimal(&mut s, is_day);
    s.append(".svg");
    s
}

} // verus!
