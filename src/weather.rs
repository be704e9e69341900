//! Weather alerts and the wording of forecast codes.

use vstd::prelude::*;
use crate::text::same_text;

verus! {

/// How severe a weather alert is.
#[derive(Debug, Clone, Copy, PartialEq, Eq)]
pub enum AlertSeverity {
    Extreme,
    Severe,
    Moderate,
    Minor,
    Unknown,
}

/// A weather alert as shown on the site.
#[derive(Debug, Clone, PartialEq, Eq)]
pub struct WeatherAlert {
    pub id: String,
    pub event: String,
    pub headline: String,
    pub description: String,
    pub severity: AlertSeverity,
    pub urgency: String,
    pub effective: String,
    pub expires: String,
    pub sender: String,
}

/// The text a string becomes under Unicode lower-casing.
pub uninterp spec fn lower_of(s: Seq<char>) -> Seq<char>;

/// Relies on `str::to_lowercase`: the result depends on the characters alone.
#[verifier::external_body]
fn lowercase(s: &str) -> (r: String)
    ensures
        r@ == lower_of(s@),
{
    s.to_lowercase()
}

/// The severity that a lower-case severity word names.
pub open spec fn severity_of_lowercase(t: Seq<char>) -> AlertSeverity {
    if t == "extreme"@ {
        AlertSeverity::Extreme
    } else if t == "severe"@ {
        AlertSeverity::Severe
    } else if t == "moderate"@ {
        AlertSeverity::Moderate
    } else if t == "minor"@ {
        AlertSeverity::Minor
    } else {
        AlertSeverity::Unknown
    }
}

impl AlertSeverity {
    /// The severity named by an already lower-cased word; any other word is
    /// `Unknown`.
    pub fn from_lowercase(t: &str) -> (r: AlertSeverity)
        ensures
            r == severity_of_lowercase(t@),
    {
        if same_text(t, "extreme") {
            AlertSeverity::Extreme
        } else if same_text(t, "severe") {
            AlertSeverity::Severe
        } else if same_text(t, "moderate") {
            AlertSeverity::Moderate
        } else if same_text(t, "minor") {
            AlertSeverity::Minor
        } else {
            AlertSeverity::Unknown
        }
    }

    /// The severity named by a word in any letter case.
    pub fn from_text(s: &str) -> (r: AlertSeverity)
        ensures
            r == severity_of_lowercase(lower_of(s@)),
    {
        let t = lowercase(s);
        AlertSeverity::from_lowercase(t.as_str())
    }
}

impl<'a> From<&'a str> for AlertSeverity {
    /// The severity named by a word in any letter case.
    fn from(s: &'a str) -> (r: AlertSeverity) {
        AlertSeverity::from_text(s)
    }
}

impl<'a> vstd::std_specs::convert::FromSpecImpl<&'a str> for AlertSeverity {
    open spec fn obeys_from_spec() -> bool {
        true
    }

    open spec fn from_spec(s: &'a str) -> AlertSeverity {
        severity_of_lowercase(lower_of(s@))
    }
}

/// Wording of a Tomorrow.io weather code.
pub open spec fn conditions_text(code: i32) -> Seq<char> {
    if code == 1000 {
        "Clear"@
    } else if code == 1100 {
        "Mostly Clear"@
    } else if code == 1101 {
        "Partly Cloudy"@
    } else if code == 1102 {
        "Mostly Cloudy"@
    } else if code == 1001 {
        "Cloudy"@
    } else if code == 2000 {
        "Fog"@
    } else if code == 2100 {
        "Light Fog"@
    } else if code == 4000 {
        "Drizzle"@
    } else if code == 4001 {
        "Rain"@
    } else if code == 4200 {
        "Light Rain"@
    } else if code == 4201 {
        "Heavy Rain"@
    } else if code == 5000 {
        "Snow"@
    } else if code == 5001 {
        "Flurries"@
    } else if code == 5100 {
        "Light Snow"@
    } else if code == 5101 {
        "Heavy Snow"@
    } else if code == 6000 {
        "Freezing Drizzle"@
    } else if code == 6001 {
        "Freezing Rain"@
    } else if code == 6200 {
        "Light Freezing Rain"@
    } else if code == 6201 {
        "Heavy Freezing Rain"@
    } else if code == 7000 {
        "Ice Pellets"@
    } else if code == 7101 {
        "Heavy Ice Pellets"@
    } else if code == 7102 {
        "Light Ice Pellets"@
    } else if code == 8000 {
        "Thunderstorm"@
    } else {
        "Unknown"@
    }
}

/// Human-readable conditions for a Tomorrow.io weather code; codes it does
/// not know, 0 among them, read "Unknown".
pub fn weather_code_to_conditions(code: i32) -> (r: String)
    ensures
        r@ == conditions_text(code),
{
    let text = match code {
        1000 => "Clear",
        1100 => "Mostly Clear",
        1101 => "Partly Cloudy",
        1102 => "Mostly Cloudy",
        1001 => "Cloudy",
        2000 => "Fog",
        2100 => "Light Fog",
        4000 => "Drizzle",
        4001 => "Rain",
        4200 => "Light Rain",
        4201 => "Heavy Rain",
        5000 => "Snow",
        5001 => "Flurries",
        5100 => "Light Snow",
        5101 => "Heavy Snow",
        6000 => "Freezing Drizzle",
        6001 => "Freezing Rain",
        6200 => "Light Freezing Rain",
        6201 => "Heavy Freezing Rain",
        7000 => "Ice Pellets",
        7101 => "Heavy Ice Pellets",
        7102 => "Light Ice Pellets",
        8000 => "Thunderstorm",
        _ => "Unknown",
    };
    text.to_string()
}

} // verus!
