use crate::text::{decimal_string, decimal_text, same_text, two_digit_string, two_digit_text};
use vstd::prelude::*;

verus! {

/// The address at which the weather service reports on `location`, in metric
/// units, for the holder of `api_key`. Both are placed as they are given.
pub open spec fn query_address(location: Seq<char>, api_key: Seq<char>) -> Seq<char> {
    "https://api.openweathermap.org/data/2.5/weather?q="@ + location + "&appid="@ + api_key
        + "&units=metric"@
}

/// Builds the address to ask the weather service about `location`.
pub fn weather_url(location: &str, api_key: &str) -> (url: String)
    ensures
        url@ == query_address(location@, api_key@),
{
    let mut url = "https://api.openweathermap.org/data/2.5/weather?q=".to_owned();
    url.append(location);
    url.append("&appid=");
    url.append(api_key);
    url.append("&units=metric");
    url
}

/// The sentence that the bot says about a sky that the weather service
/// describes as `description`.
pub open spec fn advice_for(description: Seq<char>) -> Seq<char> {
    if description == "clear sky"@ {
        "The sky is clear, and the weather is perfect for any activity"@
    } else if description == "few clouds"@ {
        "A few clouds are scattered, but the sky is still clear"@
    } else if description == "scattered clouds"@ {
        "Clouds are scattered, but the sky is still clear"@
    } else if description == "broken clouds"@ {
        "Clouds are broken, but the sky is still clear"@
    } else if description == "shower rain"@ {
        "It's raining, but not too much, and it's perfect for a walk"@
    } else if description == "rain"@ {
        "It's raining, and you should stay indoors and play videogames"@
    } else if description == "thunderstorm"@ {
        "It's a thunderstorm, which is perfect for a stroll"@
    } else if description == "snow"@ {
        "It's snowing, and you should stay indoors and enjoy your snowy day"@
    } else if description == "mist"@ {
        "It's a mist, which is perfect for a walk"@
    } else {
        "I'm not sure what the weather is like in this location, but it's always good to check outside"@
    }
}

/// Chooses the sentence for a sky described as `description`. A description
/// that is not one of the nine known ones gets the sentence of last resort.
pub fn weather_advice(description: &str) -> (advice: &'static str)
    ensures
        advice@ == advice_for(description@),
{
    if same_text(description, "clear sky") {
        "The sky is clear, and the weather is perfect for any activity"
    } else if same_text(description, "few clouds") {
        "A few clouds are scattered, but the sky is still clear"
    } else if same_text(description, "scattered clouds") {
        "Clouds are scattered, but the sky is still clear"
    } else if same_text(description, "broken clouds") {
        "Clouds are broken, but the sky is still clear"
    } else if same_text(description, "shower rain") {
        "It's raining, but not too much, and it's perfect for a walk"
    } else if same_text(description, "rain") {
        "It's raining, and you should stay indoors and play videogames"
    } else if same_text(description, "thunderstorm") {
        "It's a thunderstorm, which is perfect for a stroll"
    } else if same_text(description, "snow") {
        "It's snowing, and you should stay indoors and enjoy your snowy day"
    } else if same_text(description, "mist") {
        "It's a mist, which is perfect for a walk"
    } else {
        "I'm not sure what the weather is like in this location, but it's always good to check outside"
    }
}

/// The time of day, as `HH:MM:SS`, at `seconds` seconds after midnight of some
/// day: hours wrap at twenty-four.
pub open spec fn clock_text(seconds: nat) -> Seq<char> {
    two_digit_text(((seconds / 3600) % 24) as int) + seq![':'] + two_digit_text(
        ((seconds / 60) % 60) as int,
    ) + seq![':'] + two_digit_text((seconds % 60) as int)
}

/// Renders the time of day at `seconds` seconds since an epoch that began at
/// midnight.
pub fn clock_string(seconds: u64) -> (s: String)
    ensures
        s@ == clock_text(seconds as nat),
{
    let hours: u8 = ((seconds / 3600) % 24) as u8;
    let minutes: u8 = ((seconds / 60) % 60) as u8;
    let secs: u8 = (seconds % 60) as u8;
    let mut s = two_digit_string(hours);
    proof {
        reveal_strlit(":");
    }
    s.append(":");
    s.append(two_digit_string(minutes).as_str());
    s.append(":");
    s.append(two_digit_string(secs).as_str());
    s
}

/// What a detailed weather report shows. The measured quantities arrive as the
/// numerals to print; the report adds their units.
pub struct WeatherDetails {
    /// Air temperature in degrees Celsius.
    pub temperature: String,
    /// Perceived temperature in degrees Celsius.
    pub feels_like: String,
    /// Relative humidity in percent.
    pub humidity: u32,
    /// Wind speed in metres per second.
    pub wind_speed: String,
    /// Rain of the last hour, where any fell.
    pub rain: Option<String>,
    /// The service's own words for the sky.
    pub description: String,
    /// Sunrise, in seconds since the epoch.
    pub sunrise: u64,
    /// Sunset, in seconds since the epoch.
    pub sunset: u64,
}

/// The line of a report that tells of rain.
pub open spec fn rain_text(rain: Option<String>) -> Seq<char> {
    match rain {
        Some(amount) => amount@ + " m/s"@,
        None => "No rain"@,
    }
}

/// The eight lines of a detailed report, each a label and its value.
pub open spec fn report_text(d: WeatherDetails) -> Seq<char> {
    "Temperature: "@ + d.temperature@ + "°C"@
        + "\nIt feels like: "@ + d.feels_like@ + "°C"@
        + "\nHumidity: "@ + decimal_text(d.humidity as nat) + "%"@
        + "\nWind speed: "@ + d.wind_speed@ + " m/s"@
        + "\nRain?: "@ + rain_text(d.rain)
        + "\nDescription: "@ + d.description@
        + "\nSunrise: "@ + clock_text(d.sunrise as nat)
        + "\nSunset: "@ + clock_text(d.sunset as nat)
}

/// Writes the detailed report.
pub fn details_report(d: &WeatherDetails) -> (report: String)
    ensures
        report@ == report_text(*d),
{
    let mut report = "Temperature: ".to_owned();
    report.append(d.temperature.as_str());
    report.append("°C");
    report.append("\nIt feels like: ");
    report.append(d.feels_like.as_str());
    report.append("°C");
    report.append("\nHumidity: ");
    report.append(decimal_string(d.humidity as u64).as_str());
    report.append("%");
    report.append("\nWind speed: ");
    report.append(d.wind_speed.as_str());
    report.append(" m/s");
    report.append("\nRain?: ");
    match &d.rain {
        Some(amount) => {
            report.append(amount.as_str());
            report.append(" m/s");
        },
        None => {
            report.append("No rain");
        },
    }
    report.append("\nDescription: ");
    report.append(d.description.as_str());
    report.append("\nSunrise: ");
    report.append(clock_string(d.sunrise).as_str());
    report.append("\nSunset: ");
    report.append(clock_string(d.sunset).as_str());
    report
}

} // verus!
