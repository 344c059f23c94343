//! The weather widget: the request it makes, the freshness of its cache,
//! the icon and class for a condition code, the clock times of sunrise and
//! sunset, and the Waybar text it prints.
use vstd::prelude::*;
use crate::number::{decimal, decimal_chars, is_digit};
use crate::text::{chars_of, is_word, join, string_of};

verus! {

/// `HH:MM`: two digits of an hour below 24, a colon, two digits of a
/// minute below 60.
pub open spec fn is_clock_text(s: Seq<char>) -> bool {
    &&& s.len() == 5
    &&& is_digit(s[0]) && is_digit(s[1]) && s[2] == ':' && is_digit(s[3]) && is_digit(s[4])
    &&& ((s[0] as int) - 48) * 10 + ((s[1] as int) - 48) < 24
    &&& ((s[3] as int) - 48) * 10 + ((s[4] as int) - 48) < 60
}

/// chrono's `DateTime::from_timestamp(secs, 0)`, then
/// `.with_timezone(&Local).format("%H:%M").to_string()`: the local clock
/// time of Unix time `secs`.  The three calls stand together because
/// `chrono::DateTime<Tz>` is parameterised by chrono's `TimeZone` trait and
/// is not declared to the library, so the instant never appears in a
/// signature here.  The contract states: `None` only out of chrono's range
/// (years -262143 to 262142), so `Some` within 8 * 10^12 seconds of the
/// epoch; a `Some` text is `HH:MM` with `%H` the hour `00`-`23` and `%M`
/// the minute `00`-`59`, as chrono documents them.  Which hour and minute
/// is not stated: it depends on the machine's time zone.  chrono panics
/// when the machine's zone data cannot be used; no argument decides that,
/// so no precondition excludes it.
#[verifier::external_body]
fn local_clock_time(secs: i64) -> (r: Option<String>)
    ensures
        -8_000_000_000_000 <= secs <= 8_000_000_000_000 ==> r is Some,
        r matches Some(t) ==> is_clock_text(t@),
{
    match chrono::DateTime::from_timestamp(secs, 0) {
        Some(t) => Some(t.with_timezone(&chrono::Local).format("%H:%M").to_string()),
        None => None,
    }
}

/// The local clock time (`HH:MM`) of Unix time `secs`, or the empty text
/// when chrono cannot represent it.  The hour and minute depend on the
/// machine's time zone, so the contract states only their form.
pub fn clock_time(secs: i64) -> (r: String)
    ensures
        r@.len() == 0 || is_clock_text(r@),
        -8_000_000_000_000 <= secs <= 8_000_000_000_000 ==> is_clock_text(r@),
{
    match local_clock_time(secs) {
        Some(t) => t,
        None => String::new(),
    }
}

/// The city shown: the configured name, or `Unknown`.
pub fn city_name(configured: Option<&str>) -> (city: String)
    ensures
        configured matches Some(c) ==> city@ == c@,
        configured is None ==> city@ == "Unknown"@,
{
    match configured {
        Some(c) => String::from_str(c),
        None => String::from_str("Unknown"),
    }
}

/// Seconds a cached report stays valid.
pub const CACHE_SECS: u64 = 1800;

/// A cache written `age_secs` seconds ago is used instead of a request.
pub fn cache_is_fresh(age_secs: u64) -> (r: bool)
    ensures
        r == (age_secs < 1800),
{
    age_secs < CACHE_SECS
}

/// The OpenWeatherMap current-weather request for a position, in metric
/// units and English.
pub open spec fn weather_url_text(lat: Seq<char>, lon: Seq<char>, key: Seq<char>) -> Seq<char> {
    "https://api.openweathermap.org/data/2.5/weather?lat="@ + lat + "&lon="@ + lon + "&appid="@
        + key + "&units=metric&lang=en"@
}

pub fn weather_url(lat: &str, lon: &str, key: &str) -> (url: String)
    ensures
        url@ == weather_url_text(lat@, lon@, key@),
{
    join("https://api.openweathermap.org/data/2.5/weather?lat=", lat).concat("&lon=").concat(
        lon,
    ).concat("&appid=").concat(key).concat("&units=metric&lang=en")
}

/// The Nerd Font glyph and CSS class for an OpenWeatherMap icon code.
pub open spec fn condition_style(code: Seq<char>) -> (Seq<char>, Seq<char>) {
    if code == "01d"@ {
        ("\u{e30d}"@, "sunny"@)
    } else if code == "01n"@ {
        ("\u{f186}"@, "clear-night"@)
    } else if code == "02d"@ {
        ("\u{e302}"@, "cloudy"@)
    } else if code == "02n"@ {
        ("\u{e37e}"@, "cloudy"@)
    } else if code == "03d"@ || code == "03n"@ {
        ("\u{e33d}"@, "cloudy"@)
    } else if code == "04d"@ || code == "04n"@ {
        ("\u{e312}"@, "cloudy"@)
    } else if code == "09d"@ || code == "09n"@ {
        ("\u{e318}"@, "rain"@)
    } else if code == "10d"@ {
        ("\u{e308}"@, "rain"@)
    } else if code == "10n"@ {
        ("\u{e325}"@, "rain"@)
    } else if code == "11d"@ || code == "11n"@ {
        ("\u{e31d}"@, "thunder"@)
    } else if code == "13d"@ || code == "13n"@ {
        ("\u{f067f}"@, "snow"@)
    } else if code == "50d"@ || code == "50n"@ {
        ("\u{e313}"@, "mist"@)
    } else {
        ("\u{f06a}"@, "unknown"@)
    }
}

fn style(icon: &str, class: &str) -> (r: (String, String))
    ensures
        r.0@ == icon@,
        r.1@ == class@,
{
    (String::from_str(icon), String::from_str(class))
}

/// The glyph and CSS class for an OpenWeatherMap icon code.
pub fn weather_icon(code: &str) -> (r: (String, String))
    ensures
        (r.0@, r.1@) == condition_style(code@),
{
    let c = chars_of(code);
    if is_word(&c, "01d") {
        style("\u{e30d}", "sunny")
    } else if is_word(&c, "01n") {
        style("\u{f186}", "clear-night")
    } else if is_word(&c, "02d") {
        style("\u{e302}", "cloudy")
    } else if is_word(&c, "02n") {
        style("\u{e37e}", "cloudy")
    } else if is_word(&c, "03d") || is_word(&c, "03n") {
        style("\u{e33d}", "cloudy")
    } else if is_word(&c, "04d") || is_word(&c, "04n") {
        style("\u{e312}", "cloudy")
    } else if is_word(&c, "09d") || is_word(&c, "09n") {
        style("\u{e318}", "rain")
    } else if is_word(&c, "10d") {
        style("\u{e308}", "rain")
    } else if is_word(&c, "10n") {
        style("\u{e325}", "rain")
    } else if is_word(&c, "11d") || is_word(&c, "11n") {
        style("\u{e31d}", "thunder")
    } else if is_word(&c, "13d") || is_word(&c, "13n") {
        style("\u{f067f}", "snow")
    } else if is_word(&c, "50d") || is_word(&c, "50n") {
        style("\u{e313}", "mist")
    } else {
        style("\u{f06a}", "unknown")
    }
}


/// The glyph and class of every condition code OpenWeatherMap sends, day
/// (`d`) and night (`n`): clear sky is sunny by day and clear-night by night,
/// few/scattered/broken clouds are cloudy, shower rain and rain are rain,
/// thunderstorm is thunder, snow is snow and mist is mist, each with its own
/// glyph.
pub proof fn lemma_condition_table()
    ensures
        condition_style(seq!['0', '1', 'd']) == (seq!['\u{e30d}'], seq!['s', 'u', 'n', 'n', 'y']),
        condition_style(seq!['0', '1', 'n']) == (seq!['\u{f186}'], seq!['c', 'l', 'e', 'a', 'r', '-', 'n', 'i', 'g', 'h', 't']),
        condition_style(seq!['0', '2', 'd']) == (seq!['\u{e302}'], seq!['c', 'l', 'o', 'u', 'd', 'y']),
        condition_style(seq!['0', '2', 'n']) == (seq!['\u{e37e}'], seq!['c', 'l', 'o', 'u', 'd', 'y']),
        condition_style(seq!['0', '3', 'd']) == (seq!['\u{e33d}'], seq!['c', 'l', 'o', 'u', 'd', 'y']),
        condition_style(seq!['0', '3', 'n']) == (seq!['\u{e33d}'], seq!['c', 'l', 'o', 'u', 'd', 'y']),
        condition_style(seq!['0', '4', 'd']) == (seq!['\u{e312}'], seq!['c', 'l', 'o', 'u', 'd', 'y']),
        condition_style(seq!['0', '4', 'n']) == (seq!['\u{e312}'], seq!['c', 'l', 'o', 'u', 'd', 'y']),
        condition_style(seq!['0', '9', 'd']) == (seq!['\u{e318}'], seq!['r', 'a', 'i', 'n']),
        condition_style(seq!['0', '9', 'n']) == (seq!['\u{e318}'], seq!['r', 'a', 'i', 'n']),
        condition_style(seq!['1', '0', 'd']) == (seq!['\u{e308}'], seq!['r', 'a', 'i', 'n']),
        condition_style(seq!['1', '0', 'n']) == (seq!['\u{e325}'], seq!['r', 'a', 'i', 'n']),
        condition_style(seq!['1', '1', 'd']) == (seq!['\u{e31d}'], seq!['t', 'h', 'u', 'n', 'd', 'e', 'r']),
        condition_style(seq!['1', '1', 'n']) == (seq!['\u{e31d}'], seq!['t', 'h', 'u', 'n', 'd', 'e', 'r']),
        condition_style(seq!['1', '3', 'd']) == (seq!['\u{f067f}'], seq!['s', 'n', 'o', 'w']),
        condition_style(seq!['1', '3', 'n']) == (seq!['\u{f067f}'], seq!['s', 'n', 'o', 'w']),
        condition_style(seq!['5', '0', 'd']) == (seq!['\u{e313}'], seq!['m', 'i', 's', 't']),
        condition_style(seq!['5', '0', 'n']) == (seq!['\u{e313}'], seq!['m', 'i', 's', 't']),
{
    reveal_strlit("01d");
    reveal_strlit("01n");
    reveal_strlit("02d");
    reveal_strlit("02n");
    reveal_strlit("03d");
    reveal_strlit("03n");
    reveal_strlit("04d");
    reveal_strlit("04n");
    reveal_strlit("09d");
    reveal_strlit("09n");
    reveal_strlit("10d");
    reveal_strlit("10n");
    reveal_strlit("11d");
    reveal_strlit("11n");
    reveal_strlit("13d");
    reveal_strlit("13n");
    reveal_strlit("50d");
    reveal_strlit("50n");
    reveal_strlit("\u{e302}");
    reveal_strlit("\u{e308}");
    reveal_strlit("\u{e30d}");
    reveal_strlit("\u{e312}");
    reveal_strlit("\u{e313}");
    reveal_strlit("\u{e318}");
    reveal_strlit("\u{e31d}");
    reveal_strlit("\u{e325}");
    reveal_strlit("\u{e33d}");
    reveal_strlit("\u{e37e}");
    reveal_strlit("\u{f067f}");
    reveal_strlit("\u{f06a}");
    reveal_strlit("\u{f186}");
    reveal_strlit("clear-night");
    reveal_strlit("cloudy");
    reveal_strlit("mist");
    reveal_strlit("rain");
    reveal_strlit("snow");
    reveal_strlit("sunny");
    reveal_strlit("thunder");
    reveal_strlit("unknown");
    assert(seq!['0', '1', 'd'] =~= "01d"@);
    assert(seq!['0', '1', 'n'] =~= "01n"@);
    assert(seq!['0', '2', 'd'] =~= "02d"@);
    assert(seq!['0', '2', 'n'] =~= "02n"@);
    assert(seq!['0', '3', 'd'] =~= "03d"@);
    assert(seq!['0', '3', 'n'] =~= "03n"@);
    assert(seq!['0', '4', 'd'] =~= "04d"@);
    assert(seq!['0', '4', 'n'] =~= "04n"@);
    assert(seq!['0', '9', 'd'] =~= "09d"@);
    assert(seq!['0', '9', 'n'] =~= "09n"@);
    assert(seq!['1', '0', 'd'] =~= "10d"@);
    assert(seq!['1', '0', 'n'] =~= "10n"@);
    assert(seq!['1', '1', 'd'] =~= "11d"@);
    assert(seq!['1', '1', 'n'] =~= "11n"@);
    assert(seq!['1', '3', 'd'] =~= "13d"@);
    assert(seq!['1', '3', 'n'] =~= "13n"@);
    assert(seq!['5', '0', 'd'] =~= "50d"@);
    assert(seq!['5', '0', 'n'] =~= "50n"@);
    assert(seq!['\u{e302}'] =~= "\u{e302}"@);
    assert(seq!['\u{e308}'] =~= "\u{e308}"@);
    assert(seq!['\u{e30d}'] =~= "\u{e30d}"@);
    assert(seq!['\u{e312}'] =~= "\u{e312}"@);
    assert(seq!['\u{e313}'] =~= "\u{e313}"@);
    assert(seq!['\u{e318}'] =~= "\u{e318}"@);
    assert(seq!['\u{e31d}'] =~= "\u{e31d}"@);
    assert(seq!['\u{e325}'] =~= "\u{e325}"@);
    assert(seq!['\u{e33d}'] =~= "\u{e33d}"@);
    assert(seq!['\u{e37e}'] =~= "\u{e37e}"@);
    assert(seq!['\u{f067f}'] =~= "\u{f067f}"@);
    assert(seq!['\u{f186}'] =~= "\u{f186}"@);
    assert(seq!['c', 'l', 'e', 'a', 'r', '-', 'n', 'i', 'g', 'h', 't'] =~= "clear-night"@);
    assert(seq!['c', 'l', 'o', 'u', 'd', 'y'] =~= "cloudy"@);
    assert(seq!['m', 'i', 's', 't'] =~= "mist"@);
    assert(seq!['r', 'a', 'i', 'n'] =~= "rain"@);
    assert(seq!['s', 'n', 'o', 'w'] =~= "snow"@);
    assert(seq!['s', 'u', 'n', 'n', 'y'] =~= "sunny"@);
    assert(seq!['t', 'h', 'u', 'n', 'd', 'e', 'r'] =~= "thunder"@);
}

/// Any code outside OpenWeatherMap's table is shown with the warning glyph
/// and the class `unknown`, and only such a code is.
pub proof fn lemma_condition_unknown(code: Seq<char>)
    ensures
        condition_style(code).1 == seq!['u', 'n', 'k', 'n', 'o', 'w', 'n'] <==> !(
        code == seq!['0', '1', 'd'] || code == seq!['0', '1', 'n'] || code == seq!['0', '2', 'd']
            || code == seq!['0', '2', 'n'] || code == seq!['0', '3', 'd'] || code == seq!['0', '3', 'n']
            || code == seq!['0', '4', 'd'] || code == seq!['0', '4', 'n'] || code == seq!['0', '9', 'd']
            || code == seq!['0', '9', 'n'] || code == seq!['1', '0', 'd'] || code == seq!['1', '0', 'n']
            || code == seq!['1', '1', 'd'] || code == seq!['1', '1', 'n'] || code == seq!['1', '3', 'd']
            || code == seq!['1', '3', 'n'] || code == seq!['5', '0', 'd'] || code == seq!['5', '0', 'n']),
        condition_style(code).1 == seq!['u', 'n', 'k', 'n', 'o', 'w', 'n'] ==> condition_style(code).0
            == seq!['\u{f06a}'],
{
    reveal_strlit("01d");
    reveal_strlit("01n");
    reveal_strlit("02d");
    reveal_strlit("02n");
    reveal_strlit("03d");
    reveal_strlit("03n");
    reveal_strlit("04d");
    reveal_strlit("04n");
    reveal_strlit("09d");
    reveal_strlit("09n");
    reveal_strlit("10d");
    reveal_strlit("10n");
    reveal_strlit("11d");
    reveal_strlit("11n");
    reveal_strlit("13d");
    reveal_strlit("13n");
    reveal_strlit("50d");
    reveal_strlit("50n");
    reveal_strlit("clear-night");
    reveal_strlit("cloudy");
    reveal_strlit("mist");
    reveal_strlit("rain");
    reveal_strlit("snow");
    reveal_strlit("sunny");
    reveal_strlit("thunder");
    reveal_strlit("unknown");
    reveal_strlit("\u{f06a}");
    assert(seq!['\u{f06a}'] =~= "\u{f06a}"@);
    assert(seq!['0', '1', 'd'] =~= "01d"@);
    assert(seq!['0', '1', 'n'] =~= "01n"@);
    assert(seq!['0', '2', 'd'] =~= "02d"@);
    assert(seq!['0', '2', 'n'] =~= "02n"@);
    assert(seq!['0', '3', 'd'] =~= "03d"@);
    assert(seq!['0', '3', 'n'] =~= "03n"@);
    assert(seq!['0', '4', 'd'] =~= "04d"@);
    assert(seq!['0', '4', 'n'] =~= "04n"@);
    assert(seq!['0', '9', 'd'] =~= "09d"@);
    assert(seq!['0', '9', 'n'] =~= "09n"@);
    assert(seq!['1', '0', 'd'] =~= "10d"@);
    assert(seq!['1', '0', 'n'] =~= "10n"@);
    assert(seq!['1', '1', 'd'] =~= "11d"@);
    assert(seq!['1', '1', 'n'] =~= "11n"@);
    assert(seq!['1', '3', 'd'] =~= "13d"@);
    assert(seq!['1', '3', 'n'] =~= "13n"@);
    assert(seq!['5', '0', 'd'] =~= "50d"@);
    assert(seq!['5', '0', 'n'] =~= "50n"@);
    assert(seq!['c', 'l', 'e', 'a', 'r', '-', 'n', 'i', 'g', 'h', 't'] =~= "clear-night"@);
    assert(seq!['c', 'l', 'o', 'u', 'd', 'y'] =~= "cloudy"@);
    assert(seq!['m', 'i', 's', 't'] =~= "mist"@);
    assert(seq!['r', 'a', 'i', 'n'] =~= "rain"@);
    assert(seq!['s', 'n', 'o', 'w'] =~= "snow"@);
    assert(seq!['s', 'u', 'n', 'n', 'y'] =~= "sunny"@);
    assert(seq!['t', 'h', 'u', 'n', 'd', 'e', 'r'] =~= "thunder"@);
    let u = seq!['u', 'n', 'k', 'n', 'o', 'w', 'n'];
    assert(u.len() == 7 && u[0] == 'u');
    assert("sunny"@ != u);
    assert("clear-night"@ != u);
    assert("cloudy"@ != u);
    assert("rain"@ != u);
    assert("snow"@ != u);
    assert("mist"@ != u);
    assert("thunder"@ != u);
    assert(u =~= "unknown"@);
    lemma_condition_table();
}

/// The current conditions as the widget shows them.  Temperatures and wind
/// speed arrive already rounded to text (whole degrees, tenths of m/s).
#[derive(Debug, PartialEq, Eq)]
pub struct Conditions {
    pub description: String,
    pub icon_code: String,
    pub temp: String,
    pub feels_like: String,
    pub temp_max: String,
    pub temp_min: String,
    pub pressure: u32,
    pub humidity: u32,
    pub wind_speed: String,
    pub sunrise: i64,
    pub sunset: i64,
}

/// What the widget prints for Waybar.
#[derive(Debug, PartialEq, Eq)]
pub struct WaybarOutput {
    pub text: String,
    pub alt: String,
    pub tooltip: String,
    pub class: String,
}

/// The tooltip: one fact per line (`\r` separated), sunrise and sunset
/// after a blank line.
pub open spec fn tooltip_text(
    city: Seq<char>,
    c: Conditions,
    sunrise: Seq<char>,
    sunset: Seq<char>,
) -> Seq<char> {
    "Location: "@ + city + "\rCondition: "@ + c.description@ + "\rTemperature: "@ + c.temp@
        + "\u{b0}C (Feels: "@ + c.feels_like@ + "\u{b0}C)\rPressure: "@ + decimal(c.pressure as nat)
        + " hPa\rHigh/Low: "@ + c.temp_max@ + "\u{b0}C / "@ + c.temp_min@ + "\u{b0}C\rHumidity: "@
        + decimal(c.humidity as nat) + "%\rWind: "@ + c.wind_speed@ + "m/s\r\rSunrise: "@ + sunrise
        + "\rSunset: "@ + sunset
}

/// The widget output for `city` under conditions `c`, with sunrise and
/// sunset given as clock texts.
pub open spec fn report_for(city: Seq<char>, c: Conditions, sunrise: Seq<char>, sunset: Seq<char>) -> (
    Seq<char>,
    Seq<char>,
    Seq<char>,
    Seq<char>,
) {
    let (icon, class) = condition_style(c.icon_code@);
    (icon + " "@ + c.temp@ + "\u{b0}C"@, city, tooltip_text(city, c, sunrise, sunset), class)
}

/// What the widget shows: the condition glyph, a space and the
/// temperature in degrees Celsius as its text; the city as its alternative
/// text; the condition's class; and a tooltip that opens with the city and
/// closes with the sunrise and sunset lines.
pub proof fn lemma_report_layout(city: Seq<char>, c: Conditions, sunrise: Seq<char>, sunset: Seq<char>)
    ensures
        ({
            let (text, alt, tooltip, class) = report_for(city, c, sunrise, sunset);
            let opening = seq!['L', 'o', 'c', 'a', 't', 'i', 'o', 'n', ':', ' '] + city;
            let closing = seq!['\r', '\r', 'S', 'u', 'n', 'r', 'i', 's', 'e', ':', ' '] + sunrise
                + seq!['\r', 'S', 'u', 'n', 's', 'e', 't', ':', ' '] + sunset;
            &&& text == condition_style(c.icon_code@).0 + seq![' '] + c.temp@ + seq!['\u{b0}', 'C']
            &&& alt == city
            &&& class == condition_style(c.icon_code@).1
            &&& tooltip.take(opening.len() as int) == opening
            &&& tooltip.skip(tooltip.len() - closing.len()) == closing
        }),
{
    reveal_strlit(" ");
    reveal_strlit("\u{b0}C");
    reveal_strlit("Location: ");
    reveal_strlit("m/s\r\rSunrise: ");
    reveal_strlit("\rSunset: ");
    let (text, alt, tooltip, class) = report_for(city, c, sunrise, sunset);
    let opening = seq!['L', 'o', 'c', 'a', 't', 'i', 'o', 'n', ':', ' '] + city;
    let closing = seq!['\r', '\r', 'S', 'u', 'n', 'r', 'i', 's', 'e', ':', ' '] + sunrise
        + seq!['\r', 'S', 'u', 'n', 's', 'e', 't', ':', ' '] + sunset;
    assert(text =~= condition_style(c.icon_code@).0 + seq![' '] + c.temp@ + seq!['\u{b0}', 'C']);
    let middle = "\rCondition: "@ + c.description@ + "\rTemperature: "@ + c.temp@
        + "\u{b0}C (Feels: "@ + c.feels_like@ + "\u{b0}C)\rPressure: "@ + decimal(c.pressure as nat)
        + " hPa\rHigh/Low: "@ + c.temp_max@ + "\u{b0}C / "@ + c.temp_min@ + "\u{b0}C\rHumidity: "@
        + decimal(c.humidity as nat) + "%\rWind: "@ + c.wind_speed@ + "m/s"@;
    reveal_strlit("m/s");
    assert("m/s\r\rSunrise: "@ =~= "m/s"@ + seq!['\r', '\r', 'S', 'u', 'n', 'r', 'i', 's', 'e', ':', ' ']);
    assert(tooltip =~= opening + middle + closing);
    assert(tooltip.take(opening.len() as int) =~= opening);
    assert(tooltip.skip(tooltip.len() - closing.len()) =~= closing);
}

/// The widget output for `city` under conditions `c`.  Sunrise and sunset
/// appear as local clock times (see `clock_time`).
pub fn weather_report(city: &str, c: &Conditions) -> (out: WaybarOutput)
    ensures
        exists|sunrise: Seq<char>, sunset: Seq<char>|
            {
                &&& (sunrise.len() == 0 || is_clock_text(sunrise))
                &&& (sunset.len() == 0 || is_clock_text(sunset))
                &&& (-8_000_000_000_000 <= c.sunrise <= 8_000_000_000_000 ==> is_clock_text(sunrise))
                &&& (-8_000_000_000_000 <= c.sunset <= 8_000_000_000_000 ==> is_clock_text(sunset))
                &&& (out.text@, out.alt@, out.tooltip@, out.class@) == report_for(
                    city@,
                    *c,
                    sunrise,
                    sunset,
                )
            },
{
    let sunrise = clock_time(c.sunrise);
    let sunset = clock_time(c.sunset);
    compose_report(city, c, sunrise.as_str(), sunset.as_str())
}

/// The widget output for `city` under conditions `c`, with the given
/// sunrise and sunset texts.
pub fn compose_report(city: &str, c: &Conditions, sunrise: &str, sunset: &str) -> (out: WaybarOutput)
    ensures
        (out.text@, out.alt@, out.tooltip@, out.class@) == report_for(city@, *c, sunrise@, sunset@),
{
    let (icon, class) = weather_icon(c.icon_code.as_str());
    let pressure = string_of(&decimal_chars(c.pressure as u64));
    let humidity = string_of(&decimal_chars(c.humidity as u64));
    let text = icon.concat(" ").concat(c.temp.as_str()).concat("\u{b0}C");
    let tooltip = join("Location: ", city).concat("\rCondition: ").concat(
        c.description.as_str(),
    ).concat("\rTemperature: ").concat(c.temp.as_str()).concat("\u{b0}C (Feels: ").concat(
        c.feels_like.as_str(),
    ).concat("\u{b0}C)\rPressure: ").concat(pressure.as_str()).concat(" hPa\rHigh/Low: ").concat(
        c.temp_max.as_str(),
    ).concat("\u{b0}C / ").concat(c.temp_min.as_str()).concat("\u{b0}C\rHumidity: ").concat(
        humidity.as_str(),
    ).concat("%\rWind: ").concat(c.wind_speed.as_str()).concat("m/s\r\rSunrise: ").concat(
        sunrise,
    ).concat("\rSunset: ").concat(sunset);
    WaybarOutput { text, alt: String::from_str(city), tooltip, class }
}

/// What the widget prints when the request fails: the cached report if
/// there is one, else a placeholder saying the fetch failed.
pub open spec fn fallback_text(cached: Option<Seq<char>>) -> Seq<char> {
    match cached {
        Some(c) => c,
        None => "{\"text\":\"\u{f092d} \", \"tooltip\":\"Fetch Failed\"}"@,
    }
}

pub fn fallback_output(cached: Option<String>) -> (out: String)
    ensures
        out@ == fallback_text(
            match cached {
                Some(c) => Some(c@),
                None => None,
            },
        ),
{
    match cached {
        Some(c) => c,
        None => String::from_str("{\"text\":\"\u{f092d} \", \"tooltip\":\"Fetch Failed\"}"),
    }
}


/// Something a run of the widget needs done outside the library.
#[derive(Debug, PartialEq, Eq)]
pub enum WeatherEffect {
    /// Read the settings (`CITY_NAME`, `LAT`, `LON`, `OWM_KEY`); answer
    /// `Settings`, or `Failed` when one of the last three is missing.
    ReadSettings,
    /// Make sure the cache directory exists; answer `Ack` or `Failed`.
    PrepareCache,
    /// How old the cache file is; answer `Age` (`None` when that cannot be
    /// told), or `Failed` when it was written in the future.
    CacheAge,
    /// Read the cache file; answer `Text` or `Failed`.
    ReadCache,
    /// Request this URL (5 s timeout) and decode the answer; answer
    /// `Fetched`, `NotFetched` when the request fails or is refused, or
    /// `Failed` when the client cannot be built or the answer not decoded.
    Fetch(String),
    /// Write this output as JSON to the cache and print it; answer `Ack`
    /// or `Failed`.
    Publish(WaybarOutput),
    /// Whether a cache file exists; answer `Exists`.
    CacheExists,
    /// Print the line on standard output.
    Print(String),
    /// Stop with the error the last answer reported.
    Abort,
    /// The run is over.
    Done,
}

/// What the driver reports back after an effect.
#[derive(Debug, PartialEq, Eq)]
pub enum WeatherReply {
    Settings { city: Option<String>, lat: String, lon: String, key: String },
    Age(Option<u64>),
    Text(String),
    Fetched(Conditions),
    NotFetched,
    Exists(bool),
    Failed,
    Ack,
}

/// The mathematical value of a `WeatherEffect`.
pub enum WeatherEffectView {
    ReadSettings,
    PrepareCache,
    CacheAge,
    ReadCache,
    Fetch(Seq<char>),
    Publish(Seq<char>, Seq<char>, Seq<char>, Seq<char>),
    CacheExists,
    Print(Seq<char>),
    Abort,
    Done,
}

impl View for WeatherEffect {
    type V = WeatherEffectView;

    open spec fn view(&self) -> WeatherEffectView {
        match self {
            WeatherEffect::ReadSettings => WeatherEffectView::ReadSettings,
            WeatherEffect::PrepareCache => WeatherEffectView::PrepareCache,
            WeatherEffect::CacheAge => WeatherEffectView::CacheAge,
            WeatherEffect::ReadCache => WeatherEffectView::ReadCache,
            WeatherEffect::Fetch(url) => WeatherEffectView::Fetch(url@),
            WeatherEffect::Publish(o) => WeatherEffectView::Publish(o.text@, o.alt@, o.tooltip@, o.class@),
            WeatherEffect::CacheExists => WeatherEffectView::CacheExists,
            WeatherEffect::Print(line) => WeatherEffectView::Print(line@),
            WeatherEffect::Abort => WeatherEffectView::Abort,
            WeatherEffect::Done => WeatherEffectView::Done,
        }
    }
}

/// Where a run of the widget stands.
#[derive(Debug, Clone, Copy, PartialEq, Eq)]
pub enum WeatherStage {
    Start,
    AwaitSettings,
    Preparing,
    AwaitAge,
    /// Reading a cache that is still fresh.
    ReadingFresh,
    AwaitFetch,
    Publishing,
    AwaitExists,
    /// Reading the cache after a failed request.
    ReadingFallback,
    Printing,
    Finished,
}

/// One run of the widget: the city shown and the request URL, once known.
pub struct WeatherSession {
    pub stage: WeatherStage,
    pub city: String,
    pub url: String,
}

/// The mathematical value of a `WeatherSession`.
pub struct WeatherModel {
    pub stage: WeatherStage,
    pub city: Seq<char>,
    pub url: Seq<char>,
}

impl View for WeatherSession {
    type V = WeatherModel;

    open spec fn view(&self) -> WeatherModel {
        WeatherModel { stage: self.stage, city: self.city@, url: self.url@ }
    }
}

pub open spec fn weather_at(m: WeatherModel, stage: WeatherStage) -> WeatherModel {
    WeatherModel { stage, ..m }
}

/// A clock text the widget may show for Unix time `secs` (see
/// `clock_time`).
pub open spec fn clock_text_for(secs: i64, t: Seq<char>) -> bool {
    &&& (t.len() == 0 || is_clock_text(t))
    &&& (-8_000_000_000_000 <= secs <= 8_000_000_000_000 ==> is_clock_text(t))
}

/// The transition of a run on a reply.  `sunrise` and `sunset` are the
/// clock texts of the fetched conditions, which depend on the machine's
/// time zone.
pub open spec fn weather_next(
    m: WeatherModel,
    r: WeatherReply,
    sunrise: Seq<char>,
    sunset: Seq<char>,
) -> (WeatherModel, WeatherEffectView) {
    match m.stage {
        WeatherStage::Start => (weather_at(m, WeatherStage::AwaitSettings), WeatherEffectView::ReadSettings),
        WeatherStage::AwaitSettings => match r {
            WeatherReply::Settings { city, lat, lon, key } => (
                WeatherModel {
                    stage: WeatherStage::Preparing,
                    city: match city {
                        Some(c) => c@,
                        None => "Unknown"@,
                    },
                    url: weather_url_text(lat@, lon@, key@),
                },
                WeatherEffectView::PrepareCache,
            ),
            _ => (weather_at(m, WeatherStage::Finished), WeatherEffectView::Abort),
        },
        WeatherStage::Preparing => match r {
            WeatherReply::Ack => (weather_at(m, WeatherStage::AwaitAge), WeatherEffectView::CacheAge),
            _ => (weather_at(m, WeatherStage::Finished), WeatherEffectView::Abort),
        },
        WeatherStage::AwaitAge => match r {
            WeatherReply::Age(Some(age)) if age < 1800 => (
                weather_at(m, WeatherStage::ReadingFresh),
                WeatherEffectView::ReadCache,
            ),
            WeatherReply::Age(_) => (weather_at(m, WeatherStage::AwaitFetch), WeatherEffectView::Fetch(m.url)),
            _ => (weather_at(m, WeatherStage::Finished), WeatherEffectView::Abort),
        },
        WeatherStage::ReadingFresh => match r {
            WeatherReply::Text(t) => (weather_at(m, WeatherStage::Printing), WeatherEffectView::Print(t@)),
            _ => (weather_at(m, WeatherStage::Finished), WeatherEffectView::Abort),
        },
        WeatherStage::AwaitFetch => match r {
            WeatherReply::Fetched(c) => {
                let (text, alt, tooltip, class) = report_for(m.city, c, sunrise, sunset);
                (
                    weather_at(m, WeatherStage::Publishing),
                    WeatherEffectView::Publish(text, alt, tooltip, class),
                )
            },
            WeatherReply::NotFetched => (
                weather_at(m, WeatherStage::AwaitExists),
                WeatherEffectView::CacheExists,
            ),
            _ => (weather_at(m, WeatherStage::Finished), WeatherEffectView::Abort),
        },
        WeatherStage::Publishing => match r {
            WeatherReply::Ack => (weather_at(m, WeatherStage::Finished), WeatherEffectView::Done),
            _ => (weather_at(m, WeatherStage::Finished), WeatherEffectView::Abort),
        },
        WeatherStage::AwaitExists => match r {
            WeatherReply::Exists(true) => (
                weather_at(m, WeatherStage::ReadingFallback),
                WeatherEffectView::ReadCache,
            ),
            _ => (weather_at(m, WeatherStage::Printing), WeatherEffectView::Print(fallback_text(None))),
        },
        WeatherStage::ReadingFallback => match r {
            WeatherReply::Text(t) => (
                weather_at(m, WeatherStage::Printing),
                WeatherEffectView::Print(fallback_text(Some(t@))),
            ),
            _ => (weather_at(m, WeatherStage::Finished), WeatherEffectView::Abort),
        },
        WeatherStage::Printing => (weather_at(m, WeatherStage::Finished), WeatherEffectView::Done),
        WeatherStage::Finished => (weather_at(m, WeatherStage::Finished), WeatherEffectView::Done),
    }
}

impl WeatherSession {
    /// A fresh run.
    pub fn new() -> (s: WeatherSession)
        ensures
            s@ == (WeatherModel { stage: WeatherStage::Start, city: Seq::empty(), url: Seq::empty() }),
    {
        WeatherSession { stage: WeatherStage::Start, city: String::new(), url: String::new() }
    }

    fn finish_with(&mut self, e: WeatherEffect) -> (r: WeatherEffect)
        ensures
            final(self)@ == weather_at(old(self)@, WeatherStage::Finished),
            r == e,
    {
        self.stage = WeatherStage::Finished;
        e
    }

    /// Advances the run on `reply` and returns what to do next.  The
    /// sunrise and sunset of fetched conditions appear as local clock
    /// times.
    pub fn step(&mut self, reply: WeatherReply) -> (e: WeatherEffect)
        ensures
            exists|sunrise: Seq<char>, sunset: Seq<char>|
                #![trigger weather_next(old(self)@, reply, sunrise, sunset)]
                {
                    &&& old(self).stage is AwaitFetch ==> (reply matches WeatherReply::Fetched(c)
                        ==> clock_text_for(c.sunrise, sunrise) && clock_text_for(c.sunset, sunset))
                    &&& (final(self)@, e@) == weather_next(old(self)@, reply, sunrise, sunset)
                },
    {
        let ghost empty = Seq::<char>::empty();
        match self.stage {
            WeatherStage::Start => {
                self.stage = WeatherStage::AwaitSettings;
                assert((self@, WeatherEffectView::ReadSettings) == weather_next(
                    old(self)@,
                    reply,
                    empty,
                    empty,
                ));
                WeatherEffect::ReadSettings
            },
            WeatherStage::AwaitSettings => {
                if let WeatherReply::Settings { city, lat, lon, key } = reply {
                    self.city = city_name(
                        match &city {
                            Some(c) => Some(c.as_str()),
                            None => None,
                        },
                    );
                    self.url = weather_url(lat.as_str(), lon.as_str(), key.as_str());
                    self.stage = WeatherStage::Preparing;
                    assert((self@, WeatherEffectView::PrepareCache) == weather_next(
                        old(self)@,
                        reply,
                        empty,
                        empty,
                    ));
                    WeatherEffect::PrepareCache
                } else {
                    let e = self.finish_with(WeatherEffect::Abort);
                    assert((self@, e@) == weather_next(old(self)@, reply, empty, empty));
                    e
                }
            },
            WeatherStage::Preparing => {
                let e = if let WeatherReply::Ack = reply {
                    self.stage = WeatherStage::AwaitAge;
                    WeatherEffect::CacheAge
                } else {
                    self.finish_with(WeatherEffect::Abort)
                };
                assert((self@, e@) == weather_next(old(self)@, reply, empty, empty));
                e
            },
            WeatherStage::AwaitAge => {
                let e = match reply {
                    WeatherReply::Age(Some(age)) if cache_is_fresh(age) => {
                        self.stage = WeatherStage::ReadingFresh;
                        WeatherEffect::ReadCache
                    },
                    WeatherReply::Age(_) => {
                        self.stage = WeatherStage::AwaitFetch;
                        WeatherEffect::Fetch(self.url.clone())
                    },
                    _ => self.finish_with(WeatherEffect::Abort),
                };
                assert((self@, e@) == weather_next(old(self)@, reply, empty, empty));
                e
            },
            WeatherStage::ReadingFresh => {
                let e = if let WeatherReply::Text(t) = reply {
                    self.stage = WeatherStage::Printing;
                    WeatherEffect::Print(t)
                } else {
                    self.finish_with(WeatherEffect::Abort)
                };
                assert((self@, e@) == weather_next(old(self)@, reply, empty, empty));
                e
            },
            WeatherStage::AwaitFetch => {
                match reply {
                    WeatherReply::Fetched(c) => {
                        let sunrise = clock_time(c.sunrise);
                        let sunset = clock_time(c.sunset);
                        let out = compose_report(self.city.as_str(), &c, sunrise.as_str(), sunset.as_str());
                        self.stage = WeatherStage::Publishing;
                        let e = WeatherEffect::Publish(out);
                        assert((self@, e@) == weather_next(old(self)@, reply, sunrise@, sunset@));
                        e
                    },
                    WeatherReply::NotFetched => {
                        self.stage = WeatherStage::AwaitExists;
                        let e = WeatherEffect::CacheExists;
                        assert((self@, e@) == weather_next(old(self)@, reply, empty, empty));
                        e
                    },
                    _ => {
                        let e = self.finish_with(WeatherEffect::Abort);
                        assert((self@, e@) == weather_next(old(self)@, reply, empty, empty));
                        e
                    },
                }
            },
            WeatherStage::Publishing => {
                let e = if let WeatherReply::Ack = reply {
                    self.finish_with(WeatherEffect::Done)
                } else {
                    self.finish_with(WeatherEffect::Abort)
                };
                assert((self@, e@) == weather_next(old(self)@, reply, empty, empty));
                e
            },
            WeatherStage::AwaitExists => {
                let e = if let WeatherReply::Exists(true) = reply {
                    self.stage = WeatherStage::ReadingFallback;
                    WeatherEffect::ReadCache
                } else {
                    self.stage = WeatherStage::Printing;
                    WeatherEffect::Print(fallback_output(None))
                };
                assert((self@, e@) == weather_next(old(self)@, reply, empty, empty));
                e
            },
            WeatherStage::ReadingFallback => {
                let e = if let WeatherReply::Text(t) = reply {
                    self.stage = WeatherStage::Printing;
                    WeatherEffect::Print(fallback_output(Some(t)))
                } else {
                    self.finish_with(WeatherEffect::Abort)
                };
                assert((self@, e@) == weather_next(old(self)@, reply, empty, empty));
                e
            },
            WeatherStage::Printing => {
                let e = self.finish_with(WeatherEffect::Done);
                assert((self@, e@) == weather_next(old(self)@, reply, empty, empty));
                e
            },
            WeatherStage::Finished => {
                let e = WeatherEffect::Done;
                assert((self@, e@) == weather_next(old(self)@, reply, empty, empty));
                e
            },
        }
    }
}


/// Steps left before the run is over, at most.
pub open spec fn weather_rank(stage: WeatherStage) -> nat {
    match stage {
        WeatherStage::Start => 8,
        WeatherStage::AwaitSettings => 7,
        WeatherStage::Preparing => 6,
        WeatherStage::AwaitAge => 5,
        WeatherStage::AwaitFetch => 4,
        WeatherStage::AwaitExists => 3,
        WeatherStage::ReadingFresh => 2,
        WeatherStage::ReadingFallback => 2,
        WeatherStage::Publishing => 1,
        WeatherStage::Printing => 1,
        WeatherStage::Finished => 0,
    }
}

/// Every step before the end brings the run closer to it.
pub proof fn lemma_weather_progress(m: WeatherModel, r: WeatherReply, sunrise: Seq<char>, sunset: Seq<char>)
    ensures
        ({
            let (n, e) = weather_next(m, r, sunrise, sunset);
            &&& !(m.stage is Finished) ==> weather_rank(n.stage) < weather_rank(m.stage)
            &&& m.stage is Finished ==> n == m && e is Done
        }),
{
}

/// A cache younger than half an hour is printed as it is, and no request
/// is made; an older or undated cache leads to the request.
pub proof fn lemma_weather_fresh_cache(m: WeatherModel, age: Option<u64>, t: String, sunrise: Seq<char>, sunset: Seq<char>)
    requires
        m.stage is AwaitAge,
    ensures
        ({
            let (n, e) = weather_next(m, WeatherReply::Age(age), sunrise, sunset);
            &&& (age matches Some(a) && a < 1800) ==> e is ReadCache && weather_next(
                n,
                WeatherReply::Text(t),
                sunrise,
                sunset,
            ).1 == WeatherEffectView::Print(t@)
            &&& !(age matches Some(a) && a < 1800) ==> e == WeatherEffectView::Fetch(m.url)
        }),
{
}

/// When the request fails, the cache is printed if there is one, and the
/// placeholder otherwise.
pub proof fn lemma_weather_fallback(m: WeatherModel, exists: bool, t: String, sunrise: Seq<char>, sunset: Seq<char>)
    requires
        m.stage is AwaitFetch,
    ensures
        ({
            let (n, e) = weather_next(m, WeatherReply::NotFetched, sunrise, sunset);
            let (n2, e2) = weather_next(n, WeatherReply::Exists(exists), sunrise, sunset);
            &&& e is CacheExists
            &&& !exists ==> e2 == WeatherEffectView::Print(fallback_text(None))
            &&& exists ==> e2 is ReadCache && weather_next(n2, WeatherReply::Text(t), sunrise, sunset).1
                == WeatherEffectView::Print(t@)
        }),
{
}

/// Only a successful request publishes a report, and what it publishes is
/// the report for the configured city and the fetched conditions.
pub proof fn lemma_weather_publishes_fetched(
    m: WeatherModel,
    r: WeatherReply,
    c: Conditions,
    sunrise: Seq<char>,
    sunset: Seq<char>,
)
    ensures
        weather_next(m, r, sunrise, sunset).1 is Publish ==> m.stage is AwaitFetch && r is Fetched,
        m.stage is AwaitFetch ==> weather_next(m, WeatherReply::Fetched(c), sunrise, sunset).1
            == WeatherEffectView::Publish(
            report_for(m.city, c, sunrise, sunset).0,
            report_for(m.city, c, sunrise, sunset).1,
            report_for(m.city, c, sunrise, sunset).2,
            report_for(m.city, c, sunrise, sunset).3,
        ),
{
}

} // verus!
