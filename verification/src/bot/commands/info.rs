//! The `info` command: the time, how many nodes are online, and the
//! weather.
use vstd::prelude::*;
use crate::bot::replies::{CommandResponse, ReplyDestination};
use crate::utils::text::{decimal, push_decimal};
use crate::bot::node_tracker::{NodeTracker, online_count};
use crate::utils::clock::system_unix_secs;
use std::fmt::Write;

verus! {

pub const NAME: &'static str = "info";
pub const ALIAS: &'static str = "status";
pub const DESCRIPTION: &'static str = "Network status";

/// What the info reply shows for weather that could not be fetched.
pub const UNAVAILABLE: &'static str = "unavailable";

/// Current weather, as the info reply shows it.
#[derive(Debug, Clone)]
pub struct WeatherReport {
    /// The temperature with its unit, e.g. `41.2°F`.
    pub temp: String,
    /// The conditions in words.
    pub conditions: String,
}

/// Why weather could not be fetched.
#[derive(Debug, Clone)]
pub enum WeatherError {
    /// The request failed, with the reason.
    Request(String),
    /// The service answered with this HTTP status.
    Status(u16),
}

/// The words for a WMO weather interpretation code.
pub open spec fn wmo_description(code: i32) -> Seq<char> {
    if code == 0 { "Clear sky"@ }
    else if code == 1 { "Mainly clear"@ }
    else if code == 2 { "Partly cloudy"@ }
    else if code == 3 { "Overcast"@ }
    else if code == 45 { "Fog"@ }
    else if code == 48 { "Depositing rime fog"@ }
    else if code == 51 { "Light drizzle"@ }
    else if code == 53 { "Moderate drizzle"@ }
    else if code == 55 { "Dense drizzle"@ }
    else if code == 56 { "Light freezing drizzle"@ }
    else if code == 57 { "Dense freezing drizzle"@ }
    else if code == 61 { "Slight rain"@ }
    else if code == 63 { "Moderate rain"@ }
    else if code == 65 { "Heavy rain"@ }
    else if code == 66 { "Light freezing rain"@ }
    else if code == 67 { "Heavy freezing rain"@ }
    else if code == 71 { "Slight snow fall"@ }
    else if code == 73 { "Moderate snow fall"@ }
    else if code == 75 { "Heavy snow fall"@ }
    else if code == 77 { "Snow grains"@ }
    else if code == 80 { "Slight rain showers"@ }
    else if code == 81 { "Moderate rain showers"@ }
    else if code == 82 { "Violent rain showers"@ }
    else if code == 85 { "Slight snow showers"@ }
    else if code == 86 { "Heavy snow showers"@ }
    else if code == 95 { "Thunderstorm"@ }
    else if code == 96 { "Thunderstorm with light hail"@ }
    else if code == 99 { "Thunderstorm with heavy hail"@ }
    else { "Unknown conditions"@ }
}

/// The words for a WMO weather interpretation code.
pub fn lookup_wmo_code(code: i32) -> (r: &'static str)
    ensures
        r@ == wmo_description(code),
{
    match code {
        0 => "Clear sky",
        1 => "Mainly clear",
        2 => "Partly cloudy",
        3 => "Overcast",
        45 => "Fog",
        48 => "Depositing rime fog",
        51 => "Light drizzle",
        53 => "Moderate drizzle",
        55 => "Dense drizzle",
        56 => "Light freezing drizzle",
        57 => "Dense freezing drizzle",
        61 => "Slight rain",
        63 => "Moderate rain",
        65 => "Heavy rain",
        66 => "Light freezing rain",
        67 => "Heavy freezing rain",
        71 => "Slight snow fall",
        73 => "Moderate snow fall",
        75 => "Heavy snow fall",
        77 => "Snow grains",
        80 => "Slight rain showers",
        81 => "Moderate rain showers",
        82 => "Violent rain showers",
        85 => "Slight snow showers",
        86 => "Heavy snow showers",
        95 => "Thunderstorm",
        96 => "Thunderstorm with light hail",
        99 => "Thunderstorm with heavy hail",
        _ => "Unknown conditions",
    }
}

/// The weather report for a weather code and a rendered temperature.
pub fn weather_report(weather_code: i32, temp: String) -> (r: WeatherReport)
    ensures
        r.temp@ == temp@,
        r.conditions@ == wmo_description(weather_code),
{
    let conditions = lookup_wmo_code(weather_code).to_owned();
    WeatherReport { temp, conditions }
}

/// The conditions and temperature the info reply shows: the report's, or
/// "unavailable" for both when the weather could not be fetched.
pub open spec fn shown_weather(weather: Result<WeatherReport, WeatherError>) -> (Seq<char>, Seq<char>) {
    match weather {
        Ok(report) => (report.conditions@, report.temp@),
        Err(_) => (UNAVAILABLE@, UNAVAILABLE@),
    }
}

/// The info reply.
pub open spec fn info_text(
    time: Seq<char>,
    date: Seq<char>,
    online: nat,
    total: nat,
    conditions: Seq<char>,
    temp: Seq<char>,
) -> Seq<char> {
    "🕰️ It's currently "@ + time + " on "@ + date + "\n📟 I see "@ + decimal(online) + " nodes online ("@
        + decimal(total) + " total)\n🌤️ Current conditions: "@ + conditions + ", "@ + temp
        + " (.weather for forecast)"@
}

/// The info reply for a local time of day and date, the count of nodes
/// online and in total, and the weather.
pub fn info_response(
    time: &str,
    date: &str,
    online: usize,
    total: usize,
    weather: &Result<WeatherReport, WeatherError>,
) -> (r: CommandResponse)
    ensures
        r.texts() == seq![
            info_text(time@, date@, online as nat, total as nat, shown_weather(*weather).0, shown_weather(*weather).1),
        ],
        r.destination == ReplyDestination::Sender,
{
    let (conditions, temp) = match weather {
        Ok(report) => (report.conditions.clone(), report.temp.clone()),
        Err(_) => (UNAVAILABLE.to_owned(), UNAVAILABLE.to_owned()),
    };
    let mut text = "🕰️ It's currently ".to_owned();
    text.append(time);
    text.append(" on ");
    text.append(date);
    text.append("\n📟 I see ");
    push_decimal(&mut text, online as u64);
    text.append(" nodes online (");
    push_decimal(&mut text, total as u64);
    text.append(" total)\n🌤️ Current conditions: ");
    text.append(conditions.as_str());
    text.append(", ");
    text.append(temp.as_str());
    text.append(" (.weather for forecast)");
    proof {
        assert(text@ =~= info_text(time@, date@, online as nat, total as nat, shown_weather(*weather).0, shown_weather(*weather).1));
    }
    CommandResponse::from(text)
}

/// How the info reply shows the time of day: hours, minutes and seconds,
/// then the time zone (as its offset from UTC).
pub const TIME_PATTERN: &'static str = "%T %Z";
/// How the info reply shows the date: weekday, month, day and year.
pub const DATE_PATTERN: &'static str = "%a %b %e %Y";
/// The last Unix time (in seconds) the info reply shows as a local time:
/// the end of the year 9999.
pub const LAST_SHOWN_SECS: u64 = 253402300799;

/// chrono: the Unix time `secs` in the machine's local time zone
/// (`DateTime::from_timestamp`, then `with_timezone(&Local)`), written out
/// by `format(pattern)`; none when chrono cannot write the pattern. The text
/// depends on the machine's time zone, so nothing is stated of it. Within
/// the range that `requires` admits chrono finds the time and its zone
/// without overflow; left unsaid is that chrono panics when the machine's
/// time-zone data gives an offset of a day or more, which rests on the
/// machine, not on the arguments.
#[verifier::external_body]
fn format_local_time(secs: i64, pattern: &str) -> Option<String>
    requires
        0 <= secs <= LAST_SHOWN_SECS,
{
    let utc = chrono::DateTime::from_timestamp(secs, 0)?;
    let mut out = String::new();
    write!(out, "{}", utc.with_timezone(&chrono::Local).format(pattern)).ok()?;
    Some(out)
}

/// The local time of day and date that the info reply shows for a clock
/// reading (seconds since the Unix epoch, none when the clock reads before
/// it): "unavailable" for both when there is no reading or it lies past
/// the year 9999, and for either that chrono cannot format.
pub fn local_time_and_date(reading: Option<u64>) -> (r: (String, String))
    ensures
        !(reading matches Some(secs) && secs <= LAST_SHOWN_SECS) ==> r.0@ == UNAVAILABLE@ && r.1@ == UNAVAILABLE@,
{
    match reading {
        Some(secs) => {
            if secs <= LAST_SHOWN_SECS {
                let time = match format_local_time(secs as i64, TIME_PATTERN) {
                    Some(text) => text,
                    None => UNAVAILABLE.to_owned(),
                };
                let date = match format_local_time(secs as i64, DATE_PATTERN) {
                    Some(text) => text,
                    None => UNAVAILABLE.to_owned(),
                };
                (time, date)
            } else {
                (UNAVAILABLE.to_owned(), UNAVAILABLE.to_owned())
            }
        },
        None => (UNAVAILABLE.to_owned(), UNAVAILABLE.to_owned()),
    }
}

/// The info reply now: the local time (with its time zone) and date, the nodes online by the
/// system clock, the nodes known, and the weather given.
pub fn info_command(tracker: &NodeTracker, weather: &Result<WeatherReport, WeatherError>) -> (r: CommandResponse)
    ensures
        exists|time: Seq<char>, date: Seq<char>, now: u32|
            r.texts() == seq![
                info_text(time, date, online_count(tracker.known(), now), tracker.known().len(),
                    shown_weather(*weather).0, shown_weather(*weather).1),
            ],
        r.destination == ReplyDestination::Sender,
{
    let (time, date) = local_time_and_date(system_unix_secs());
    let nodes = tracker.total_nodes();
    let online = tracker.online_nodes();
    let r = info_response(time.as_str(), date.as_str(), online, nodes, weather);
    proof {
        let now = choose|now: u32| online == online_count(tracker.known(), now);
        assert(r.texts() == seq![
            info_text(time@, date@, online_count(tracker.known(), now), tracker.known().len(),
                shown_weather(*weather).0, shown_weather(*weather).1),
        ]);
    }
    r
}

} // verus!
