//! Weather data acquisition: the FeaturePack snapshot and the pipeline
//! that fills it.
//!
//! The pipeline geocodes a free-text place query, resolves the forecast
//! endpoint for the coordinate, and assembles the responses into one
//! normalized `FeaturePack`. The HTTP calls themselves happen outside the
//! library; this module builds the request URLs, reads the providers'
//! decoded responses, and owns every rule about what the snapshot holds.

use vstd::prelude::*;

use crate::clock::now_rfc3339;
use crate::coords::{
    coord_chars, coord_grammar_ok, coord_magnitude_e4, coord_value_e4, format_coord_e4,
    parse_coord_e4,
};
use crate::errors::WxError;
use crate::text::{chars_vec, copy_str, format_i64, hex_upper, int_chars, string_from_chars};
use crate::json::{json_string, json_string_of};
use vstd::string::StringSliceAdditionalSpecFns;

verus! {

/// A resolved place: display name and fixed-point coordinates in
/// ten-thousandths of a degree.
#[derive(Clone, Debug)]
pub struct Location {
    pub name: String,
    pub lat_e4: i64,
    pub lon_e4: i64,
    pub timezone: Option<String>,
}

/// One active weather alert.
#[derive(Clone, Debug)]
pub struct Alert {
    pub event: String,
    pub severity: String,
    pub description: String,
    pub areas: Vec<String>,
}

/// One forecast period from the weather service, in provider order.
#[derive(Clone, Debug)]
pub struct NWSForecastPeriod {
    pub name: String,
    pub temperature: i32,
    pub temperature_unit: String,
    pub wind_speed: String,
    pub wind_direction: String,
    pub short_forecast: String,
    pub detailed_forecast: String,
}

/// The forecast payload of a snapshot: the ordered period list.
#[derive(Clone, Debug)]
pub struct ForecastPayload {
    pub periods: Vec<NWSForecastPeriod>,
}

/// Current conditions, one of the known shapes a snapshot can carry.
#[derive(Clone, Debug)]
pub enum CurrentConditions {
    /// Derived from the first forecast period.
    FromPeriod {
        temperature: i32,
        temperature_unit: String,
        wind_speed: String,
        wind_direction: String,
        conditions: String,
    },
    /// The fixed offline placeholder.
    Synthetic { temperature: i32, wind: i32, humidity: i32, conditions: String },
    /// No forecast period to derive from.
    Empty,
}

/// The canonical weather snapshot for one query.
#[derive(Clone, Debug)]
pub struct FeaturePack {
    pub location: Option<Location>,
    pub current_conditions: Option<CurrentConditions>,
    pub forecast: Option<ForecastPayload>,
    pub alerts: Vec<Alert>,
    pub timestamp: String,
}

/// The current conditions the first forecast period yields: its headline
/// figures, or the empty shape when there is no period at all.
pub open spec fn current_of(periods: Seq<NWSForecastPeriod>) -> CurrentConditions {
    if periods.len() > 0 {
        CurrentConditions::FromPeriod {
            temperature: periods[0].temperature,
            temperature_unit: periods[0].temperature_unit,
            wind_speed: periods[0].wind_speed,
            wind_direction: periods[0].wind_direction,
            conditions: periods[0].short_forecast,
        }
    } else {
        CurrentConditions::Empty
    }
}

impl FeaturePack {
    /// The fully synthetic snapshot for offline use: the query as the
    /// location name at fixed coordinates, fixed clear conditions, an
    /// empty period list, and no alerts. Only the timestamp comes from
    /// the wall clock.
    pub fn synthetic(location_query: &str) -> (p: FeaturePack)
        ensures
            p.location matches Some(l) && l.name@ == location_query@ && l.lat_e4 == 476000
                && l.lon_e4 == -1223000 && (l.timezone matches Some(tz) && tz@
                == "America/Los_Angeles"@),
            p.current_conditions matches Some(
                CurrentConditions::Synthetic { temperature, wind, humidity, conditions },
            ) && temperature == 50 && wind == 10 && humidity == 65 && conditions@ == "Clear"@,
            p.forecast matches Some(f) && f.periods@.len() == 0,
            p.alerts@.len() == 0,
    {
        FeaturePack {
            location: Some(
                Location {
                    name: copy_str(location_query),
                    lat_e4: 476000,
                    lon_e4: -1223000,
                    timezone: Some(copy_str("America/Los_Angeles")),
                },
            ),
            current_conditions: Some(
                CurrentConditions::Synthetic {
                    temperature: 50,
                    wind: 10,
                    humidity: 65,
                    conditions: copy_str("Clear"),
                },
            ),
            forecast: Some(ForecastPayload { periods: Vec::new() }),
            alerts: Vec::new(),
            timestamp: now_rfc3339(),
        }
    }

    /// Compose a resolved location and a fetched period list into the
    /// snapshot: conditions derived from the first period, the periods as
    /// the forecast payload, no alerts wired yet, and the assembly time
    /// as the stamp.
    pub fn assemble(location: Location, periods: Vec<NWSForecastPeriod>, timestamp: String) -> (p:
        FeaturePack)
        ensures
            p.location matches Some(l) && l == location,
            p.current_conditions matches Some(c) && c == current_of(periods@),
            p.forecast matches Some(f) && f.periods == periods,
            p.alerts@.len() == 0,
            p.timestamp == timestamp,
    {
        let current = if periods.len() > 0 {
            let first = &periods[0];
            CurrentConditions::FromPeriod {
                temperature: first.temperature,
                temperature_unit: first.temperature_unit.clone(),
                wind_speed: first.wind_speed.clone(),
                wind_direction: first.wind_direction.clone(),
                conditions: first.short_forecast.clone(),
            }
        } else {
            CurrentConditions::Empty
        };
        FeaturePack {
            location: Some(location),
            current_conditions: Some(current),
            forecast: Some(ForecastPayload { periods }),
            alerts: Vec::new(),
            timestamp,
        }
    }
}

/// The bytes percent-encoding passes through unchanged: ASCII
/// alphanumerics and `-`, `.`, `_`, `~`.
pub open spec fn url_safe_byte(b: u8) -> bool {
    (48 <= b && b <= 57) || (65 <= b && b <= 90) || (97 <= b && b <= 122) || b == 45 || b == 46
        || b == 95 || b == 126
}

/// What one byte contributes to a percent-encoded string.
pub open spec fn percent_byte(b: u8) -> Seq<char> {
    if url_safe_byte(b) {
        seq![b as char]
    } else {
        seq!['%', hex_upper(b as int / 16), hex_upper(b as int % 16)]
    }
}

/// The percent-encoding of a byte string.
pub open spec fn percent_encoded(bs: Seq<u8>) -> Seq<char>
    decreases bs.len(),
{
    if bs.len() == 0 {
        Seq::<char>::empty()
    } else {
        percent_byte(bs[0]) + percent_encoded(bs.drop_first())
    }
}

/// Relies on urlencoding::encode: percent-encodes every byte except ASCII
/// alphanumerics and `-`, `_`, `.`, `~`, writing uppercase hex digits.
#[verifier::external_body]
fn url_encode(s: &str) -> (r: String)
    ensures
        r@ == percent_encoded(s.spec_bytes()),
{
    urlencoding::encode(s).into_owned()
}

/// The geocoding request for a place query: the provider's search
/// endpoint with the query percent-encoded, asking for the single best
/// JSON result.
pub fn geocode_url(query: &str) -> (r: String)
    ensures
        r@ == "https://nominatim.openstreetmap.org/search?q="@ + percent_encoded(
            query.spec_bytes(),
        ) + "&format=json&limit=1"@,
{
    let encoded = url_encode(query);
    let mut r = String::new();
    r.append("https://nominatim.openstreetmap.org/search?q=");
    r.append(encoded.as_str());
    r.append("&format=json&limit=1");
    r
}

/// The weather service's points endpoint for a coordinate, written at
/// four decimal places.
pub fn points_url(lat_e4: i64, lon_e4: i64) -> (r: String)
    requires
        lat_e4 > i64::MIN,
        lon_e4 > i64::MIN,
    ensures
        r@ == "https://api.weather.gov/points/"@ + coord_chars(lat_e4 as int) + ","@ + coord_chars(
            lon_e4 as int,
        ),
{
    let lat = string_from_chars(&format_coord_e4(lat_e4));
    let lon = string_from_chars(&format_coord_e4(lon_e4));
    let mut r = String::new();
    r.append("https://api.weather.gov/points/");
    r.append(lat.as_str());
    r.append(",");
    r.append(lon.as_str());
    r
}

/// One decoded row of the geocoding provider's response: coordinates as
/// decimal strings, and a display name.
#[derive(Clone, Debug)]
pub struct GeocodeResult {
    pub lat: String,
    pub lon: String,
    pub display_name: String,
}

/// Whether a coordinate string can be read into a fixed-point value.
pub open spec fn coord_readable(s: Seq<char>) -> bool {
    coord_grammar_ok(s) && coord_magnitude_e4(s) <= i64::MAX
}

/// Resolve a place from the geocoder's rows: the first row wins, its
/// coordinates read as plain decimal numbers. Zero rows is `NotFound`;
/// a first row whose coordinates cannot be read is `Upstream`.
pub fn location_from_results(query: &str, results: Vec<GeocodeResult>) -> (r: Result<
    Location,
    WxError,
>)
    ensures
        results@.len() == 0 ==> (r matches Err(e) && e is NotFound && e.message_text()
            == "Location '"@ + query@ + "' not found"@),
        results@.len() > 0 && coord_readable(results@[0].lat@) && coord_readable(
            results@[0].lon@,
        ) ==> (r matches Ok(l) && l.name == results@[0].display_name && l.lat_e4
            == coord_value_e4(results@[0].lat@) && l.lon_e4 == coord_value_e4(results@[0].lon@)
            && l.timezone is None),
        results@.len() > 0 && !(coord_readable(results@[0].lat@) && coord_readable(
            results@[0].lon@,
        )) ==> (r matches Err(e) && e is Upstream),
{
    if results.len() == 0 {
        let mut m = String::new();
        m.append("Location '");
        m.append(query);
        m.append("' not found");
        return Err(WxError::NotFound(m));
    }
    let first = &results[0];
    let lat_chars = chars_vec(first.lat.as_str());
    let lon_chars = chars_vec(first.lon.as_str());
    let lat_e4 = match parse_coord_e4(&lat_chars) {
        Some(v) => v,
        None => {
            return Err(
                WxError::Upstream(copy_str("geocoder returned an unreadable latitude")),
            );
        },
    };
    let lon_e4 = match parse_coord_e4(&lon_chars) {
        Some(v) => v,
        None => {
            return Err(
                WxError::Upstream(copy_str("geocoder returned an unreadable longitude")),
            );
        },
    };
    Ok(
        Location {
            name: first.display_name.clone(),
            lat_e4,
            lon_e4,
            timezone: None,
        },
    )
}

// JSON renderings of the snapshot's pieces, as the prompt embeds them.

/// The JSON text of a current-conditions value.
pub open spec fn json_of_current(c: CurrentConditions) -> Seq<char> {
    match c {
        CurrentConditions::FromPeriod {
            temperature,
            temperature_unit,
            wind_speed,
            wind_direction,
            conditions,
        } => "{\"temp\":"@ + int_chars(temperature as int) + ",\"temp_unit\":"@ + json_string(
            temperature_unit@,
        ) + ",\"wind\":"@ + json_string(wind_speed@) + ",\"wind_direction\":"@ + json_string(
            wind_direction@,
        ) + ",\"conditions\":"@ + json_string(conditions@) + "}"@,
        CurrentConditions::Synthetic { temperature, wind, humidity, conditions } => "{\"temp\":"@
            + int_chars(temperature as int) + ",\"wind\":"@ + int_chars(wind as int)
            + ",\"humidity\":"@ + int_chars(humidity as int) + ",\"conditions\":"@ + json_string(
            conditions@,
        ) + "}"@,
        CurrentConditions::Empty => "{}"@,
    }
}

/// The JSON text of one forecast period, with the provider's field names.
pub open spec fn json_of_period(p: NWSForecastPeriod) -> Seq<char> {
    "{\"name\":"@ + json_string(p.name@) + ",\"temperature\":"@ + int_chars(p.temperature as int)
        + ",\"temperatureUnit\":"@ + json_string(p.temperature_unit@) + ",\"windSpeed\":"@
        + json_string(p.wind_speed@) + ",\"windDirection\":"@ + json_string(p.wind_direction@)
        + ",\"shortForecast\":"@ + json_string(p.short_forecast@) + ",\"detailedForecast\":"@
        + json_string(p.detailed_forecast@) + "}"@
}

/// The JSON texts of a period list, comma-separated.
pub open spec fn json_of_periods(ps: Seq<NWSForecastPeriod>) -> Seq<char>
    decreases ps.len(),
{
    if ps.len() == 0 {
        Seq::<char>::empty()
    } else if ps.len() == 1 {
        json_of_period(ps[0])
    } else {
        json_of_periods(ps.drop_last()) + ","@ + json_of_period(ps.last())
    }
}

/// The JSON text of the forecast payload.
pub open spec fn json_of_forecast(f: ForecastPayload) -> Seq<char> {
    "{\"periods\":["@ + json_of_periods(f.periods@) + "]}"@
}

/// The JSON texts of a string list, comma-separated.
pub open spec fn json_of_strings(xs: Seq<String>) -> Seq<char>
    decreases xs.len(),
{
    if xs.len() == 0 {
        Seq::<char>::empty()
    } else if xs.len() == 1 {
        json_string(xs[0]@)
    } else {
        json_of_strings(xs.drop_last()) + ","@ + json_string(xs.last()@)
    }
}

/// The JSON text of one alert.
pub open spec fn json_of_alert(a: Alert) -> Seq<char> {
    "{\"event\":"@ + json_string(a.event@) + ",\"severity\":"@ + json_string(a.severity@)
        + ",\"description\":"@ + json_string(a.description@) + ",\"areas\":["@ + json_of_strings(
        a.areas@,
    ) + "]}"@
}

/// The JSON texts of an alert list, comma-separated.
pub open spec fn json_of_alert_items(xs: Seq<Alert>) -> Seq<char>
    decreases xs.len(),
{
    if xs.len() == 0 {
        Seq::<char>::empty()
    } else if xs.len() == 1 {
        json_of_alert(xs[0])
    } else {
        json_of_alert_items(xs.drop_last()) + ","@ + json_of_alert(xs.last())
    }
}

/// The JSON text of the alert list.
pub open spec fn json_of_alerts(xs: Seq<Alert>) -> Seq<char> {
    "["@ + json_of_alert_items(xs) + "]"@
}

/// Write a current-conditions value as JSON.
pub fn current_conditions_json(c: &CurrentConditions) -> (r: String)
    ensures
        r@ == json_of_current(*c),
{
    match c {
        CurrentConditions::FromPeriod {
            temperature,
            temperature_unit,
            wind_speed,
            wind_direction,
            conditions,
        } => {
            let mut s = String::new();
            s.append("{\"temp\":");
            s.append(string_from_chars(&format_i64(*temperature as i64)).as_str());
            s.append(",\"temp_unit\":");
            s.append(json_string_of(temperature_unit.as_str()).as_str());
            s.append(",\"wind\":");
            s.append(json_string_of(wind_speed.as_str()).as_str());
            s.append(",\"wind_direction\":");
            s.append(json_string_of(wind_direction.as_str()).as_str());
            s.append(",\"conditions\":");
            s.append(json_string_of(conditions.as_str()).as_str());
            s.append("}");
            s
        },
        CurrentConditions::Synthetic { temperature, wind, humidity, conditions } => {
            let mut s = String::new();
            s.append("{\"temp\":");
            s.append(string_from_chars(&format_i64(*temperature as i64)).as_str());
            s.append(",\"wind\":");
            s.append(string_from_chars(&format_i64(*wind as i64)).as_str());
            s.append(",\"humidity\":");
            s.append(string_from_chars(&format_i64(*humidity as i64)).as_str());
            s.append(",\"conditions\":");
            s.append(json_string_of(conditions.as_str()).as_str());
            s.append("}");
            s
        },
        CurrentConditions::Empty => {
            let mut s = String::new();
            s.append("{}");
            s
        },
    }
}

/// Write one forecast period as JSON.
fn period_json(p: &NWSForecastPeriod) -> (r: String)
    ensures
        r@ == json_of_period(*p),
{
    let mut s = String::new();
    s.append("{\"name\":");
    s.append(json_string_of(p.name.as_str()).as_str());
    s.append(",\"temperature\":");
    s.append(string_from_chars(&format_i64(p.temperature as i64)).as_str());
    s.append(",\"temperatureUnit\":");
    s.append(json_string_of(p.temperature_unit.as_str()).as_str());
    s.append(",\"windSpeed\":");
    s.append(json_string_of(p.wind_speed.as_str()).as_str());
    s.append(",\"windDirection\":");
    s.append(json_string_of(p.wind_direction.as_str()).as_str());
    s.append(",\"shortForecast\":");
    s.append(json_string_of(p.short_forecast.as_str()).as_str());
    s.append(",\"detailedForecast\":");
    s.append(json_string_of(p.detailed_forecast.as_str()).as_str());
    s.append("}");
    s
}

/// Write the forecast payload as JSON.
pub fn forecast_json(f: &ForecastPayload) -> (r: String)
    ensures
        r@ == json_of_forecast(*f),
{
    let n = f.periods.len();
    let mut s = String::new();
    s.append("{\"periods\":[");
    let mut i: usize = 0;
    while i < n
        invariant
            n == f.periods@.len(),
            i <= n,
            s@ == "{\"periods\":["@ + json_of_periods(f.periods@.subrange(0, i as int)),
        decreases n - i,
    {
        proof {
            let cur = f.periods@.subrange(0, i as int + 1);
            assert(cur.drop_last() =~= f.periods@.subrange(0, i as int));
            assert(cur.last() == f.periods@[i as int]);
        }
        if i > 0 {
            s.append(",");
        }
        s.append(period_json(&f.periods[i]).as_str());
        i = i + 1;
    }
    s.append("]}");
    proof {
        assert(f.periods@.subrange(0, n as int) =~= f.periods@);
    }
    s
}

/// Write the alert list as JSON.
pub fn alerts_json(alerts: &Vec<Alert>) -> (r: String)
    ensures
        r@ == json_of_alerts(alerts@),
{
    let n = alerts.len();
    let mut s = String::new();
    s.append("[");
    let mut i: usize = 0;
    while i < n
        invariant
            n == alerts@.len(),
            i <= n,
            s@ == "["@ + json_of_alert_items(alerts@.subrange(0, i as int)),
        decreases n - i,
    {
        proof {
            let cur = alerts@.subrange(0, i as int + 1);
            assert(cur.drop_last() =~= alerts@.subrange(0, i as int));
            assert(cur.last() == alerts@[i as int]);
        }
        if i > 0 {
            s.append(",");
        }
        s.append(alert_json(&alerts[i]).as_str());
        i = i + 1;
    }
    s.append("]");
    proof {
        assert(alerts@.subrange(0, n as int) =~= alerts@);
    }
    s
}

/// Write one alert as JSON.
fn alert_json(a: &Alert) -> (r: String)
    ensures
        r@ == json_of_alert(*a),
{
    let mut s = String::new();
    s.append("{\"event\":");
    s.append(json_string_of(a.event.as_str()).as_str());
    s.append(",\"severity\":");
    s.append(json_string_of(a.severity.as_str()).as_str());
    s.append(",\"description\":");
    s.append(json_string_of(a.description.as_str()).as_str());
    s.append(",\"areas\":[");
    let n = a.areas.len();
    let mut i: usize = 0;
    while i < n
        invariant
            n == a.areas@.len(),
            i <= n,
            s@ == "{\"event\":"@ + json_string(a.event@) + ",\"severity\":"@ + json_string(
                a.severity@,
            ) + ",\"description\":"@ + json_string(a.description@) + ",\"areas\":["@
                + json_of_strings(a.areas@.subrange(0, i as int)),
        decreases n - i,
    {
        proof {
            let cur = a.areas@.subrange(0, i as int + 1);
            assert(cur.drop_last() =~= a.areas@.subrange(0, i as int));
            assert(cur.last() == a.areas@[i as int]);
        }
        if i > 0 {
            s.append(",");
        }
        s.append(json_string_of(a.areas[i].as_str()).as_str());
        i = i + 1;
    }
    s.append("]}");
    proof {
        assert(a.areas@.subrange(0, n as int) =~= a.areas@);
    }
    s
}

} // verus!
