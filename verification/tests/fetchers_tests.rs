use wx::api::alerts_response;
use wx::errors::WxError;
use wx::fetchers::{
    alerts_json, current_conditions_json, forecast_json, geocode_url, location_from_results,
    points_url, Alert, CurrentConditions, FeaturePack, ForecastPayload, GeocodeResult,
    NWSForecastPeriod,
};

fn period(name: &str, temp: i32) -> NWSForecastPeriod {
    NWSForecastPeriod {
        name: name.to_string(),
        temperature: temp,
        temperature_unit: "F".to_string(),
        wind_speed: "5 mph".to_string(),
        wind_direction: "NW".to_string(),
        short_forecast: "Sunny".to_string(),
        detailed_forecast: "Sunny all day.".to_string(),
    }
}

#[test]
fn synthetic_pack_is_offline_and_fixed() {
    let pack = FeaturePack::synthetic("Seattle");
    let loc = pack.location.as_ref().expect("location");
    assert_eq!(loc.name, "Seattle");
    assert_eq!(loc.lat_e4, 476000);
    assert_eq!(loc.lon_e4, -1223000);
    assert_eq!(loc.timezone.as_deref(), Some("America/Los_Angeles"));
    match pack.current_conditions.as_ref().expect("conditions") {
        CurrentConditions::Synthetic { temperature, wind, humidity, conditions } => {
            assert_eq!(*temperature, 50);
            assert_eq!(*wind, 10);
            assert_eq!(*humidity, 65);
            assert_eq!(conditions, "Clear");
        }
        other => panic!("unexpected conditions shape: {:?}", other),
    }
    assert_eq!(pack.forecast.as_ref().expect("forecast").periods.len(), 0);
    assert!(pack.alerts.is_empty());
    assert!(chrono::DateTime::parse_from_rfc3339(&pack.timestamp).is_ok());
}

#[test]
fn assemble_derives_conditions_from_first_period() {
    let loc = wx::fetchers::Location {
        name: "Olympia".to_string(),
        lat_e4: 470379,
        lon_e4: -1229007,
        timezone: None,
    };
    let periods = vec![period("Tonight", 41), period("Tomorrow", 55)];
    let pack = FeaturePack::assemble(loc, periods, "2024-01-01T00:00:00+00:00".to_string());
    match pack.current_conditions.as_ref().expect("conditions") {
        CurrentConditions::FromPeriod { temperature, conditions, .. } => {
            assert_eq!(*temperature, 41);
            assert_eq!(conditions, "Sunny");
        }
        other => panic!("unexpected conditions shape: {:?}", other),
    }
    assert_eq!(pack.forecast.as_ref().expect("forecast").periods.len(), 2);
    assert!(pack.alerts.is_empty());
    assert_eq!(pack.timestamp, "2024-01-01T00:00:00+00:00");
}

#[test]
fn assemble_with_no_periods_is_empty_conditions() {
    let loc = wx::fetchers::Location {
        name: "Nowhere".to_string(),
        lat_e4: 0,
        lon_e4: 0,
        timezone: None,
    };
    let pack = FeaturePack::assemble(loc, Vec::new(), "t".to_string());
    assert!(matches!(
        pack.current_conditions.as_ref().expect("conditions"),
        CurrentConditions::Empty
    ));
}

#[test]
fn geocode_url_percent_encodes_the_query() {
    assert_eq!(
        geocode_url("Pike Place, Seattle"),
        "https://nominatim.openstreetmap.org/search?q=Pike%20Place%2C%20Seattle&format=json&limit=1"
    );
    assert_eq!(
        geocode_url("plain"),
        "https://nominatim.openstreetmap.org/search?q=plain&format=json&limit=1"
    );
}

#[test]
fn points_url_uses_four_decimals() {
    assert_eq!(
        points_url(476038, -1223215),
        "https://api.weather.gov/points/47.6038,-122.3215"
    );
}

#[test]
fn resolver_zero_results_is_not_found() {
    match location_from_results("Nonexistent Place Zzz", Vec::new()) {
        Err(WxError::NotFound(m)) => {
            assert_eq!(m, "Location 'Nonexistent Place Zzz' not found");
        }
        other => panic!("expected NotFound, got {:?}", other),
    }
}

#[test]
fn resolver_takes_the_first_result() {
    let rows = vec![
        GeocodeResult {
            lat: "47.6038321".to_string(),
            lon: "-122.3300624".to_string(),
            display_name: "Seattle, King County, Washington, USA".to_string(),
        },
        GeocodeResult {
            lat: "0".to_string(),
            lon: "0".to_string(),
            display_name: "Elsewhere".to_string(),
        },
    ];
    let loc = location_from_results("Seattle", rows).expect("resolution");
    assert_eq!(loc.name, "Seattle, King County, Washington, USA");
    assert_eq!(loc.lat_e4, 476038);
    assert_eq!(loc.lon_e4, -1223301);
    assert!(loc.timezone.is_none());
}

#[test]
fn resolver_unreadable_coordinates_are_upstream_errors() {
    let rows = vec![GeocodeResult {
        lat: "not-a-number".to_string(),
        lon: "0".to_string(),
        display_name: "Broken".to_string(),
    }];
    match location_from_results("q", rows) {
        Err(WxError::Upstream(_)) => {}
        other => panic!("expected Upstream, got {:?}", other),
    }
}

#[test]
fn offline_alerts_endpoint_is_empty() {
    let pack = FeaturePack::synthetic("Seattle");
    let response = alerts_response(pack);
    assert!(response.alerts.is_empty());
    assert_eq!(response.count, 0);
    assert_eq!(wx::api::api_version(), "0.2.0");
}

#[test]
fn json_renderings_are_exact() {
    let c = CurrentConditions::FromPeriod {
        temperature: -3,
        temperature_unit: "C".to_string(),
        wind_speed: "10 km/h".to_string(),
        wind_direction: "N".to_string(),
        conditions: "Light \"snow\"".to_string(),
    };
    assert_eq!(
        current_conditions_json(&c),
        "{\"temp\":-3,\"temp_unit\":\"C\",\"wind\":\"10 km/h\",\"wind_direction\":\"N\",\"conditions\":\"Light \\\"snow\\\"\"}"
    );
    assert_eq!(current_conditions_json(&CurrentConditions::Empty), "{}");

    let f = ForecastPayload { periods: vec![period("Tonight", 41)] };
    assert_eq!(
        forecast_json(&f),
        "{\"periods\":[{\"name\":\"Tonight\",\"temperature\":41,\"temperatureUnit\":\"F\",\"windSpeed\":\"5 mph\",\"windDirection\":\"NW\",\"shortForecast\":\"Sunny\",\"detailedForecast\":\"Sunny all day.\"}]}"
    );

    let alerts = vec![Alert {
        event: "Wind Advisory".to_string(),
        severity: "Moderate".to_string(),
        description: "Gusts to 45 mph.".to_string(),
        areas: vec!["King County".to_string(), "Pierce County".to_string()],
    }];
    assert_eq!(
        alerts_json(&alerts),
        "[{\"event\":\"Wind Advisory\",\"severity\":\"Moderate\",\"description\":\"Gusts to 45 mph.\",\"areas\":[\"King County\",\"Pierce County\"]}]"
    );
    assert_eq!(alerts_json(&Vec::new()), "[]");
}
