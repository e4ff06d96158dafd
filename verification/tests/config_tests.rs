use wx::config::{Config, EnvValues, Units};
use wx::coords::parse_coord_e4;
use wx::text::parse_u64;

fn empty_env() -> EnvValues {
    EnvValues {
        openrouter_api_key: None,
        openrouter_model: None,
        gemini_api_key: None,
        google_api_key: None,
        gemini_model: None,
        ai_temperature: None,
        ai_max_tokens: None,
        units: None,
        wx_offline: None,
        privacy_mode: None,
    }
}

#[test]
fn defaults_without_environment() {
    let c = Config::from_env(empty_env(), false, true);
    assert!(c.openrouter_api_key.is_none());
    assert_eq!(c.openrouter_model, "openrouter/auto");
    assert!(c.gemini_api_key.is_none());
    assert_eq!(c.gemini_model, "gemini-2.0-flash-exp");
    assert_eq!(c.temperature_e2, 20);
    assert_eq!(c.max_tokens, 900);
    assert!(matches!(c.units, Units::Imperial));
    assert!(!c.offline);
    assert!(c.debug);
    assert!(c.privacy_mode);
}

#[test]
fn numbers_are_parsed_with_fallbacks() {
    let mut env = empty_env();
    env.ai_temperature = Some("0.35".to_string());
    env.ai_max_tokens = Some("1200".to_string());
    let c = Config::from_env(env, false, false);
    assert_eq!(c.temperature_e2, 35);
    assert_eq!(c.max_tokens, 1200);

    let mut env2 = empty_env();
    env2.ai_temperature = Some("warm".to_string());
    env2.ai_max_tokens = Some("lots".to_string());
    let c2 = Config::from_env(env2, false, false);
    assert_eq!(c2.temperature_e2, 20);
    assert_eq!(c2.max_tokens, 900);

    let mut env3 = empty_env();
    env3.ai_temperature = Some("2".to_string());
    let c3 = Config::from_env(env3, false, false);
    assert_eq!(c3.temperature_e2, 200);
}

#[test]
fn units_accept_any_letter_case() {
    let mut env = empty_env();
    env.units = Some("METRIC".to_string());
    assert!(matches!(Config::from_env(env, false, false).units, Units::Metric));
    let mut env2 = empty_env();
    env2.units = Some("metri".to_string());
    assert!(matches!(Config::from_env(env2, false, false).units, Units::Imperial));
}

#[test]
fn offline_is_the_union_of_flag_and_switch() {
    let mut env = empty_env();
    env.wx_offline = Some("1".to_string());
    assert!(Config::from_env(env, false, false).offline);
    let mut env2 = empty_env();
    env2.wx_offline = Some("0".to_string());
    assert!(!Config::from_env(env2, false, false).offline);
    assert!(Config::from_env(empty_env(), true, false).offline);
}

#[test]
fn privacy_defaults_on_and_only_zero_disables() {
    let mut env = empty_env();
    env.privacy_mode = Some("0".to_string());
    assert!(!Config::from_env(env, false, false).privacy_mode);
    let mut env2 = empty_env();
    env2.privacy_mode = Some("yes".to_string());
    assert!(Config::from_env(env2, false, false).privacy_mode);
}

#[test]
fn gemini_key_falls_back_to_google_key() {
    let mut env = empty_env();
    env.google_api_key = Some("SECRET-REDACTED".to_string());
    let c = Config::from_env(env, false, false);
    assert_eq!(c.gemini_api_key.as_deref(), Some("SECRET-REDACTED"));
    let mut env2 = empty_env();
    env2.gemini_api_key = Some("SECRET-REDACTED".to_string());
    env2.google_api_key = Some("other".to_string());
    let c2 = Config::from_env(env2, false, false);
    assert_eq!(c2.gemini_api_key.as_deref(), Some("SECRET-REDACTED"));
}

#[test]
fn coordinate_parser_rounds_at_four_decimals() {
    let chars = |s: &str| s.chars().collect::<Vec<char>>();
    assert_eq!(parse_coord_e4(&chars("47.6038321")), Some(476038));
    assert_eq!(parse_coord_e4(&chars("47.60005")), Some(476001));
    assert_eq!(parse_coord_e4(&chars("-47.60005")), Some(-476001));
    assert_eq!(parse_coord_e4(&chars("1.99995")), Some(20000));
    assert_eq!(parse_coord_e4(&chars("-122.3")), Some(-1223000));
    assert_eq!(parse_coord_e4(&chars("47")), Some(470000));
    assert_eq!(parse_coord_e4(&chars("+1.5")), Some(15000));
    assert_eq!(parse_coord_e4(&chars(".25")), Some(2500));
    assert_eq!(parse_coord_e4(&chars("47.")), Some(470000));
    assert_eq!(parse_coord_e4(&chars("")), None);
    assert_eq!(parse_coord_e4(&chars("-")), None);
    assert_eq!(parse_coord_e4(&chars("12.34.56")), None);
    assert_eq!(parse_coord_e4(&chars("abc")), None);
}

#[test]
fn unsigned_parser_reads_plain_digit_runs() {
    let chars = |s: &str| s.chars().collect::<Vec<char>>();
    assert_eq!(parse_u64(&chars("900")), Some(900));
    assert_eq!(parse_u64(&chars("0")), Some(0));
    assert_eq!(parse_u64(&chars("18446744073709551615")), Some(u64::MAX));
    assert_eq!(parse_u64(&chars("18446744073709551616")), None);
    assert_eq!(parse_u64(&chars("12a")), None);
    assert_eq!(parse_u64(&chars("")), None);
}
