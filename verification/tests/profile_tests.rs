use wx::errors::WxError;
use wx::profile::Profile;

#[test]
fn new_profile_defaults() {
    let p = Profile::new("alice");
    assert_eq!(p.name, "alice");
    assert!(p.default_location.is_none());
    assert!(p.api_keys.gemini.is_none());
    assert!(p.api_keys.openrouter.is_none());
    assert_eq!(p.units, "imperial");
    assert!(p.favorites.is_empty());
    assert!(chrono::DateTime::parse_from_rfc3339(&p.created_at).is_ok());
}

#[test]
fn update_units_accepts_only_known_systems() {
    let mut p = Profile::new("alice");
    p.update("units", "metric").expect("metric is valid");
    assert_eq!(p.units, "metric");
    match p.update("units", "bogus") {
        Err(WxError::Validation(m)) => {
            assert_eq!(m, "Units must be 'imperial' or 'metric'");
        }
        other => panic!("expected Validation, got {:?}", other),
    }
    // The rejected update changed nothing.
    assert_eq!(p.units, "metric");
    p.update("units", "imperial").expect("imperial is valid");
    assert_eq!(p.units, "imperial");
}

#[test]
fn update_sets_location_and_keys() {
    let mut p = Profile::new("bob");
    p.update("default_location", "Seattle").expect("location");
    assert_eq!(p.default_location.as_deref(), Some("Seattle"));
    p.update("gemini_key", "SECRET-REDACTED").expect("gemini key");
    assert_eq!(p.api_keys.gemini.as_deref(), Some("SECRET-REDACTED"));
    p.update("openrouter_key", "SECRET-REDACTED").expect("openrouter key");
    assert_eq!(p.api_keys.openrouter.as_deref(), Some("SECRET-REDACTED"));
}

#[test]
fn update_unknown_field_is_rejected() {
    let mut p = Profile::new("carol");
    match p.update("shoe_size", "44") {
        Err(WxError::Validation(m)) => {
            assert_eq!(m, "Unknown field: shoe_size");
        }
        other => panic!("expected Validation, got {:?}", other),
    }
    assert!(p.default_location.is_none());
    assert_eq!(p.units, "imperial");
}

#[test]
fn favorites_are_a_set_in_order() {
    let mut p = Profile::new("dora");
    p.add_favorite("Seattle");
    p.add_favorite("Portland");
    p.add_favorite("Seattle");
    assert_eq!(p.favorites, vec!["Seattle", "Portland"]);
    p.remove_favorite("Seattle");
    assert_eq!(p.favorites, vec!["Portland"]);
    p.remove_favorite("Nowhere");
    assert_eq!(p.favorites, vec!["Portland"]);
}

#[test]
fn profile_names_reject_path_separators() {
    assert!(Profile::valid_name("alice"));
    assert!(!Profile::valid_name(""));
    assert!(!Profile::valid_name("a/b"));
    assert!(!Profile::valid_name("a\\b"));
}

#[test]
fn profile_paths_are_built_from_the_directory() {
    assert_eq!(
        Profile::profile_path("/home/u/.wx/profiles", "alice"),
        "/home/u/.wx/profiles/alice.json"
    );
    assert_eq!(
        Profile::current_profile_path("/home/u/.wx/profiles"),
        "/home/u/.wx/profiles/.current"
    );
}
