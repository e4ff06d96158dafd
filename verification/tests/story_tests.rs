use wx::config::{Config, EnvValues};
use wx::fetchers::FeaturePack;
use wx::story::{
    activity_emoji, choose_provider, confidence_bar, ProviderChoice, WeatherStory,
};

fn env_without_keys() -> EnvValues {
    EnvValues {
        openrouter_api_key: None,
        openrouter_model: None,
        gemini_api_key: None,
        google_api_key: None,
        gemini_model: None,
        ai_temperature: None,
        ai_max_tokens: None,
        units: None,
        wx_offline: None,
        privacy_mode: None,
    }
}

#[test]
fn confidence_bar_width_and_fill() {
    for c in 0..=100u32 {
        let bar = confidence_bar(c);
        assert_eq!(bar.chars().count(), 10, "width at {}", c);
        let filled = bar.chars().filter(|ch| *ch == '█').count();
        assert_eq!(filled as u32, c / 10, "fill at {}", c);
    }
    assert_eq!(confidence_bar(85), "████████░░");
    assert_eq!(confidence_bar(0), "░░░░░░░░░░");
    assert_eq!(confidence_bar(100), "██████████");
}

#[test]
fn activity_emoji_matches_keywords() {
    assert_eq!(activity_emoji("Morning commute"), "🚗");
    assert_eq!(activity_emoji("BIKE ride"), "🚴");
    assert_eq!(activity_emoji("evening run"), "🏃");
    assert_eq!(activity_emoji("Outdoor lunch"), "🌳");
    assert_eq!(activity_emoji("Sailing trip"), "⛵");
    assert_eq!(activity_emoji("knitting"), "📌");
}

#[test]
fn synthetic_story_is_deterministic() {
    let story = WeatherStory::synthetic("Seattle");
    assert_eq!(
        story.setup,
        "High pressure dominates over Seattle, creating stable atmospheric conditions."
    );
    assert_eq!(
        story.current,
        "Clear skies with light winds. Temperature comfortable for the season."
    );
    assert_eq!(story.evolution.phases.len(), 2);
    assert_eq!(story.evolution.phases[0].start_time, "Now");
    assert_eq!(story.evolution.phases[0].confidence_e2, 80);
    assert_eq!(story.evolution.phases[1].key_changes.len(), 0);
    assert_eq!(story.decisions.len(), 1);
    assert_eq!(story.decisions[0].activity, "Outdoor activities");
    assert_eq!(story.decisions[0].timing.as_deref(), Some("Any time today"));
    assert_eq!(story.confidence.rationale, "Synthetic data - offline mode");
    assert!(story.bottom_line.contains("Seattle"));
    assert_eq!(
        story.bottom_line,
        "Stable, fair weather continues over Seattle with no significant changes expected."
    );
    assert!(story.meta.is_none());
}

#[test]
fn generation_without_keys_is_synthetic() {
    let config = Config::from_env(env_without_keys(), true, false);
    assert_eq!(choose_provider(&config), ProviderChoice::Synthetic);
    let pack = FeaturePack::synthetic("Seattle");
    let story = WeatherStory::generate(&pack, &config, None);
    let reference = WeatherStory::synthetic("Seattle");
    assert_eq!(story.setup, reference.setup);
    assert_eq!(story.current, reference.current);
    assert_eq!(story.evolution.phases.len(), reference.evolution.phases.len());
    for (a, b) in story.evolution.phases.iter().zip(reference.evolution.phases.iter()) {
        assert_eq!(a.start_time, b.start_time);
        assert_eq!(a.end_time, b.end_time);
        assert_eq!(a.description, b.description);
        assert_eq!(a.key_changes, b.key_changes);
        assert_eq!(a.confidence_e2, b.confidence_e2);
    }
    assert_eq!(story.meteorology, reference.meteorology);
    assert_eq!(story.decisions.len(), 1);
    assert_eq!(story.decisions[0].recommendation, reference.decisions[0].recommendation);
    assert_eq!(
        story.confidence.primary_uncertainty,
        reference.confidence.primary_uncertainty
    );
    assert_eq!(story.bottom_line, reference.bottom_line);
}

#[test]
fn generation_hands_provider_story_through() {
    let mut env = env_without_keys();
    env.gemini_api_key = Some("SECRET-REDACTED".to_string());
    let config = Config::from_env(env, false, false);
    assert_eq!(choose_provider(&config), ProviderChoice::Gemini);
    let pack = FeaturePack::synthetic("Rome");
    let provided = WeatherStory::synthetic("Elsewhere");
    let story = WeatherStory::generate(&pack, &config, Some(provided));
    assert!(story.setup.contains("Elsewhere"));
}

#[test]
fn provider_order_prefers_gemini() {
    let mut env = env_without_keys();
    env.openrouter_api_key = Some("SECRET-REDACTED".to_string());
    let config = Config::from_env(env, false, false);
    assert_eq!(choose_provider(&config), ProviderChoice::OpenRouter);

    let mut env2 = env_without_keys();
    env2.openrouter_api_key = Some("SECRET-REDACTED".to_string());
    env2.gemini_api_key = Some("SECRET-REDACTED".to_string());
    let config2 = Config::from_env(env2, false, false);
    assert_eq!(choose_provider(&config2), ProviderChoice::Gemini);
}

#[test]
fn timeline_visualization_draws_the_tree() {
    let story = WeatherStory::synthetic("Kyoto");
    let text = story.evolution.to_visualization();
    let mut expected = String::new();
    expected.push_str("├─ Now – 6 hours: Conditions remain stable with gradual temperature change\n");
    expected.push_str("│    • Slow temperature transition\n");
    expected.push_str("│  Confidence: ████████░░\n");
    expected.push_str("│\n");
    expected.push_str("└─ 6 hours – 12 hours: Continuing stable pattern\n");
    expected.push_str("   Confidence: ███████░░░");
    assert_eq!(text, expected);
}

#[test]
fn prompt_embeds_location_and_data() {
    let pack = FeaturePack::synthetic("Seattle");
    let prompt = WeatherStory::build_story_prompt(&pack);
    assert!(prompt.starts_with(
        "You are an expert meteorologist crafting a weather story for Seattle."
    ));
    assert!(prompt.contains(
        "{\"temp\":50,\"wind\":10,\"humidity\":65,\"conditions\":\"Clear\"}"
    ));
    assert!(prompt.contains("Forecast: {\"periods\":[]}"));
    assert!(!prompt.contains("ACTIVE ALERTS"));
    assert!(prompt.ends_with("Return ONLY the JSON object, no other text."));
}

#[test]
fn prompt_placeholder_for_missing_location() {
    let mut pack = FeaturePack::synthetic("x");
    pack.location = None;
    let prompt = WeatherStory::build_story_prompt(&pack);
    assert!(prompt.starts_with(
        "You are an expert meteorologist crafting a weather story for Unknown Location."
    ));
}

#[test]
fn gemini_request_body_is_exact() {
    let config = Config::from_env(env_without_keys(), false, false);
    let body = wx::story::gemini_request_body("hi", &config);
    assert_eq!(
        body,
        "{\"contents\":[{\"parts\":[{\"text\":\"hi\"}]}],\"generationConfig\":{\"temperature\":0.20,\"maxOutputTokens\":900,\"responseMimeType\":\"application/json\"}}"
    );
}

#[test]
fn request_bodies_escape_the_prompt() {
    let config = Config::from_env(env_without_keys(), false, false);
    let body = wx::story::gemini_request_body("a\"b\nc", &config);
    assert!(body.contains("\"a\\\"b\\nc\""));
    let body2 = wx::story::openrouter_request_body("x\ty", &config);
    assert!(body2.contains("\"x\\ty\""));
    assert!(body2.contains("\"model\":\"openrouter/auto\""));
    assert!(body2.contains("\"max_tokens\":900"));
}

#[test]
fn provider_urls_are_built_from_parts() {
    assert_eq!(
        wx::story::gemini_url("gemini-2.0-flash-exp", "k123"),
        "https://generativelanguage.googleapis.com/v1beta/models/gemini-2.0-flash-exp:generateContent?key=k123"
    );
    assert_eq!(
        wx::story::openrouter_url(),
        "https://openrouter.ai/api/v1/chat/completions"
    );
}
